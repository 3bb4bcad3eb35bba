//! Ownership-transfer primitives on directory trees: copy, move, remove.
//!
//! A copy leaves both trees in place. A move is a copy followed by the removal
//! of the source: it is not atomic, and the source is removed only after the
//! copy has completed. Each primitive is a procedure; nothing happens until
//! its actions are performed.

use vstd::prelude::*;
use crate::action::{default_tree_copy, new_tree_copy_options, Action, ActionView, Event};
use crate::procedure::{
    lemma_run_characterized, rejection, stage_views, ErrorKind, Guard, Procedure, ProcedureView,
    Stage, StageView,
};

verus! {

/// The command that copies `from` recursively to `to`: `cp -r <from> <to>`.
pub open spec fn copy_command(from: Seq<char>, to: Seq<char>) -> ActionView {
    ActionView::Run { program: "cp"@, args: seq!["-r"@, from, to] }
}

/// The command that removes `dir` and all below it: `rm -rf <dir>`.
pub open spec fn remove_command(dir: Seq<char>) -> ActionView {
    ActionView::Run { program: "rm"@, args: seq!["-rf"@, dir] }
}

/// The stages of `copy`: the copy command, which has to succeed.
pub open spec fn copy_stages(from: Seq<char>, to: Seq<char>) -> Seq<StageView> {
    seq![
        StageView { action: copy_command(from, to), guard: Guard::Success, kind: ErrorKind::Copy },
    ]
}

/// The stages of a move that fails with `kind`: the copy command, then the
/// removal of the source.
pub open spec fn move_stages(from: Seq<char>, to: Seq<char>, kind: ErrorKind) -> Seq<StageView> {
    seq![
        StageView { action: copy_command(from, to), guard: Guard::Success, kind },
        StageView { action: ActionView::RemoveTree { path: from }, guard: Guard::Success, kind },
    ]
}

/// The stages of `copy_ignore`: one tree copy under the default settings,
/// whose answer is not looked at.
pub open spec fn copy_ignore_stages(from: Seq<char>, to: Seq<char>) -> Seq<StageView> {
    seq![
        StageView {
            action: ActionView::CopyTree { from, to, options: default_tree_copy() },
            guard: Guard::Ignored,
            kind: ErrorKind::Copy,
        },
    ]
}

/// The stages of `rm`: the remove command, which has to succeed.
pub open spec fn rm_stages(dir: Seq<char>) -> Seq<StageView> {
    seq![
        StageView { action: remove_command(dir), guard: Guard::Success, kind: ErrorKind::Removal },
    ]
}

/// The path that an action creates, writes to or removes, where the action
/// names one. Of the commands only the copy and the remove command are read.
pub open spec fn target(action: ActionView) -> Option<Seq<char>> {
    match action {
        ActionView::EnsureDir { path } => Some(path),
        ActionView::CopyTree { to, .. } => Some(to),
        ActionView::CopyFile { to, .. } => Some(to),
        ActionView::RemoveTree { path } => Some(path),
        ActionView::Run { program, args } => if program == "cp"@ && args.len() == 3 {
            Some(args[2])
        } else if program == "rm"@ && args.len() == 2 {
            Some(args[1])
        } else {
            None
        },
        _ => None,
    }
}

/// Appends one stage to `stages`.
pub(crate) fn push_stage(stages: &mut Vec<Stage>, action: Action, guard: Guard, kind: ErrorKind)
    ensures
        stage_views(final(stages)@) == stage_views(old(stages)@).push(
            StageView { action: action@, guard, kind },
        ),
{
    stages.push(Stage { action, guard, kind });
}

/// The action that runs `cp -r <from> <to>`.
pub(crate) fn copy_action(from: String, to: String) -> (action: Action)
    ensures
        action@ == copy_command(from@, to@),
{
    let mut args: Vec<String> = Vec::new();
    args.push(String::from_str("-r"));
    args.push(from);
    args.push(to);
    assert(args.deep_view() =~= seq!["-r"@, from@, to@]);
    Action::Run { program: String::from_str("cp"), args }
}

/// Appends the two stages of a move that fails with `kind`.
pub(crate) fn push_move(stages: &mut Vec<Stage>, from: String, to: String, kind: ErrorKind)
    ensures
        stage_views(final(stages)@) == stage_views(old(stages)@) + move_stages(from@, to@, kind),
{
    let source = from.clone();
    push_stage(stages, copy_action(from, to), Guard::Success, kind);
    push_stage(stages, Action::RemoveTree { path: source }, Guard::Success, kind);
    assert(stage_views(stages@) =~= stage_views(old(stages)@) + move_stages(from@, to@, kind));
}

/// The procedure that copies the tree `from` to `to` with `cp -r`, which
/// places the copy inside `to`, under the source's own name, where `to` is an
/// existing directory. It fails with `Copy`; the failure carries the command,
/// with both paths, and the cause.
pub fn copy(from: String, to: String) -> (procedure: Procedure)
    ensures
        procedure@ == ProcedureView::fresh(copy_stages(from@, to@)),
{
    let mut stages: Vec<Stage> = Vec::new();
    push_stage(&mut stages, copy_action(from, to), Guard::Success, ErrorKind::Copy);
    assert(stage_views(stages@) =~= copy_stages(from@, to@));
    Procedure::new(stages)
}

/// The procedure that moves the tree `from` to `to`: it copies the tree as
/// `copy` does, then removes `from`. It fails with `Move`. Where the copy
/// fails it does not ask for the removal, so the source stays as it is; where
/// the removal fails both trees are populated.
pub fn mv(from: String, to: String) -> (procedure: Procedure)
    ensures
        procedure@ == ProcedureView::fresh(move_stages(from@, to@, ErrorKind::Move)),
{
    let mut stages: Vec<Stage> = Vec::new();
    push_move(&mut stages, from, to, ErrorKind::Move);
    assert(stage_views(stages@) =~= move_stages(from@, to@, ErrorKind::Move));
    Procedure::new(stages)
}

/// The procedure that copies the tree `from` into `to` under the default
/// tree-copy settings, and completes whatever comes of the copy.
pub fn copy_ignore(from: String, to: String) -> (procedure: Procedure)
    ensures
        procedure@ == ProcedureView::fresh(copy_ignore_stages(from@, to@)),
{
    let mut stages: Vec<Stage> = Vec::new();
    let options = new_tree_copy_options();
    push_stage(
        &mut stages,
        Action::CopyTree { from, to, options },
        Guard::Ignored,
        ErrorKind::Copy,
    );
    assert(stage_views(stages@) =~= copy_ignore_stages(from@, to@));
    Procedure::new(stages)
}

/// The procedure that removes `dir` and all below it with `rm -rf`. It fails
/// with `Removal`.
pub fn rm(dir: String) -> (procedure: Procedure)
    ensures
        procedure@ == ProcedureView::fresh(rm_stages(dir@)),
{
    let mut args: Vec<String> = Vec::new();
    args.push(String::from_str("-rf"));
    args.push(dir);
    assert(args.deep_view() =~= seq!["-rf"@, dir@]);
    let mut stages: Vec<Stage> = Vec::new();
    push_stage(
        &mut stages,
        Action::Run { program: String::from_str("rm"), args },
        Guard::Success,
        ErrorKind::Removal,
    );
    assert(stage_views(stages@) =~= rm_stages(dir@));
    Procedure::new(stages)
}

/// A move asks for the removal of its source only after the copy has
/// completed, and completes only after both have. A copy that fails ends the
/// move with the source untouched.
pub proof fn lemma_move_removes_after_copy(
    from: Seq<char>,
    to: Seq<char>,
    kind: ErrorKind,
    events: Seq<Event>,
)
    ensures
        ({
            let r = ProcedureView::fresh(move_stages(from, to, kind)).run(events);
            &&& r.pending() == Some(ActionView::RemoveTree { path: from }) ==> events.len() == 1
                && events[0] == Event::Completed
            &&& r.completed() ==> events.len() >= 2 && events[0] == Event::Completed && events[1]
                == Event::Completed
            &&& events.len() >= 1 && events[0] != Event::Completed ==> r.position == 0
                && r.failure is Some && r.failure->0.kind == kind
        }),
{
    let stages = move_stages(from, to, kind);
    lemma_run_characterized(stages, events);
    let r = ProcedureView::fresh(stages).run(events);
    if r.position >= 1 {
        assert(rejection(stages[0].guard, events[0]) is None);
    }
    if r.position >= 2 {
        assert(rejection(stages[1].guard, events[1]) is None);
    }
    if events.len() >= 1 && events[0] != Event::Completed {
        assert(rejection(stages[0].guard, events[0]) is Some);
    }
}

/// `copy_ignore` completes on any answer.
pub proof fn lemma_copy_ignore_always_completes(from: Seq<char>, to: Seq<char>, event: Event)
    ensures
        ProcedureView::fresh(copy_ignore_stages(from, to)).advance(event).completed(),
{
}

} // verus!
