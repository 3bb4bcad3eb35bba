//! The snapshot store: allocating an active directory, propagating a saved
//! snapshot into it, and promoting an active directory into the saved area.
//!
//! A saved state is written once: promotion refuses a destination that
//! exists, and nothing else here writes below the saved area. Propagation
//! copies the base state's checkpoint image and pipe registry; a copy that
//! fails part-way is not rolled back, so the active directory of a failed
//! propagation is to be discarded.

use vstd::prelude::*;
use crate::action::{default_tree_copy, new_tree_copy_options, Action, ActionView, Cause, Event};
use crate::fileops::{copy_command, move_stages, push_move, push_stage, target};
use crate::layout::{
    active_area, active_dir, active_dir_of, active_pipes, active_pipes_of, in_saved_area,
    lemma_areas_are_apart, saved_area, saved_dir, saved_dir_of, saved_pipes, saved_pipes_of,
    saved_snapshot, saved_snapshot_of,
};
use crate::procedure::{
    failure_at, lemma_fails_at_first_rejection, lemma_run_characterized, rejection, stage_views,
    ErrorKind, Guard, Procedure, ProcedureView, Stage, StageView,
};

verus! {

/// A stage that probes `path`.
pub open spec fn probe(path: Seq<char>, guard: Guard, kind: ErrorKind) -> StageView {
    StageView { action: ActionView::Probe { path }, guard, kind }
}

/// The stages of `startup`: privilege first, then the two areas.
pub open spec fn startup_stages() -> Seq<StageView> {
    seq![
        StageView {
            action: ActionView::ConfirmPrivilege,
            guard: Guard::Success,
            kind: ErrorKind::Startup,
        },
        StageView {
            action: ActionView::EnsureDir { path: "active-state"@ },
            guard: Guard::Success,
            kind: ErrorKind::Startup,
        },
        StageView {
            action: ActionView::EnsureDir { path: "saved-states"@ },
            guard: Guard::Success,
            kind: ErrorKind::Startup,
        },
    ]
}

/// The stages of `allocate`: the active directory must hold nothing, then it
/// is created.
pub open spec fn allocate_stages(dir: Seq<char>) -> Seq<StageView> {
    seq![
        probe(active_dir_of(dir), Guard::Vacant, ErrorKind::Allocation),
        StageView {
            action: ActionView::EnsureDir { path: active_dir_of(dir) },
            guard: Guard::Success,
            kind: ErrorKind::Allocation,
        },
    ]
}

/// The stages of `copy_snapshot_base`: the checkpoint image is copied as a
/// tree into the active directory, then the pipe registry as a file.
pub open spec fn copy_snapshot_base_stages(base: Seq<char>, dir: Seq<char>) -> Seq<StageView> {
    seq![
        StageView {
            action: ActionView::CopyTree {
                from: saved_snapshot_of(base),
                to: active_dir_of(dir),
                options: default_tree_copy(),
            },
            guard: Guard::Success,
            kind: ErrorKind::Propagation,
        },
        StageView {
            action: ActionView::CopyFile { from: saved_pipes_of(base), to: active_pipes_of(dir) },
            guard: Guard::Success,
            kind: ErrorKind::Propagation,
        },
    ]
}

/// The stages of `propagate`: the base state's checkpoint image and pipe
/// registry must exist, then both are copied.
pub open spec fn propagate_stages(base: Seq<char>, dir: Seq<char>) -> Seq<StageView> {
    seq![
        probe(saved_snapshot_of(base), Guard::Present, ErrorKind::Propagation),
        probe(saved_pipes_of(base), Guard::Present, ErrorKind::Propagation),
    ] + copy_snapshot_base_stages(base, dir)
}

/// The stages of `promote`: the active directory must exist and the saved
/// destination must not, then the one is moved to the other.
pub open spec fn promote_stages(dir: Seq<char>, state: Seq<char>) -> Seq<StageView> {
    seq![
        probe(active_dir_of(dir), Guard::Present, ErrorKind::Promotion),
        probe(saved_dir_of(state), Guard::Absent, ErrorKind::Promotion),
    ] + move_stages(active_dir_of(dir), saved_dir_of(state), ErrorKind::Promotion)
}

/// Appends the stages of `allocate`.
pub(crate) fn push_allocate(stages: &mut Vec<Stage>, dir: &str)
    ensures
        stage_views(final(stages)@) == stage_views(old(stages)@) + allocate_stages(dir@),
{
    push_stage(
        stages,
        Action::Probe { path: active_dir(dir) },
        Guard::Vacant,
        ErrorKind::Allocation,
    );
    push_stage(
        stages,
        Action::EnsureDir { path: active_dir(dir) },
        Guard::Success,
        ErrorKind::Allocation,
    );
    assert(stage_views(stages@) =~= stage_views(old(stages)@) + allocate_stages(dir@));
}

/// Appends the stages of `copy_snapshot_base`.
pub(crate) fn push_copy_snapshot_base(stages: &mut Vec<Stage>, base_state: &str, state_path: &str)
    ensures
        stage_views(final(stages)@) == stage_views(old(stages)@) + copy_snapshot_base_stages(
            base_state@,
            state_path@,
        ),
{
    let options = new_tree_copy_options();
    push_stage(
        stages,
        Action::CopyTree {
            from: saved_snapshot(base_state),
            to: active_dir(state_path),
            options,
        },
        Guard::Success,
        ErrorKind::Propagation,
    );
    push_stage(
        stages,
        Action::CopyFile { from: saved_pipes(base_state), to: active_pipes(state_path) },
        Guard::Success,
        ErrorKind::Propagation,
    );
    assert(stage_views(stages@) =~= stage_views(old(stages)@) + copy_snapshot_base_stages(
        base_state@,
        state_path@,
    ));
}

/// Appends the stages of `propagate`.
pub(crate) fn push_propagate(stages: &mut Vec<Stage>, base_state: &str, active: &str)
    ensures
        stage_views(final(stages)@) == stage_views(old(stages)@) + propagate_stages(
            base_state@,
            active@,
        ),
{
    push_stage(
        stages,
        Action::Probe { path: saved_snapshot(base_state) },
        Guard::Present,
        ErrorKind::Propagation,
    );
    push_stage(
        stages,
        Action::Probe { path: saved_pipes(base_state) },
        Guard::Present,
        ErrorKind::Propagation,
    );
    push_copy_snapshot_base(stages, base_state, active);
    assert(stage_views(stages@) =~= stage_views(old(stages)@) + propagate_stages(
        base_state@,
        active@,
    ));
}

/// The procedure a process carries out once, before any state is touched:
/// it confirms privilege, then makes sure that the active and the saved area
/// exist. It fails with `Startup`; where privilege is missing it asks for no
/// directory.
pub fn startup() -> (procedure: Procedure)
    ensures
        procedure@ == ProcedureView::fresh(startup_stages()),
{
    let mut stages: Vec<Stage> = Vec::new();
    push_stage(&mut stages, Action::ConfirmPrivilege, Guard::Success, ErrorKind::Startup);
    push_stage(
        &mut stages,
        Action::EnsureDir { path: active_area() },
        Guard::Success,
        ErrorKind::Startup,
    );
    push_stage(
        &mut stages,
        Action::EnsureDir { path: saved_area() },
        Guard::Success,
        ErrorKind::Startup,
    );
    assert(stage_views(stages@) =~= startup_stages());
    Procedure::new(stages)
}

/// The procedure that allocates the active directory named `active`: it
/// probes the directory, then asks for it to be created. It fails with
/// `Allocation`: with cause `NotEmpty`, before it asks for anything to be
/// created, where the probe finds the directory existing and holding
/// something; with the cause given where the directory cannot be created.
pub fn allocate(active: &str) -> (procedure: Procedure)
    ensures
        procedure@ == ProcedureView::fresh(allocate_stages(active@)),
{
    let mut stages: Vec<Stage> = Vec::new();
    push_allocate(&mut stages, active);
    assert(stage_views(stages@) =~= allocate_stages(active@));
    Procedure::new(stages)
}

/// The procedure that copies the saved snapshot of `base_state` into the
/// active directory `state_path`: the checkpoint image `snapshot` as a tree,
/// placed inside the directory under its own name, then the pipe registry
/// `pipes` as a file. It fails with `Propagation` where either copy does not
/// complete.
pub fn copy_snapshot_base(base_state: &String, state_path: &String) -> (procedure: Procedure)
    ensures
        procedure@ == ProcedureView::fresh(copy_snapshot_base_stages(base_state@, state_path@)),
{
    let mut stages: Vec<Stage> = Vec::new();
    push_copy_snapshot_base(&mut stages, base_state.as_str(), state_path.as_str());
    assert(stage_views(stages@) =~= copy_snapshot_base_stages(base_state@, state_path@));
    Procedure::new(stages)
}

/// The procedure that propagates the saved snapshot of `base_state` into the
/// active directory `active`: it probes the saved checkpoint image and the
/// saved pipe registry, then copies both as `copy_snapshot_base` does. It
/// fails with `Propagation`: with cause `NotFound`, before it asks for any
/// copy, where a probe does not find what it looks for; with the cause of the
/// copy where a copy does not complete.
pub fn propagate(base_state: &str, active: &str) -> (procedure: Procedure)
    ensures
        procedure@ == ProcedureView::fresh(propagate_stages(base_state@, active@)),
{
    let mut stages: Vec<Stage> = Vec::new();
    push_propagate(&mut stages, base_state, active);
    assert(stage_views(stages@) =~= propagate_stages(base_state@, active@));
    Procedure::new(stages)
}

/// The procedure that promotes the active directory `active` to the saved
/// state named `state`: it probes the active directory and the state's saved
/// directory, then moves the one to the other, copy first and removal of the
/// active directory second. It fails with `Promotion`: with cause `NotFound`
/// where the active directory does not exist, with cause `AlreadyExists`
/// where the saved directory does, in both cases before it asks for anything
/// to be written; with the cause of the move where the move does not
/// complete.
pub fn promote(active: &str, state: &str) -> (procedure: Procedure)
    ensures
        procedure@ == ProcedureView::fresh(promote_stages(active@, state@)),
{
    let mut stages: Vec<Stage> = Vec::new();
    push_stage(
        &mut stages,
        Action::Probe { path: active_dir(active) },
        Guard::Present,
        ErrorKind::Promotion,
    );
    push_stage(
        &mut stages,
        Action::Probe { path: saved_dir(state) },
        Guard::Absent,
        ErrorKind::Promotion,
    );
    push_move(&mut stages, active_dir(active), saved_dir(state), ErrorKind::Promotion);
    assert(stage_views(stages@) =~= promote_stages(active@, state@));
    Procedure::new(stages)
}

/// Startup fails fast: without privilege it ends with `Startup` before any
/// directory is created.
pub proof fn lemma_startup_needs_privilege(events: Seq<Event>)
    requires
        events.len() >= 1,
        events[0] != Event::Completed,
    ensures
        ({
            let r = ProcedureView::fresh(startup_stages()).run(events);
            &&& r.position == 0
            &&& r.failure matches Some(f) && f.kind == ErrorKind::Startup
        }),
{
    let stages = startup_stages();
    lemma_run_characterized(stages, events);
    let r = ProcedureView::fresh(stages).run(events);
    if r.position >= 1 {
        assert(rejection(stages[0].guard, events[0]) is None);
    }
}

/// Allocation refuses a populated directory: where the probe finds the
/// directory existing and not empty, the procedure ends at once with
/// `Allocation` and `NotEmpty`, and never asks to create anything. Where the
/// probe finds it absent or empty, the procedure goes on. Allocation fails
/// with no other kind of error.
pub proof fn lemma_allocate_refuses_populated(dir: Seq<char>, events: Seq<Event>)
    requires
        events.len() >= 1,
    ensures
        ({
            let stages = allocate_stages(dir);
            let r = ProcedureView::fresh(stages).run(events);
            &&& events[0] == (Event::Probed { present: true, empty: false }) ==> r == (ProcedureView {
                stages,
                position: 0,
                failure: Some(failure_at(stages, 0, Cause::NotEmpty)),
            })
            &&& (events[0] matches Event::Probed { present, empty } && (!present || empty))
                ==> r.position >= 1
            &&& r.failure matches Some(f) ==> f.kind == ErrorKind::Allocation
        }),
{
    let stages = allocate_stages(dir);
    lemma_run_characterized(stages, events);
    if events[0] == (Event::Probed { present: true, empty: false }) {
        lemma_fails_at_first_rejection(stages, events, 0, Cause::NotEmpty);
    }
}

/// Propagation needs a checkpointed base: where the probe of the saved
/// checkpoint image or of the saved pipe registry does not find it, the
/// procedure ends with `Propagation` before it asks for any copy.
pub proof fn lemma_propagate_needs_saved_state(
    base: Seq<char>,
    dir: Seq<char>,
    events: Seq<Event>,
)
    requires
        events.len() >= 2,
        rejection(Guard::Present, events[0]) is Some || rejection(Guard::Present, events[1])
            is Some,
    ensures
        ({
            let r = ProcedureView::fresh(propagate_stages(base, dir)).run(events);
            &&& r.position <= 1
            &&& r.failure matches Some(f) && f.kind == ErrorKind::Propagation
            &&& r.pending() is None
        }),
{
    let stages = propagate_stages(base, dir);
    lemma_run_characterized(stages, events);
    let r = ProcedureView::fresh(stages).run(events);
    if r.position >= 2 {
        assert(rejection(stages[0].guard, events[0]) is None);
        assert(rejection(stages[1].guard, events[1]) is None);
    }
}

/// Promotion never overwrites: where the probe of the saved destination
/// finds something, the procedure ends with `Promotion` before it asks for
/// the copy or the removal. So promoting to one state twice fails the second
/// time.
pub proof fn lemma_promote_never_overwrites(
    dir: Seq<char>,
    state: Seq<char>,
    events: Seq<Event>,
)
    requires
        events.len() >= 2,
        events[1] matches Event::Probed { present, .. } && present,
    ensures
        ({
            let r = ProcedureView::fresh(promote_stages(dir, state)).run(events);
            &&& r.position <= 1
            &&& r.failure matches Some(f) && f.kind == ErrorKind::Promotion
            &&& r.position == 1 ==> r.failure->0.cause == Cause::AlreadyExists
            &&& r.pending() is None
        }),
{
    let stages = promote_stages(dir, state);
    lemma_run_characterized(stages, events);
    let r = ProcedureView::fresh(stages).run(events);
    if r.position >= 2 {
        assert(rejection(stages[1].guard, events[1]) is None);
    }
}

/// Promotion writes the saved area once: of its stages only the copy names a
/// path below the saved area, and that path is the state's saved directory;
/// and the copy is asked for only after the probe found nothing there.
pub proof fn lemma_promote_writes_saved_state_once(
    dir: Seq<char>,
    state: Seq<char>,
    events: Seq<Event>,
)
    ensures
        ({
            let stages = promote_stages(dir, state);
            let r = ProcedureView::fresh(stages).run(events);
            let copying = copy_command(active_dir_of(dir), saved_dir_of(state));
            &&& forall|i: int|
                0 <= i < stages.len() && (#[trigger] target(stages[i].action) matches Some(path)
                    && in_saved_area(path)) ==> i == 2 && stages[i].action == copying && target(
                    copying,
                ) == Some(saved_dir_of(state))
            &&& r.pending() == Some(copying) ==> events.len() == 2 && (events[1] matches Event::Probed {
                present,
                ..
            } && !present)
        }),
{
    let stages = promote_stages(dir, state);
    let copying = copy_command(active_dir_of(dir), saved_dir_of(state));
    lemma_run_characterized(stages, events);
    lemma_areas_are_apart(dir, active_dir_of(dir));
    let r = ProcedureView::fresh(stages).run(events);
    if r.pending() == Some(copying) {
        assert(r.position == 2);
        assert(rejection(stages[1].guard, events[1]) is None);
    }
}

/// Promotion needs the active directory: where the first probe does not find
/// it, the procedure ends with `Promotion` and `NotFound` at once.
pub proof fn lemma_promote_needs_active_directory(
    dir: Seq<char>,
    state: Seq<char>,
    events: Seq<Event>,
)
    requires
        events.len() >= 1,
        events[0] matches Event::Probed { present, .. } && !present,
    ensures
        ({
            let stages = promote_stages(dir, state);
            let r = ProcedureView::fresh(stages).run(events);
            &&& r == (ProcedureView {
                stages,
                position: 0,
                failure: Some(failure_at(stages, 0, Cause::NotFound)),
            })
            &&& r.failure->0.kind == ErrorKind::Promotion
        }),
{
    lemma_fails_at_first_rejection(promote_stages(dir, state), events, 0, Cause::NotFound);
}

} // verus!
