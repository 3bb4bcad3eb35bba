//! The transition engine: deriving a new fuzzing state from a saved one.
//!
//! A transition computes the successor coordinate, allocates the new state's
//! active directory, propagates the base state's snapshot into it, and asks
//! for a restore procedure for the new directory. The restore procedure is
//! asked for once, after the propagation has completed, and the new state is
//! ready only after it was generated.

use vstd::prelude::*;
use crate::action::{Action, ActionView, Event};
use crate::layout::{
    active_dir_of, active_pipes_of, holds_directory, in_active_area, in_saved_area,
    lemma_areas_are_apart, lemma_directories_do_not_overlap, saved_dir_of,
};
use crate::coordinate::{advances, next_state_path, rounds, successor};
use crate::fileops::{push_stage, target};
use crate::naming::{
    is_plain, lemma_state_name_injective, lemma_state_name_is_plain, prefix_view, state_name,
    state_name_of,
};
use crate::procedure::{
    accepted_through, lemma_run_characterized, rejection, stage_views, ErrorKind, Guard,
    Procedure, ProcedureView, Stage, StageView,
};
use crate::store::{allocate_stages, propagate_stages, push_allocate, push_propagate};

verus! {

/// A fuzzing run: the saved state it starts from, the active directory it
/// works in, and whose round it advances.
#[derive(Debug, PartialEq, Eq)]
pub struct FuzzRun {
    /// The name of the base state in the saved area.
    pub base_state: String,
    /// The name of the run's directory in the active area.
    pub active_dir: String,
    /// Whether the round being advanced is the server's.
    pub cur_is_server: bool,
}

/// A derived state: its coordinate, and the run that materializes it.
#[derive(Debug, PartialEq, Eq)]
pub struct Transition {
    pub state: (u32, u32),
    pub run: FuzzRun,
}

/// The command that generates the restore procedure:
/// `python3 create_restore.py <base_state> <active_dir>`.
pub open spec fn restore_command(base_state: Seq<char>, active_dir: Seq<char>) -> ActionView {
    ActionView::Run {
        program: "python3"@,
        args: seq!["create_restore.py"@, base_state, active_dir],
    }
}

/// The stages of `create_restore_sh`: the generator, which has to succeed.
pub open spec fn restore_stages(base_state: Seq<char>, active_dir: Seq<char>) -> Seq<StageView> {
    seq![
        StageView {
            action: restore_command(base_state, active_dir),
            guard: Guard::Success,
            kind: ErrorKind::RestoreGeneration,
        },
    ]
}

/// The stages of `materialize`: allocation, propagation, restore generation.
pub open spec fn materialize_stages(base_state: Seq<char>, active_dir: Seq<char>) -> Seq<
    StageView,
> {
    allocate_stages(active_dir) + propagate_stages(base_state, active_dir) + restore_stages(
        base_state,
        active_dir,
    )
}

/// Whether `action` removes nothing and writes, if anywhere the library can
/// tell, below the active area only.
pub open spec fn spares_saved_area(action: ActionView) -> bool {
    &&& !(action is RemoveTree)
    &&& target(action) matches Some(path) ==> in_active_area(path) && !in_saved_area(path)
}

/// Appends the stage of `create_restore_sh`.
pub(crate) fn push_restore(stages: &mut Vec<Stage>, base_state: &str, active_dir: &str)
    ensures
        stage_views(final(stages)@) == stage_views(old(stages)@) + restore_stages(
            base_state@,
            active_dir@,
        ),
{
    let mut args: Vec<String> = Vec::new();
    args.push(String::from_str("create_restore.py"));
    args.push(String::from_str(base_state));
    args.push(String::from_str(active_dir));
    assert(args.deep_view() =~= seq!["create_restore.py"@, base_state@, active_dir@]);
    push_stage(
        stages,
        Action::Run { program: String::from_str("python3"), args },
        Guard::Success,
        ErrorKind::RestoreGeneration,
    );
    assert(stage_views(stages@) =~= stage_views(old(stages)@) + restore_stages(
        base_state@,
        active_dir@,
    ));
}

/// Derives the state that follows `base` and names the run that materializes
/// it: the base state and the new active directory both carry the name of
/// their coordinate, behind `prefix` where one is given.
///
/// The round to advance must be below `u32::MAX`.
pub fn derive_state(prefix: Option<&str>, base: (u32, u32), cur_is_server: bool) -> (transition:
    Transition)
    requires
        advances(base, cur_is_server),
    ensures
        rounds(transition.state) == successor(rounds(base), cur_is_server),
        transition.run.base_state@ == state_name_of(prefix_view(prefix), rounds(base)),
        transition.run.active_dir@ == state_name_of(
            prefix_view(prefix),
            successor(rounds(base), cur_is_server),
        ),
        transition.run.cur_is_server == cur_is_server,
{
    let state = next_state_path(base, cur_is_server);
    Transition {
        state,
        run: FuzzRun {
            base_state: state_name(prefix, base),
            active_dir: state_name(prefix, state),
            cur_is_server,
        },
    }
}

/// The procedure that has the restore procedure of `afl`'s active directory
/// generated: it runs the generator on the base state and the active
/// directory. It fails with `RestoreGeneration`.
pub fn create_restore_sh(afl: &FuzzRun) -> (procedure: Procedure)
    ensures
        procedure@ == ProcedureView::fresh(restore_stages(afl.base_state@, afl.active_dir@)),
{
    let mut stages: Vec<Stage> = Vec::new();
    push_restore(&mut stages, afl.base_state.as_str(), afl.active_dir.as_str());
    assert(stage_views(stages@) =~= restore_stages(afl.base_state@, afl.active_dir@));
    Procedure::new(stages)
}

/// The procedure that materializes the state of `run`: the stages of
/// `allocate` for its active directory, then those of `propagate` from its
/// base state, then that of `create_restore_sh`. It fails with `Allocation`,
/// `Propagation` or `RestoreGeneration`, as the stage that failed has it.
pub fn materialize(run: &FuzzRun) -> (procedure: Procedure)
    ensures
        procedure@ == ProcedureView::fresh(materialize_stages(run.base_state@, run.active_dir@)),
{
    let mut stages: Vec<Stage> = Vec::new();
    push_allocate(&mut stages, run.active_dir.as_str());
    push_propagate(&mut stages, run.base_state.as_str(), run.active_dir.as_str());
    push_restore(&mut stages, run.base_state.as_str(), run.active_dir.as_str());
    assert(stage_views(stages@) =~= materialize_stages(run.base_state@, run.active_dir@));
    Procedure::new(stages)
}

/// Different states keep apart on disk: under one prefix that holds no
/// separator, or under none, the directories of two different coordinates do
/// not overlap in either area. So work on one state never touches the files
/// of another.
pub proof fn lemma_states_keep_apart(prefix: Option<Seq<char>>, a: (nat, nat), b: (nat, nat))
    requires
        a != b,
        prefix matches Some(p) ==> is_plain(p),
    ensures
        !holds_directory(
            saved_dir_of(state_name_of(prefix, a)),
            saved_dir_of(state_name_of(prefix, b)),
        ),
        !active_dir_of(state_name_of(prefix, a)).is_prefix_of(
            active_dir_of(state_name_of(prefix, b)),
        ),
{
    lemma_state_name_is_plain(prefix, a);
    lemma_state_name_is_plain(prefix, b);
    if state_name_of(prefix, a) == state_name_of(prefix, b) {
        lemma_state_name_injective(prefix, a, b);
    }
    lemma_directories_do_not_overlap(state_name_of(prefix, a), state_name_of(prefix, b));
}

/// The restore procedure is asked for only once allocation and propagation
/// have completed: at that point six answers have come in, all accepted, the
/// two copies among them. It is the last stage, so it is asked for at most
/// once, and a materialization completes only after it was generated.
pub proof fn lemma_restore_follows_propagation(
    base_state: Seq<char>,
    active_dir: Seq<char>,
    events: Seq<Event>,
)
    ensures
        ({
            let stages = materialize_stages(base_state, active_dir);
            let r = ProcedureView::fresh(stages).run(events);
            &&& stages.len() == 7
            &&& r.pending() == Some(restore_command(base_state, active_dir)) <==> r.failure is None
                && r.position == 6
            &&& r.pending() == Some(restore_command(base_state, active_dir)) ==> {
                &&& events.len() == 6
                &&& accepted_through(stages, events, 6)
                &&& events[4] == Event::Completed
                &&& events[5] == Event::Completed
            }
            &&& r.completed() ==> events.len() >= 7 && events[6] == Event::Completed
        }),
{
    let stages = materialize_stages(base_state, active_dir);
    lemma_run_characterized(stages, events);
    let r = ProcedureView::fresh(stages).run(events);
    if r.position >= 6 {
        assert(rejection(stages[4].guard, events[4]) is None);
        assert(rejection(stages[5].guard, events[5]) is None);
    }
    if r.position >= 7 {
        assert(rejection(stages[6].guard, events[6]) is None);
    }
}

/// A materialization leaves the saved area as it is: every path that its
/// stages create or write lies below the active area, and none is removed.
pub proof fn lemma_materialize_spares_saved_area(base_state: Seq<char>, active_dir: Seq<char>)
    ensures
        forall|i: int|
            0 <= i < materialize_stages(base_state, active_dir).len() ==> spares_saved_area(
                #[trigger] materialize_stages(base_state, active_dir)[i].action,
            ),
{
    // The generator is neither the copy nor the remove command.
    reveal_strlit("python3");
    reveal_strlit("cp");
    reveal_strlit("rm");
    assert("python3"@.len() != "cp"@.len());
    assert("python3"@.len() != "rm"@.len());
    lemma_areas_are_apart(active_dir, active_dir_of(active_dir));
    lemma_areas_are_apart(active_dir, active_pipes_of(active_dir));
}

/// A base state that was never checkpointed stops a materialization with
/// `Propagation`, before anything is copied and before a restore procedure
/// is asked for.
pub proof fn lemma_materialize_needs_saved_state(
    base_state: Seq<char>,
    active_dir: Seq<char>,
    events: Seq<Event>,
)
    requires
        events.len() >= 4,
        rejection(Guard::Vacant, events[0]) is None,
        events[1] == Event::Completed,
        rejection(Guard::Present, events[2]) is Some || rejection(Guard::Present, events[3])
            is Some,
    ensures
        ({
            let r = ProcedureView::fresh(materialize_stages(base_state, active_dir)).run(events);
            &&& 2 <= r.position <= 3
            &&& r.failure matches Some(f) && f.kind == ErrorKind::Propagation
            &&& r.pending() is None
        }),
{
    let stages = materialize_stages(base_state, active_dir);
    lemma_run_characterized(stages, events);
    let r = ProcedureView::fresh(stages).run(events);
    if r.position >= 4 {
        assert(rejection(stages[2].guard, events[2]) is None);
        assert(rejection(stages[3].guard, events[3]) is None);
    }
}

} // verus!
