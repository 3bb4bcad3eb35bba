//! Procedures: fixed lists of stages, carried out one after the other.
//!
//! Every operation of the store is a procedure. A stage names an action, says
//! which answers let the procedure go on, and says which kind of error the
//! procedure ends with otherwise. The driver asks for the pending action,
//! performs it and reports the event; the procedure then either moves to the
//! next stage or fails, for good. No stage is asked for before every stage in
//! front of it was answered acceptably, and nothing is asked for after a
//! failure.

use vstd::prelude::*;
use crate::action::{Action, ActionView, Cause, Event};

verus! {

/// What a stage needs of the answer to its action.
#[derive(Clone, Copy, Debug, PartialEq, Eq)]
pub enum Guard {
    /// The probed path holds nothing: it is absent, or an empty directory.
    Vacant,
    /// The probed path exists.
    Present,
    /// The probed path does not exist.
    Absent,
    /// The action was carried out in full.
    Success,
    /// Any answer will do.
    Ignored,
}

/// The kinds of error a procedure can end with.
#[derive(Clone, Copy, Debug, PartialEq, Eq)]
pub enum ErrorKind {
    /// Privilege is missing, or a top-level directory cannot be created.
    Startup,
    /// The active directory to allocate is already populated, or cannot be
    /// created.
    Allocation,
    /// The base state has no saved snapshot or pipe registry, or copying them
    /// did not complete.
    Propagation,
    /// The active directory is missing, the saved destination is occupied, or
    /// the move did not complete.
    Promotion,
    /// A copy did not complete.
    Copy,
    /// A move did not complete: its copy, or the removal of its source.
    Move,
    /// A removal did not complete.
    Removal,
    /// The restore procedure could not be generated.
    RestoreGeneration,
}

/// Why `guard` turns `event` down, or `None` where it lets the event pass.
///
/// A failed action is turned down with the cause it reported, a probe with
/// the cause that names what was found, and an answer of the wrong shape with
/// `Unexpected`.
pub open spec fn rejection(guard: Guard, event: Event) -> Option<Cause> {
    match guard {
        Guard::Ignored => None,
        Guard::Success => match event {
            Event::Completed => None,
            Event::Failed(cause) => Some(cause),
            Event::Probed { .. } => Some(Cause::Unexpected),
        },
        Guard::Vacant => match event {
            Event::Probed { present, empty } => if present && !empty {
                Some(Cause::NotEmpty)
            } else {
                None
            },
            Event::Failed(cause) => Some(cause),
            Event::Completed => Some(Cause::Unexpected),
        },
        Guard::Present => match event {
            Event::Probed { present, .. } => if present {
                None
            } else {
                Some(Cause::NotFound)
            },
            Event::Failed(cause) => Some(cause),
            Event::Completed => Some(Cause::Unexpected),
        },
        Guard::Absent => match event {
            Event::Probed { present, .. } => if present {
                Some(Cause::AlreadyExists)
            } else {
                None
            },
            Event::Failed(cause) => Some(cause),
            Event::Completed => Some(Cause::Unexpected),
        },
    }
}

/// Holds `event` against `guard`.
pub fn check(guard: Guard, event: Event) -> (verdict: Option<Cause>)
    ensures
        verdict == rejection(guard, event),
{
    match guard {
        Guard::Ignored => None,
        Guard::Success => match event {
            Event::Completed => None,
            Event::Failed(cause) => Some(cause),
            Event::Probed { .. } => Some(Cause::Unexpected),
        },
        Guard::Vacant => match event {
            Event::Probed { present, empty } => if present && !empty {
                Some(Cause::NotEmpty)
            } else {
                None
            },
            Event::Failed(cause) => Some(cause),
            Event::Completed => Some(Cause::Unexpected),
        },
        Guard::Present => match event {
            Event::Probed { present, .. } => if present {
                None
            } else {
                Some(Cause::NotFound)
            },
            Event::Failed(cause) => Some(cause),
            Event::Completed => Some(Cause::Unexpected),
        },
        Guard::Absent => match event {
            Event::Probed { present, .. } => if present {
                Some(Cause::AlreadyExists)
            } else {
                None
            },
            Event::Failed(cause) => Some(cause),
            Event::Completed => Some(Cause::Unexpected),
        },
    }
}

/// One stage of a procedure.
#[derive(Debug, PartialEq, Eq)]
pub struct Stage {
    /// What to do.
    pub action: Action,
    /// Which answers let the procedure go on.
    pub guard: Guard,
    /// The kind of error the procedure ends with otherwise.
    pub kind: ErrorKind,
}

/// A [`Stage`] as a mathematical value.
pub struct StageView {
    pub action: ActionView,
    pub guard: Guard,
    pub kind: ErrorKind,
}

impl View for Stage {
    type V = StageView;

    open spec fn view(&self) -> StageView {
        StageView { action: self.action@, guard: self.guard, kind: self.kind }
    }
}

/// The stages of a list as mathematical values.
pub open spec fn stage_views(stages: Seq<Stage>) -> Seq<StageView> {
    Seq::new(stages.len(), |i: int| stages[i]@)
}

/// How a procedure failed: the kind of error, the stage that failed with the
/// action it asked for (which holds the paths involved), and the cause.
#[derive(Debug, PartialEq, Eq)]
pub struct Failure {
    pub kind: ErrorKind,
    pub stage: usize,
    pub action: Action,
    pub cause: Cause,
}

/// A [`Failure`] as a mathematical value.
pub struct FailureView {
    pub kind: ErrorKind,
    pub stage: nat,
    pub action: ActionView,
    pub cause: Cause,
}

impl View for Failure {
    type V = FailureView;

    open spec fn view(&self) -> FailureView {
        FailureView {
            kind: self.kind,
            stage: self.stage as nat,
            action: self.action@,
            cause: self.cause,
        }
    }
}

/// The failure of stage `at` of `stages` for `cause`.
pub open spec fn failure_at(stages: Seq<StageView>, at: nat, cause: Cause) -> FailureView {
    FailureView {
        kind: stages[at as int].kind,
        stage: at,
        action: stages[at as int].action,
        cause,
    }
}

/// A procedure as a mathematical value: its stages, how many of them were
/// answered acceptably, and the failure it ended with, if any.
pub struct ProcedureView {
    pub stages: Seq<StageView>,
    pub position: nat,
    pub failure: Option<FailureView>,
}

impl ProcedureView {
    /// The procedure over `stages` before anything was done.
    pub open spec fn fresh(stages: Seq<StageView>) -> ProcedureView {
        ProcedureView { stages, position: 0, failure: None }
    }

    /// What holds of every procedure: the position lies within the stages,
    /// and a failure is the failure of the stage at the position.
    pub open spec fn wf(self) -> bool {
        &&& self.position <= self.stages.len()
        &&& self.failure matches Some(f) ==> self.position < self.stages.len() && f == failure_at(
            self.stages,
            self.position,
            f.cause,
        )
    }

    /// The action to perform next, where there is one.
    pub open spec fn pending(self) -> Option<ActionView> {
        if self.failure is None && self.position < self.stages.len() {
            Some(self.stages[self.position as int].action)
        } else {
            None
        }
    }

    /// Whether every stage was answered acceptably.
    pub open spec fn completed(self) -> bool {
        self.failure is None && self.position >= self.stages.len()
    }

    /// The procedure after `event` answered the pending action. A procedure
    /// that has completed or failed stays as it is.
    pub open spec fn advance(self, event: Event) -> ProcedureView {
        if self.failure is Some || self.position >= self.stages.len() {
            self
        } else {
            match rejection(self.stages[self.position as int].guard, event) {
                None => ProcedureView { position: self.position + 1, ..self },
                Some(cause) => ProcedureView {
                    failure: Some(failure_at(self.stages, self.position, cause)),
                    ..self
                },
            }
        }
    }

    /// The procedure after `events` answered its actions, one after the other.
    pub open spec fn run(self, events: Seq<Event>) -> ProcedureView
        decreases events.len(),
    {
        if events.len() == 0 {
            self
        } else {
            self.run(events.drop_last()).advance(events.last())
        }
    }
}

/// Whether the first `n` events are each accepted by the stage of the same
/// index.
pub open spec fn accepted_through(stages: Seq<StageView>, events: Seq<Event>, n: nat) -> bool {
    forall|i: int| 0 <= i < n ==> rejection(#[trigger] stages[i].guard, events[i]) is None
}

/// A procedure in progress.
pub struct Procedure {
    stages: Vec<Stage>,
    position: usize,
    failure: Option<Failure>,
}

impl View for Procedure {
    type V = ProcedureView;

    closed spec fn view(&self) -> ProcedureView {
        ProcedureView {
            stages: stage_views(self.stages@),
            position: self.position as nat,
            failure: match self.failure {
                Some(f) => Some(f@),
                None => None,
            },
        }
    }
}

impl Procedure {
    #[verifier::type_invariant]
    spec fn inv(self) -> bool {
        self@.wf()
    }

    /// The procedure that carries out `stages` in order.
    pub fn new(stages: Vec<Stage>) -> (procedure: Procedure)
        ensures
            procedure@ == ProcedureView::fresh(stage_views(stages@)),
    {
        Procedure { stages, position: 0, failure: None }
    }

    /// The number of stages.
    pub fn len(&self) -> (n: usize)
        ensures
            n == self@.stages.len(),
    {
        self.stages.len()
    }

    /// The stage at `index`, where there is one.
    pub fn stage(&self, index: usize) -> (stage: Option<&Stage>)
        ensures
            index < self@.stages.len() ==> stage is Some && stage->0@ == self@.stages[index as int],
            index >= self@.stages.len() ==> stage is None,
    {
        if index < self.stages.len() {
            Some(&self.stages[index])
        } else {
            None
        }
    }

    /// How many stages were answered acceptably.
    pub fn position(&self) -> (n: usize)
        ensures
            n == self@.position,
    {
        self.position
    }

    /// The action to perform next, or `None` once the procedure has
    /// completed or failed.
    pub fn pending(&self) -> (action: Option<&Action>)
        ensures
            self@.wf(),
            match action {
                Some(a) => self@.pending() == Some(a@),
                None => self@.pending() is None,
            },
    {
        proof {
            use_type_invariant(self);
        }
        if self.failure.is_none() && self.position < self.stages.len() {
            Some(&self.stages[self.position].action)
        } else {
            None
        }
    }

    /// Whether every stage was answered acceptably.
    pub fn is_completed(&self) -> (done: bool)
        ensures
            done == self@.completed(),
    {
        self.failure.is_none() && self.position >= self.stages.len()
    }

    /// The failure the procedure ended with, if it failed.
    pub fn failure(&self) -> (failure: Option<&Failure>)
        ensures
            match failure {
                Some(f) => self@.failure == Some(f@),
                None => self@.failure is None,
            },
    {
        self.failure.as_ref()
    }

    /// Reports the answer to the pending action. The procedure moves to its
    /// next stage where the stage accepts the answer, and fails otherwise. On
    /// a procedure that has completed or failed this does nothing.
    pub fn advance(&mut self, event: Event)
        ensures
            final(self)@ == old(self)@.advance(event),
            final(self)@.wf(),
    {
        proof {
            use_type_invariant(&*self);
        }
        if self.failure.is_none() && self.position < self.stages.len() {
            let verdict = check(self.stages[self.position].guard, event);
            match verdict {
                None => {
                    self.position = self.position + 1;
                },
                Some(cause) => {
                    let failure = Failure {
                        kind: self.stages[self.position].kind,
                        stage: self.position,
                        action: self.stages[self.position].action.clone(),
                        cause,
                    };
                    self.failure = Some(failure);
                },
            }
        }
    }

    /// Ends the procedure: `Ok` where it has completed, the failure where it
    /// has failed, and `None` while an action is pending.
    pub fn outcome(self) -> (outcome: Option<Result<(), Failure>>)
        ensures
            self@.pending() is Some <==> outcome is None,
            self@.completed() <==> outcome == Some(Ok::<(), Failure>(())),
            self@.failure matches Some(f) ==> outcome matches Some(Err(e)) && e@ == f,
    {
        proof {
            use_type_invariant(&self);
        }
        match self.failure {
            Some(failure) => Some(Err(failure)),
            None => if self.position >= self.stages.len() {
                Some(Ok(()))
            } else {
                None
            },
        }
    }
}

/// What a run comes to. With `r` the procedure after `events`: `r` has the
/// stages it started with and is well formed; without a failure, `r` stands
/// behind the last answered stage, and every answer was accepted; with a
/// failure, `r` stands at the first stage whose answer was turned down, and
/// failed with the cause that stage's guard gave.
pub proof fn lemma_run_characterized(stages: Seq<StageView>, events: Seq<Event>)
    ensures
        ({
            let r = ProcedureView::fresh(stages).run(events);
            &&& r.stages == stages
            &&& r.wf()
            &&& r.position <= stages.len()
            &&& r.position <= events.len()
            &&& accepted_through(stages, events, r.position)
            &&& r.failure is None ==> r.position == events.len() || r.position == stages.len()
            &&& r.failure matches Some(f) ==> {
                &&& r.position < events.len()
                &&& r.position < stages.len()
                &&& rejection(stages[r.position as int].guard, events[r.position as int]) == Some(
                    f.cause,
                )
                &&& f == failure_at(stages, r.position, f.cause)
            }
        }),
    decreases events.len(),
{
    if events.len() > 0 {
        let before = events.drop_last();
        lemma_run_characterized(stages, before);
        let p = ProcedureView::fresh(stages).run(before);
        assert(ProcedureView::fresh(stages).run(events) == p.advance(events.last()));
        assert forall|i: int| 0 <= i < p.position implies events[i] == before[i] by {}
        if p.failure is None && p.position < stages.len() {
            // The event that answers the pending stage is the last one.
            assert(p.position == before.len());
            assert(events[p.position as int] == events.last());
        }
    }
}

/// A procedure completes exactly when every stage got an answer that it
/// accepts.
pub proof fn lemma_completes_iff_all_accepted(stages: Seq<StageView>, events: Seq<Event>)
    ensures
        ProcedureView::fresh(stages).run(events).completed() <==> events.len() >= stages.len()
            && accepted_through(stages, events, stages.len()),
{
    lemma_run_characterized(stages, events);
}

/// A procedure fails at the first stage whose answer is turned down, with
/// that stage's kind of error, its action and the cause given; what is
/// reported afterwards changes nothing.
pub proof fn lemma_fails_at_first_rejection(
    stages: Seq<StageView>,
    events: Seq<Event>,
    at: nat,
    cause: Cause,
)
    requires
        at < stages.len(),
        at < events.len(),
        accepted_through(stages, events, at),
        rejection(stages[at as int].guard, events[at as int]) == Some(cause),
    ensures
        ProcedureView::fresh(stages).run(events) == (ProcedureView {
            stages,
            position: at,
            failure: Some(failure_at(stages, at, cause)),
        }),
{
    lemma_run_characterized(stages, events);
}

/// An action is asked for only after every stage in front of it was answered
/// acceptably, and it is the action of the stage that follows them.
pub proof fn lemma_pending_follows_acceptance(stages: Seq<StageView>, events: Seq<Event>)
    ensures
        ProcedureView::fresh(stages).run(events).pending() matches Some(action) ==> {
            &&& events.len() < stages.len()
            &&& action == stages[events.len() as int].action
            &&& accepted_through(stages, events, events.len())
        },
{
    lemma_run_characterized(stages, events);
}

} // verus!
