//! Reading the highest nonce tracked for a level of a captcha. The level may
//! not be tracked yet: then tracking starts at nonce zero and the nonce is read
//! again. The queries are made by the caller; this machine decides, from what
//! each query gave, which query comes next and what the result is.
use vstd::prelude::*;

use crate::errors::{spec_row_not_found_err, map_row_not_found_err, DBError, QueryFailure};

verus! {

/// Where the reading of a level's tracked nonce stands.
#[derive(Debug, Clone, Copy, PartialEq, Eq)]
pub enum MaxNonceStage {
    /// Waiting for the first lookup of the nonce.
    FirstLookup,
    /// Waiting for the insert that starts tracking at zero.
    Insert,
    /// Waiting for the lookup after that insert.
    SecondLookup,
    /// The result has been given.
    Done,
}

/// What a query made for the machine gave.
#[derive(Debug, PartialEq, Eq)]
pub enum MaxNonceEvent {
    /// A lookup of the tracked nonce: the nonce, or how the query failed.
    Looked(Result<i32, QueryFailure>),
    /// The insert of a zero nonce: done, or how the query failed.
    Inserted(Result<(), QueryFailure>),
}

/// What the caller does next.
#[derive(Debug, PartialEq, Eq)]
pub enum MaxNonceAction {
    /// Look up the tracked nonce of the level with this difficulty factor.
    Lookup { difficulty_factor: i32 },
    /// Start tracking the level with this difficulty factor at nonce zero.
    InsertZero { difficulty_factor: i32 },
    /// Stop, with this result.
    Finish(Result<u32, DBError>),
}

/// The machine: the difficulty factor that picks the level, as bound in the
/// queries, and the stage it stands at.
#[derive(Debug, Clone, PartialEq, Eq)]
pub struct MaxNonceMachine {
    pub difficulty_factor: i32,
    pub stage: MaxNonceStage,
}

/// Whether `event` is what a machine at `stage` waits for.
pub open spec fn spec_expects(stage: MaxNonceStage, event: MaxNonceEvent) -> bool {
    match stage {
        MaxNonceStage::FirstLookup => event is Looked,
        MaxNonceStage::Insert => event is Inserted,
        MaxNonceStage::SecondLookup => event is Looked,
        MaxNonceStage::Done => false,
    }
}

/// One step: the next stage and the action, from the stage, the difficulty
/// factor and what the last query gave.
pub open spec fn spec_step(stage: MaxNonceStage, difficulty_factor: i32, event: MaxNonceEvent) -> (
    MaxNonceStage,
    MaxNonceAction,
) {
    match event {
        MaxNonceEvent::Looked(Ok(n)) => (MaxNonceStage::Done, MaxNonceAction::Finish(Ok(n as u32))),
        MaxNonceEvent::Looked(Err(f)) => {
            let e = spec_row_not_found_err(f, DBError::CaptchaNotFound);
            if stage == MaxNonceStage::FirstLookup && e == DBError::CaptchaNotFound {
                (MaxNonceStage::Insert, MaxNonceAction::InsertZero { difficulty_factor })
            } else {
                (MaxNonceStage::Done, MaxNonceAction::Finish(Err(e)))
            }
        },
        MaxNonceEvent::Inserted(Ok(())) => (
            MaxNonceStage::SecondLookup,
            MaxNonceAction::Lookup { difficulty_factor },
        ),
        MaxNonceEvent::Inserted(Err(f)) => (
            MaxNonceStage::Done,
            MaxNonceAction::Finish(Err(spec_row_not_found_err(f, DBError::CaptchaNotFound))),
        ),
    }
}

impl MaxNonceMachine {
    /// Whether `event` is what this machine waits for.
    pub open spec fn expects(&self, event: MaxNonceEvent) -> bool {
        spec_expects(self.stage, event)
    }

    /// Starts reading the tracked nonce of the level with `difficulty_factor`:
    /// the first action is a lookup.
    pub fn start(difficulty_factor: u32) -> (r: (MaxNonceMachine, MaxNonceAction))
        ensures
            r.0.stage == MaxNonceStage::FirstLookup,
            r.0.difficulty_factor == difficulty_factor as i32,
            r.1 == (MaxNonceAction::Lookup { difficulty_factor: difficulty_factor as i32 }),
    {
        let df = difficulty_factor as i32;
        (
            MaxNonceMachine { difficulty_factor: df, stage: MaxNonceStage::FirstLookup },
            MaxNonceAction::Lookup { difficulty_factor: df },
        )
    }

    /// Takes what the last query gave and says what comes next.
    pub fn step(&mut self, event: MaxNonceEvent) -> (a: MaxNonceAction)
        requires
            old(self).expects(event),
        ensures
            (final(self).stage, a) == spec_step(old(self).stage, old(self).difficulty_factor, event),
            final(self).difficulty_factor == old(self).difficulty_factor,
            a matches MaxNonceAction::Lookup { difficulty_factor: d } ==> d
                == old(self).difficulty_factor,
            a matches MaxNonceAction::InsertZero { difficulty_factor: d } ==> d
                == old(self).difficulty_factor,
            event == MaxNonceEvent::Inserted(Ok(())) ==> a == (MaxNonceAction::Lookup {
                difficulty_factor: old(self).difficulty_factor,
            }) && final(self).stage == MaxNonceStage::SecondLookup,
            event matches MaxNonceEvent::Looked(Ok(n)) ==> a == MaxNonceAction::Finish(
                Ok(n as u32),
            ),
            (old(self).stage == MaxNonceStage::FirstLookup && event == MaxNonceEvent::Looked(
                Err(QueryFailure::RowNotFound),
            )) ==> a == (MaxNonceAction::InsertZero {
                difficulty_factor: old(self).difficulty_factor,
            }),
            (old(self).stage == MaxNonceStage::SecondLookup && event == MaxNonceEvent::Looked(
                Err(QueryFailure::RowNotFound),
            )) ==> a == MaxNonceAction::Finish(Err(DBError::CaptchaNotFound)),
            event matches MaxNonceEvent::Looked(Err(QueryFailure::Other(e))) ==> if old(self).stage
                == MaxNonceStage::FirstLookup && e == DBError::CaptchaNotFound {
                a == (MaxNonceAction::InsertZero { difficulty_factor: old(self).difficulty_factor })
            } else {
                a == MaxNonceAction::Finish(Err(e))
            },
            event == MaxNonceEvent::Inserted(Err(QueryFailure::RowNotFound)) ==> a
                == MaxNonceAction::Finish(Err(DBError::CaptchaNotFound)),
            event matches MaxNonceEvent::Inserted(Err(QueryFailure::Other(e))) ==> a
                == MaxNonceAction::Finish(Err(e)),
            (a is Finish) <==> final(self).stage == MaxNonceStage::Done,
    {
        let df = self.difficulty_factor;
        match event {
            MaxNonceEvent::Looked(Ok(n)) => {
                self.stage = MaxNonceStage::Done;
                MaxNonceAction::Finish(Ok(n as u32))
            },
            MaxNonceEvent::Looked(Err(f)) => {
                let first = match self.stage {
                    MaxNonceStage::FirstLookup => true,
                    _ => false,
                };
                let e = map_row_not_found_err(f, DBError::CaptchaNotFound);
                let not_found = match e {
                    DBError::CaptchaNotFound => true,
                    _ => false,
                };
                if first && not_found {
                    self.stage = MaxNonceStage::Insert;
                    MaxNonceAction::InsertZero { difficulty_factor: df }
                } else {
                    self.stage = MaxNonceStage::Done;
                    MaxNonceAction::Finish(Err(e))
                }
            },
            MaxNonceEvent::Inserted(Ok(())) => {
                self.stage = MaxNonceStage::SecondLookup;
                MaxNonceAction::Lookup { difficulty_factor: df }
            },
            MaxNonceEvent::Inserted(Err(f)) => {
                self.stage = MaxNonceStage::Done;
                MaxNonceAction::Finish(Err(map_row_not_found_err(f, DBError::CaptchaNotFound)))
            },
        }
    }
}

/// How many steps a machine at `stage` has taken at least.
pub open spec fn spec_rank(stage: MaxNonceStage) -> nat {
    match stage {
        MaxNonceStage::FirstLookup => 0,
        MaxNonceStage::Insert => 1,
        MaxNonceStage::SecondLookup => 2,
        MaxNonceStage::Done => 3,
    }
}

/// The actions that a machine at `stage` answers a run of events with, or
/// none where an event comes that it does not wait for.
pub open spec fn spec_run(stage: MaxNonceStage, difficulty_factor: i32, events: Seq<MaxNonceEvent>) -> Option<
    Seq<MaxNonceAction>,
>
    decreases events.len(),
{
    if events.len() == 0 {
        Some(Seq::empty())
    } else if !spec_expects(stage, events[0]) {
        None
    } else {
        let (next, a) = spec_step(stage, difficulty_factor, events[0]);
        match spec_run(next, difficulty_factor, events.drop_first()) {
            Some(rest) => Some(seq![a] + rest),
            None => None,
        }
    }
}

/// Every step moves the machine forward, and it gives a result exactly when it
/// reaches `Done`.
pub proof fn lemma_max_nonce_step_progresses(
    stage: MaxNonceStage,
    difficulty_factor: i32,
    event: MaxNonceEvent,
)
    requires
        spec_expects(stage, event),
    ensures
        spec_rank(spec_step(stage, difficulty_factor, event).0) > spec_rank(stage),
        (spec_step(stage, difficulty_factor, event).0 == MaxNonceStage::Done) <==> (spec_step(
            stage,
            difficulty_factor,
            event,
        ).1 is Finish),
{
}

proof fn lemma_run_bounded(stage: MaxNonceStage, difficulty_factor: i32, events: Seq<MaxNonceEvent>)
    requires
        spec_run(stage, difficulty_factor, events) is Some,
    ensures
        events.len() + spec_rank(stage) <= 3,
        ({
            let acts = spec_run(stage, difficulty_factor, events).unwrap();
            &&& acts.len() == events.len()
            &&& forall|i: int|
                0 <= i < acts.len() && (acts[i] is InsertZero) ==> i == 0 && stage
                    == MaxNonceStage::FirstLookup
            &&& forall|i: int| 0 <= i < acts.len() - 1 ==> !(acts[i] is Finish)
            &&& forall|i: int|
                0 <= i < acts.len() ==> ((#[trigger] acts[i]) matches MaxNonceAction::Lookup {
                    difficulty_factor: d,
                } ==> d == difficulty_factor)
            &&& forall|i: int|
                0 <= i < acts.len() ==> ((#[trigger] acts[i]) matches MaxNonceAction::InsertZero {
                    difficulty_factor: d,
                } ==> d == difficulty_factor)
        }),
    decreases events.len(),
{
    if events.len() > 0 {
        let (next, a) = spec_step(stage, difficulty_factor, events[0]);
        lemma_max_nonce_step_progresses(stage, difficulty_factor, events[0]);
        lemma_run_bounded(next, difficulty_factor, events.drop_first());
        let rest = spec_run(next, difficulty_factor, events.drop_first()).unwrap();
        let acts = spec_run(stage, difficulty_factor, events).unwrap();
        assert(acts == seq![a] + rest);
        assert forall|i: int| 0 <= i < acts.len() && (acts[i] is InsertZero) implies i == 0 && stage
            == MaxNonceStage::FirstLookup by {
            if i > 0 {
                assert(acts[i] == rest[i - 1]);
            } else {
                assert(acts[0] == a);
            }
        }
        assert forall|i: int| 0 <= i < acts.len() implies ((#[trigger] acts[i]) matches MaxNonceAction::Lookup {
            difficulty_factor: d,
        } ==> d == difficulty_factor) && (acts[i] matches MaxNonceAction::InsertZero {
            difficulty_factor: d,
        } ==> d == difficulty_factor) by {
            if i > 0 {
                assert(acts[i] == rest[i - 1]);
            } else {
                assert(acts[0] == a);
            }
        }
        assert forall|i: int| 0 <= i < acts.len() - 1 implies !(acts[i] is Finish) by {
            if i > 0 {
                assert(acts[i] == rest[i - 1]);
            } else {
                assert(acts[0] == a);
                assert(next != MaxNonceStage::Done);
            }
        }
    }
}

/// A run of the machine from its start answers at most three events, starts
/// tracking the level at most once (and only as its first answer, after the
/// level was not found), gives its result only as its last answer, and every
/// lookup and insert it asks for is of the level it was started for.
pub proof fn lemma_max_nonce_run(difficulty_factor: i32, events: Seq<MaxNonceEvent>)
    requires
        spec_run(MaxNonceStage::FirstLookup, difficulty_factor, events) is Some,
    ensures
        events.len() <= 3,
        ({
            let acts = spec_run(MaxNonceStage::FirstLookup, difficulty_factor, events).unwrap();
            &&& acts.len() == events.len()
            &&& forall|i: int| 0 <= i < acts.len() && (acts[i] is InsertZero) ==> i == 0
            &&& forall|i: int| 0 <= i < acts.len() - 1 ==> !(acts[i] is Finish)
            &&& forall|i: int|
                0 <= i < acts.len() ==> ((#[trigger] acts[i]) matches MaxNonceAction::Lookup {
                    difficulty_factor: d,
                } ==> d == difficulty_factor)
            &&& forall|i: int|
                0 <= i < acts.len() ==> ((#[trigger] acts[i]) matches MaxNonceAction::InsertZero {
                    difficulty_factor: d,
                } ==> d == difficulty_factor)
        }),
{
    lemma_run_bounded(MaxNonceStage::FirstLookup, difficulty_factor, events);
}

/// A lookup that finds the tracked nonce ends the run with that nonce; a first
/// lookup that finds the level untracked leads to the insert of nonce zero.
pub proof fn lemma_max_nonce_lookup_outcomes(
    stage: MaxNonceStage,
    difficulty_factor: i32,
    found: Result<i32, QueryFailure>,
)
    requires
        stage == MaxNonceStage::FirstLookup || stage == MaxNonceStage::SecondLookup,
    ensures
        found matches Ok(n) ==> spec_step(stage, difficulty_factor, MaxNonceEvent::Looked(found))
            == (MaxNonceStage::Done, MaxNonceAction::Finish(Ok(n as u32))),
        (stage == MaxNonceStage::FirstLookup && found == Err::<i32, QueryFailure>(
            QueryFailure::RowNotFound,
        )) ==> spec_step(stage, difficulty_factor, MaxNonceEvent::Looked(found)).1 == (
        MaxNonceAction::InsertZero { difficulty_factor }),
        stage == MaxNonceStage::SecondLookup ==> spec_step(
            stage,
            difficulty_factor,
            MaxNonceEvent::Looked(found),
        ).0 == MaxNonceStage::Done,
{
}

/// A level that was not tracked is read again after its zero nonce was
/// inserted, at the difficulty factor the machine was started with; a lookup
/// that then finds nonce `n` ends the run with `n`.
pub proof fn lemma_untracked_level_is_read_again(difficulty_factor: i32, n: i32)
    ensures
        spec_step(MaxNonceStage::FirstLookup, difficulty_factor, MaxNonceEvent::Looked(
            Err(QueryFailure::RowNotFound),
        )) == (MaxNonceStage::Insert, MaxNonceAction::InsertZero { difficulty_factor }),
        spec_step(MaxNonceStage::Insert, difficulty_factor, MaxNonceEvent::Inserted(Ok(())))
            == (MaxNonceStage::SecondLookup, MaxNonceAction::Lookup { difficulty_factor }),
        spec_step(MaxNonceStage::SecondLookup, difficulty_factor, MaxNonceEvent::Looked(Ok(n)))
            == (MaxNonceStage::Done, MaxNonceAction::Finish(Ok(n as u32))),
{
}

} // verus!
