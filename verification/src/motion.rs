//! The poll loop's decision rule and its failure policy.
//!
//! Every iteration reads the player's kinematic state and rewrites the
//! velocity according to one of two rules, picked solely by the on-ground
//! flag. Double-precision components travel through this module as their
//! IEEE-754 bit patterns; the caller that owns the foreign environment
//! turns them back into numbers when it applies the rule.

use vstd::prelude::*;
use crate::errors::BridgeError;

verus! {

/// One kinematic sample: the bit patterns of the three double-precision
/// components of a managed vector.
#[derive(Clone, Copy, Debug, PartialEq, Eq, Structural)]
pub struct KinematicSample {
    pub x: u64,
    pub y: u64,
    pub z: u64,
}

/// Which of the two write-back rules an iteration applies.
///
/// `Grounded` doubles both horizontal components and replaces the vertical
/// one with the fixed jump impulse; `Airborne` raises both horizontal
/// components by a tenth and keeps the vertical one unchanged.
#[derive(Clone, Copy, Debug, PartialEq, Eq, Structural)]
pub enum MotionRule {
    Grounded,
    Airborne,
}

/// The rule owed for a given on-ground flag.
pub open spec fn spec_motion_rule(on_ground: bool) -> MotionRule {
    if on_ground {
        MotionRule::Grounded
    } else {
        MotionRule::Airborne
    }
}

/// Picks the write-back rule for one iteration. The choice depends on the
/// on-ground flag alone; it is re-evaluated from scratch every iteration.
pub fn decide_motion(on_ground: bool) -> (r: MotionRule)
    ensures
        r == spec_motion_rule(on_ground),
{
    if on_ground {
        MotionRule::Grounded
    } else {
        MotionRule::Airborne
    }
}

/// What the poll loop does after an iteration ends.
#[derive(Clone, Copy, Debug, PartialEq, Eq, Structural)]
pub enum LoopAction {
    /// Sleep for the configured interval and run the next iteration.
    Continue,
    /// Stop the loop for good.
    Halt,
}

/// Whether an iteration error ends the loop: only the mapping table's
/// load failure does.
pub open spec fn spec_is_fatal(e: BridgeError) -> bool {
    e == BridgeError::MappingLoad
}

/// Decides whether the loop survives a failed iteration. Every failure is
/// iteration-local except the mapping table's load failure, which is
/// terminal.
pub fn after_failure(e: &BridgeError) -> (r: LoopAction)
    ensures
        r == LoopAction::Halt <==> spec_is_fatal(*e),
{
    match e {
        BridgeError::MappingLoad => LoopAction::Halt,
        _ => LoopAction::Continue,
    }
}

/// What the managed side does to one poll iteration.
#[derive(Clone, Copy, Debug, PartialEq, Eq, Structural)]
pub enum IterationEvent {
    /// All managed calls succeed and report this on-ground flag.
    Healthy { on_ground: bool },
    /// Some step of the iteration fails with this error.
    Faulted { error: BridgeError },
}

/// The loop's record of one iteration.
#[derive(Clone, Copy, Debug, PartialEq, Eq, Structural)]
pub enum IterationOutcome {
    /// The iteration ran and wrote back a velocity under this rule.
    Applied { rule: MotionRule },
    /// The iteration failed, was logged, and the loop moved on (or, for a
    /// fatal error, stopped).
    Skipped { error: BridgeError },
    /// The loop had already stopped before this iteration.
    NotReached,
}

/// Whether some iteration before `i` failed fatally.
pub open spec fn spec_fatal_before(events: Seq<IterationEvent>, i: int) -> bool {
    exists|j: int|
        0 <= j < i && ((#[trigger] events[j]) matches IterationEvent::Faulted { error }
            && spec_is_fatal(error))
}

/// The outcome owed for iteration `i` of an event script.
pub open spec fn spec_outcome(events: Seq<IterationEvent>, i: int) -> IterationOutcome {
    if spec_fatal_before(events, i) {
        IterationOutcome::NotReached
    } else {
        match events[i] {
            IterationEvent::Healthy { on_ground } => IterationOutcome::Applied {
                rule: spec_motion_rule(on_ground),
            },
            IterationEvent::Faulted { error } => IterationOutcome::Skipped { error },
        }
    }
}

/// Runs the loop's control policy over a finite script of iteration
/// events and records what happens to each iteration. A failure in one
/// iteration never touches the outcome of a later one; only the fatal
/// mapping-load failure stops the loop.
pub fn drive(events: &Vec<IterationEvent>) -> (log: Vec<IterationOutcome>)
    ensures
        log@.len() == events@.len(),
        forall|i: int| 0 <= i < events@.len() ==> log@[i] == spec_outcome(events@, i),
{
    let mut log: Vec<IterationOutcome> = Vec::new();
    let mut halted = false;
    let mut i: usize = 0;
    while i < events.len()
        invariant
            0 <= i <= events@.len(),
            log@.len() == i,
            halted == spec_fatal_before(events@, i as int),
            forall|k: int| 0 <= k < i ==> log@[k] == spec_outcome(events@, k),
        decreases events@.len() - i,
    {
        if halted {
            log.push(IterationOutcome::NotReached);
        } else {
            match events[i] {
                IterationEvent::Healthy { on_ground } => {
                    let rule = decide_motion(on_ground);
                    log.push(IterationOutcome::Applied { rule });
                },
                IterationEvent::Faulted { error } => {
                    log.push(IterationOutcome::Skipped { error });
                    match after_failure(&error) {
                        LoopAction::Halt => {
                            halted = true;
                        },
                        LoopAction::Continue => {},
                    }
                },
            }
        }
        assert(spec_fatal_before(events@, i as int) ==> spec_fatal_before(
            events@,
            i + 1,
        ));
        i = i + 1;
    }
    log
}

/// Failure isolation: a non-fatal failure at iteration `n` leaves the
/// outcome of a healthy iteration `n + 1` exactly what it would owe on
/// its own — the loop neither exits nor skips it.
pub proof fn lemma_failure_isolation(
    events: Seq<IterationEvent>,
    n: int,
    error: BridgeError,
    on_ground: bool,
)
    requires
        0 <= n,
        n + 1 < events.len(),
        !spec_fatal_before(events, n + 1),
        events[n] == (IterationEvent::Faulted { error }),
        !spec_is_fatal(error),
        events[n + 1] == (IterationEvent::Healthy { on_ground }),
    ensures
        spec_outcome(events, n + 1) == (IterationOutcome::Applied {
            rule: spec_motion_rule(on_ground),
        }),
        spec_outcome(events, n) == (IterationOutcome::Skipped { error }),
{
    assert(!spec_fatal_before(events, n)) by {
        assert forall|j: int|
            0 <= j < n && (#[trigger] events[j]) matches IterationEvent::Faulted {
                error,
            } implies !spec_is_fatal(error) by {
            assert(!spec_fatal_before(events, n + 1));
        }
    }
}

} // verus!
