//! Motor trigger decoding and the four-phase step sequence.
//!
//! The motor task dequeues boolean triggers; each `true` runs exactly one
//! fixed-length cycle of `FULL_ROTATION_STEPS` steps. Each step energizes
//! the four coils one after another, exactly one at a time (the GPIO writes
//! and the inter-phase delay are the external collaborator's work).

use vstd::prelude::*;

verus! {

/// Steps in one full rotation of the reference hardware; the only count the
/// firmware ever runs.
pub const FULL_ROTATION_STEPS: u16 = 512;

/// The coil levels driven during one phase of a step: exactly one of the
/// four lines is high.
#[derive(Clone, Copy, PartialEq, Eq, Structural, Debug)]
pub struct PhasePattern {
    pub coil1: bool,
    pub coil2: bool,
    pub coil3: bool,
    pub coil4: bool,
}

/// The pattern driven at phase index `k`: the coils are energized in a
/// rotating one-hot sequence.
pub open spec fn spec_phase_pattern(k: int) -> PhasePattern {
    if k % 4 == 0 {
        PhasePattern { coil1: true, coil2: false, coil3: false, coil4: false }
    } else if k % 4 == 1 {
        PhasePattern { coil1: false, coil2: true, coil3: false, coil4: false }
    } else if k % 4 == 2 {
        PhasePattern { coil1: false, coil2: false, coil3: true, coil4: false }
    } else {
        PhasePattern { coil1: false, coil2: false, coil3: false, coil4: true }
    }
}

/// Exactly one coil is high in a pattern.
pub open spec fn spec_one_hot(p: PhasePattern) -> bool {
    (if p.coil1 { 1int } else { 0 }) + (if p.coil2 { 1int } else { 0 })
        + (if p.coil3 { 1int } else { 0 }) + (if p.coil4 { 1int } else { 0 }) == 1
}

/// Every phase of the sequence energizes exactly one coil.
pub proof fn lemma_phase_one_hot(k: int)
    ensures
        spec_one_hot(spec_phase_pattern(k)),
{
}

/// The pattern driven at phase index `k`.
pub fn phase_pattern(k: usize) -> (p: PhasePattern)
    ensures
        p == spec_phase_pattern(k as int),
{
    let r = k % 4;
    if r == 0 {
        PhasePattern { coil1: true, coil2: false, coil3: false, coil4: false }
    } else if r == 1 {
        PhasePattern { coil1: false, coil2: true, coil3: false, coil4: false }
    } else if r == 2 {
        PhasePattern { coil1: false, coil2: false, coil3: true, coil4: false }
    } else {
        PhasePattern { coil1: false, coil2: false, coil3: false, coil4: true }
    }
}

/// The full list of coil patterns one `steps(count)` run drives, in order:
/// four phases per step, rotating one-hot from the first coil.
pub fn step_sequence(count: u16) -> (phases: Vec<PhasePattern>)
    ensures
        phases@.len() == 4 * count,
        forall|j: int| 0 <= j < phases@.len() ==> phases@[j] == spec_phase_pattern(j),
{
    let total: usize = 4 * (count as usize);
    let mut phases: Vec<PhasePattern> = Vec::new();
    let mut j: usize = 0;
    while j < total
        invariant
            j <= total,
            total == 4 * count,
            phases@.len() == j,
            forall|k: int| 0 <= k < j ==> phases@[k] == spec_phase_pattern(k),
        decreases total - j,
    {
        let p = phase_pattern(j);
        phases.push(p);
        j = j + 1;
    }
    phases
}

/// One iteration of the motor actuator task: a `true` trigger runs exactly
/// one full rotation; a `false` trigger runs nothing.
pub fn motor_task_step(trigger: bool) -> (r: Option<u16>)
    ensures
        trigger ==> r == Some(FULL_ROTATION_STEPS),
        !trigger ==> r is None,
{
    if trigger {
        Some(FULL_ROTATION_STEPS)
    } else {
        None
    }
}

/// The step-sequence invocations a backlog of dequeued triggers leads to:
/// each `true` contributes exactly one run of the fixed count, each `false`
/// none.
pub open spec fn spec_motor_drive_calls(triggers: Seq<bool>) -> Seq<u16>
    decreases triggers.len(),
{
    if triggers.len() == 0 {
        Seq::empty()
    } else {
        let rest = spec_motor_drive_calls(triggers.drop_last());
        if triggers.last() {
            rest.push(FULL_ROTATION_STEPS)
        } else {
            rest
        }
    }
}

/// Trigger law: a backlog of `n` triggers — all `true`, the only value the
/// session loop ever sends — runs exactly `n` cycles, each of the fixed
/// count.
pub proof fn lemma_triggers_run_fixed_cycles(n: nat)
    ensures
        spec_motor_drive_calls(Seq::new(n, |i: int| true)) =~= Seq::new(
            n,
            (|i: int| FULL_ROTATION_STEPS),
        ),
    decreases n,
{
    if n > 0 {
        let triggers = Seq::new(n, |i: int| true);
        assert(triggers.drop_last() =~= Seq::new((n - 1) as nat, |i: int| true));
        lemma_triggers_run_fixed_cycles((n - 1) as nat);
    }
}

/// Run the motor task over a backlog of triggers, returning the exact step
/// counts driven, in order.
pub fn motor_drive_calls(triggers: &Vec<bool>) -> (calls: Vec<u16>)
    ensures
        calls@ == spec_motor_drive_calls(triggers@),
{
    let mut calls: Vec<u16> = Vec::new();
    let mut i: usize = 0;
    while i < triggers.len()
        invariant
            i <= triggers.len(),
            calls@ == spec_motor_drive_calls(triggers@.take(i as int)),
        decreases triggers.len() - i,
    {
        match motor_task_step(triggers[i]) {
            Some(count) => calls.push(count),
            None => (),
        }
        proof {
            assert(triggers@.take(i + 1 as int).drop_last() =~= triggers@.take(i as int));
        }
        i = i + 1;
    }
    proof {
        assert(triggers@.take(triggers@.len() as int) =~= triggers@);
    }
    calls
}

} // verus!
