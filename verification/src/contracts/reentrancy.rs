//! A reentrancy guard around an external call.
use vstd::prelude::*;

verus! {

/// A contract whose guarded call locks out re-entry during its external
/// call.
pub struct StaticReentrancyGood;

/// One storage write or call of a guarded call, in order.
#[derive(PartialEq, Eq, Structural, Clone, Copy, Debug)]
pub enum GuardedStep {
    /// Write the reentrancy lock flag.
    SetLock(bool),
    /// Call the external contract.
    InvokeCallback,
    /// Write the contract state.
    WriteState,
}

/// The steps of a guarded call when the lock was found unset.
pub open spec fn guarded_steps() -> Seq<GuardedStep> {
    seq![
        GuardedStep::SetLock(true),
        GuardedStep::InvokeCallback,
        GuardedStep::WriteState,
        GuardedStep::SetLock(false),
    ]
}

/// The plan of a guarded call given the stored lock flag (absent counts as
/// unset): refused (`None`, the call panics) when the lock is set; otherwise
/// lock, call, write state, unlock.
pub open spec fn guarded_plan(stored_lock: Option<bool>) -> Option<Seq<GuardedStep>> {
    if stored_lock == Some(true) {
        None
    } else {
        Some(guarded_steps())
    }
}

/// The lock flag after the first `n` steps, starting from `lock`.
pub open spec fn lock_after(steps: Seq<GuardedStep>, n: nat, lock: bool) -> bool
    decreases n,
{
    if n == 0 || n > steps.len() {
        lock
    } else {
        match steps[n - 1] {
            GuardedStep::SetLock(b) => b,
            _ => lock_after(steps, (n - 1) as nat, lock),
        }
    }
}

impl StaticReentrancyGood {
    /// What a guarded call does, given the lock flag read from instance
    /// storage.
    pub fn guarded_call_plan(stored_lock: Option<bool>) -> (r: Option<Vec<GuardedStep>>)
        ensures
            match r {
                Some(v) => guarded_plan(stored_lock) == Some(v@),
                None => guarded_plan(stored_lock) is None,
            },
    {
        let locked = match stored_lock {
            Some(b) => b,
            None => false,
        };
        if locked {
            return None;
        }
        let mut steps = Vec::new();
        steps.push(GuardedStep::SetLock(true));
        steps.push(GuardedStep::InvokeCallback);
        steps.push(GuardedStep::WriteState);
        steps.push(GuardedStep::SetLock(false));
        assert(steps@ =~= guarded_steps());
        Some(steps)
    }
}

/// A guarded call that proceeds holds the lock while it calls out, so a
/// call that re-enters it then is refused; the external call comes after
/// the lock is taken and the state write before it is released; and once
/// it is done the lock is free again.
pub proof fn guarded_call_excludes_reentry(stored_lock: Option<bool>)
    requires
        stored_lock != Some(true),
    ensures
        guarded_plan(stored_lock) == Some(guarded_steps()),
        guarded_steps()[1] == GuardedStep::InvokeCallback,
        lock_after(guarded_steps(), 1, false),
        guarded_plan(Some(lock_after(guarded_steps(), 1, false))) is None,
        guarded_steps()[2] == GuardedStep::WriteState,
        lock_after(guarded_steps(), 2, false),
        !lock_after(guarded_steps(), 4, true),
        guarded_plan(Some(lock_after(guarded_steps(), 4, false))) is Some,
{
    reveal_with_fuel(lock_after, 3);
}

} // verus!
