//! Fail-soft dispatch against optionally-present guest exports.
//!
//! A guest module may or may not be compiled yet, may or may not export a
//! given hook, and may trap while running.  None of these is an error that
//! stops the host: every call site resolves each outcome to a documented
//! conservative default.  The functions here are those per-call-site rules;
//! the host loop performs the actual invocation and hands the outcome in.

use vstd::prelude::*;
use crate::marshal::Bool;
use crate::marshal::spec_decode_id;

verus! {

/// Reference to a loaded, compiled guest module, resolved lazily by the host.
#[derive(Clone, Copy, Debug, PartialEq, Eq, Structural)]
pub struct ScriptHandle {
    pub id: u64,
}

impl ScriptHandle {
    pub fn new(id: u64) -> (r: ScriptHandle)
        ensures
            r.id == id,
    {
        ScriptHandle { id }
    }
}

/// Every way an invocation of a guest export can end.
pub enum CallOutcome<T> {
    /// The module is not yet compiled or instantiated; callers skip the
    /// entity this tick.
    NotReady,
    /// The module is instantiated but does not export the requested name;
    /// callers apply their documented default.
    MissingExport,
    /// The guest faulted during the call; the call is treated as a
    /// single-tick failure.
    Trapped,
    /// The export ran to completion and returned this value.
    Returned(T),
}

/// Cooldown charged to a unit whose module does not export `battle_action`:
/// the unit idles, re-asked only after this many milliseconds.
pub const IDLE_ACTION_COOLDOWN_MILLIS: i64 = 100;

/// Whether a `can_produce` or `can_receive` answer counts as acceptance:
/// only a completed call that returned the byte `1` does; a missing export
/// or any failure defaults to "reject".
pub fn hook_accepts(outcome: &CallOutcome<Bool>) -> (r: bool)
    ensures
        r <==> (outcome matches CallOutcome::Returned(b) && b.0 == 1),
{
    match outcome {
        CallOutcome::Returned(b) => b.0 == 1,
        _ => false,
    }
}

/// What a `produce` answer yields: the returned pattern decoded under the
/// reserved-pattern rule; a missing export or any failure yields no entity.
pub fn produced_entity(outcome: &CallOutcome<u64>) -> (r: Option<u64>)
    ensures
        r == match *outcome {
            CallOutcome::Returned(bits) => spec_decode_id(bits),
            _ => None::<u64>,
        },
{
    match outcome {
        CallOutcome::Returned(bits) => crate::marshal::decode_id(*bits),
        _ => None,
    }
}

/// Whether a zero-health unit actually dies: only when its module completed
/// an `on_death` call returning the byte `1`.  A module without the hook
/// defaults to not dying.
pub fn resolved_death(outcome: &CallOutcome<Bool>) -> (r: bool)
    ensures
        r <==> (outcome matches CallOutcome::Returned(b) && b.0 == 1),
{
    match outcome {
        CallOutcome::Returned(b) => b.0 == 1,
        _ => false,
    }
}

/// The cooldown to charge after asking a unit for its next action.  A
/// returned positive cooldown is charged as given; a module without the hook
/// idles on the default cooldown; a not-ready module or a trap charges
/// nothing, so the unit is asked again next tick.
pub fn resolved_action_cooldown(outcome: &CallOutcome<i64>) -> (r: Option<i64>)
    ensures
        r == match *outcome {
            CallOutcome::Returned(c) => if c > 0 {
                Some(c)
            } else {
                None::<i64>
            },
            CallOutcome::MissingExport => Some(IDLE_ACTION_COOLDOWN_MILLIS),
            _ => None::<i64>,
        },
{
    match outcome {
        CallOutcome::Returned(c) => if *c > 0 {
            Some(*c)
        } else {
            None
        },
        CallOutcome::MissingExport => Some(IDLE_ACTION_COOLDOWN_MILLIS),
        _ => None,
    }
}

} // verus!
