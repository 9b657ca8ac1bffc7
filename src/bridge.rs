use vstd::prelude::*;

verus! {

/// What the environment answered when asked whether an exception is pending.
#[derive(Clone, Copy, Debug, PartialEq, Eq, Structural)]
pub enum PendingCheck {
    /// No exception is pending.
    Clear,
    /// An exception is already pending.
    Pending,
    /// The question itself failed.
    Unknown,
}

/// What a hosted wrapper does about a marshaling failure.
#[derive(Clone, Copy, Debug, PartialEq, Eq, Structural)]
pub enum BridgeAction {
    /// Throw a runtime exception that carries the failure's description.
    Throw,
    /// Throw nothing: an exception may already be pending and must not be masked.
    Suppress,
}

pub open spec fn bridge_spec(check: PendingCheck) -> BridgeAction {
    if check == PendingCheck::Clear {
        BridgeAction::Throw
    } else {
        BridgeAction::Suppress
    }
}

/// Decides whether a marshaling failure becomes a hosted exception: only when
/// the environment says for certain that none is pending. Either way the
/// wrapper then returns a placeholder that the caller must not read.
pub fn on_marshal_failure(check: PendingCheck) -> (r: BridgeAction)
    ensures
        r == bridge_spec(check),
        r == BridgeAction::Throw <==> check == PendingCheck::Clear,
{
    match check {
        PendingCheck::Clear => BridgeAction::Throw,
        _ => BridgeAction::Suppress,
    }
}

/// The answer to the next pending check after `action` was taken.
pub open spec fn check_after(check: PendingCheck, action: BridgeAction) -> PendingCheck {
    if action == BridgeAction::Throw {
        PendingCheck::Pending
    } else {
        check
    }
}

/// How many exceptions `n` marshaling failures in a row throw, starting from
/// `check`.
pub open spec fn throws_in_run(check: PendingCheck, n: nat) -> nat
    decreases n,
{
    if n == 0 {
        0
    } else {
        let action = bridge_spec(check);
        (if action == BridgeAction::Throw {
            1nat
        } else {
            0nat
        }) + throws_in_run(check_after(check, action), (n - 1) as nat)
    }
}

/// Once an exception is pending, no number of further marshaling failures
/// throws another; from a clear state, a run of failures throws exactly once.
pub proof fn lemma_pending_exception_kept(check: PendingCheck, n: nat)
    ensures
        check == PendingCheck::Pending ==> throws_in_run(check, n) == 0,
        check == PendingCheck::Clear && n > 0 ==> throws_in_run(check, n) == 1,
    decreases n,
{
    if n > 0 {
        lemma_pending_exception_kept(PendingCheck::Pending, (n - 1) as nat);
        if check == PendingCheck::Pending {
            lemma_pending_exception_kept(check, (n - 1) as nat);
        }
    }
}

} // verus!
