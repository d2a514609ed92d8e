//! Keeping the launch-on-login registration in step with the settings: what
//! to do to the registration, given what is wanted and what is there.

use vstd::prelude::*;

verus! {

/// What to do to the launch-on-login registration.
#[derive(Clone, Copy, Debug, PartialEq, Eq, Structural)]
pub enum AutostartAction {
    /// Register the agent for launch on login.
    Enable,
    /// Remove the registration.
    Disable,
    /// Leave the registration as it is.
    Nothing,
}

/// The action that brings the registration from `actual` to `desired`.
pub open spec fn transition(desired: bool, actual: bool) -> AutostartAction {
    if desired == actual {
        AutostartAction::Nothing
    } else if desired {
        AutostartAction::Enable
    } else {
        AutostartAction::Disable
    }
}

/// The registration after `action` was carried out on `actual`.
pub open spec fn applied(action: AutostartAction, actual: bool) -> bool {
    match action {
        AutostartAction::Enable => true,
        AutostartAction::Disable => false,
        AutostartAction::Nothing => actual,
    }
}

/// The action that brings the registration from `actual` to `desired`: enable
/// where it is wanted and missing, disable where it is there and unwanted,
/// nothing where the two agree.
pub fn reconcile(desired: bool, actual: bool) -> (action: AutostartAction)
    ensures
        action == transition(desired, actual),
        applied(action, actual) == desired,
{
    match (actual, desired) {
        (false, true) => AutostartAction::Enable,
        (true, false) => AutostartAction::Disable,
        _ => AutostartAction::Nothing,
    }
}

/// The action to take when the foreground process starts. `desired` is the
/// stored autostart flag, `live` what the login launcher reports; either is
/// `None` where it could not be had, and then counts as `false`.
pub fn startup_reconcile(desired: Option<bool>, live: Option<bool>) -> (action: AutostartAction)
    ensures
        action == transition(desired.unwrap_or(false), live.unwrap_or(false)),
{
    let want: bool = match desired {
        Some(d) => d,
        None => false,
    };
    let have: bool = match live {
        Some(l) => l,
        None => false,
    };
    reconcile(want, have)
}

/// Reconciling is idempotent: once the action has been carried out the
/// registration is the desired one, a second reconciliation asks for nothing,
/// and carrying that out changes nothing.
pub proof fn lemma_reconcile_idempotent(desired: bool, actual: bool)
    ensures
        applied(transition(desired, actual), actual) == desired,
        transition(desired, applied(transition(desired, actual), actual))
            == AutostartAction::Nothing,
        applied(
            transition(desired, applied(transition(desired, actual), actual)),
            applied(transition(desired, actual), actual),
        ) == applied(transition(desired, actual), actual),
{
}

/// The registration is touched only where it differs from what is wanted.
pub proof fn lemma_reconcile_minimal(desired: bool, actual: bool)
    ensures
        transition(desired, actual) == AutostartAction::Nothing <==> desired == actual,
        transition(desired, actual) == AutostartAction::Enable <==> (desired && !actual),
        transition(desired, actual) == AutostartAction::Disable <==> (!desired && actual),
{
}

} // verus!
