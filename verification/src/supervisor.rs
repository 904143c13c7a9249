//! The connectivity supervisor's self-heal decisions.
//!
//! After bring-up the device keeps one background loop alive: sleep for a
//! fixed poll interval, check the link, and if it dropped, try one
//! reconnect-and-wait cycle. Every failure is swallowed and retried on the
//! next poll; nothing here ever ends the loop. The radio itself is a
//! capability edge: the loop outside performs each returned action and
//! feeds the observed outcome back in as the next event.

use vstd::prelude::*;

verus! {

/// Where the supervisor stands between two actions.
#[derive(Clone, Copy, Debug, PartialEq, Eq, Structural)]
pub enum SupervisorPhase {
    /// Waiting out the poll interval.
    Sleeping,
    /// A link-status check is pending.
    Checking,
    /// A reconnect attempt is pending.
    Reconnecting,
    /// Waiting for the interface to report an address.
    AwaitingAddress,
}

/// What the loop outside observed while performing the pending action.
#[derive(Clone, Copy, Debug, PartialEq, Eq, Structural)]
pub enum SupervisorEvent {
    /// The poll interval elapsed.
    PollElapsed,
    /// The link-status check found the link up.
    LinkOk,
    /// The link-status check found the link down, or failed itself.
    LinkLost,
    /// The reconnect attempt was accepted.
    ConnectOk,
    /// The reconnect attempt failed.
    ConnectFailed,
    /// The interface reported an address.
    AddressOk,
    /// Waiting for an address failed.
    AddressFailed,
}

/// What the loop outside must do next.
#[derive(Clone, Copy, Debug, PartialEq, Eq, Structural)]
pub enum SupervisorAction {
    /// Sleep for the poll interval.
    Sleep,
    /// Check whether the link is still up.
    CheckLink,
    /// Attempt to reconnect.
    Reconnect,
    /// Wait for the interface to report an address.
    AwaitAddress,
}

/// The events a phase's own pending action can produce; the loop outside
/// only ever hands back the outcome of the action it just performed.
pub open spec fn phase_accepts(p: SupervisorPhase, e: SupervisorEvent) -> bool {
    match p {
        SupervisorPhase::Sleeping => e is PollElapsed,
        SupervisorPhase::Checking => e is LinkOk || e is LinkLost,
        SupervisorPhase::Reconnecting => e is ConnectOk || e is ConnectFailed,
        SupervisorPhase::AwaitingAddress => e is AddressOk || e is AddressFailed,
    }
}

/// The supervisor's transition table: next phase and next action for each
/// phase and observed outcome.
pub open spec fn spec_step(p: SupervisorPhase, e: SupervisorEvent) -> (
    SupervisorPhase,
    SupervisorAction,
) {
    match p {
        SupervisorPhase::Sleeping => (SupervisorPhase::Checking, SupervisorAction::CheckLink),
        SupervisorPhase::Checking => if e is LinkOk {
            (SupervisorPhase::Sleeping, SupervisorAction::Sleep)
        } else {
            (SupervisorPhase::Reconnecting, SupervisorAction::Reconnect)
        },
        SupervisorPhase::Reconnecting => if e is ConnectOk {
            (SupervisorPhase::AwaitingAddress, SupervisorAction::AwaitAddress)
        } else {
            (SupervisorPhase::Sleeping, SupervisorAction::Sleep)
        },
        SupervisorPhase::AwaitingAddress => (SupervisorPhase::Sleeping, SupervisorAction::Sleep),
    }
}

/// Take one supervisor step: from the current phase and the outcome of its
/// pending action, decide the next phase and the next action.
pub fn supervisor_step(p: SupervisorPhase, e: SupervisorEvent) -> (r: (
    SupervisorPhase,
    SupervisorAction,
))
    requires
        phase_accepts(p, e),
    ensures
        r == spec_step(p, e),
{
    match p {
        SupervisorPhase::Sleeping => (SupervisorPhase::Checking, SupervisorAction::CheckLink),
        SupervisorPhase::Checking => match e {
            SupervisorEvent::LinkOk => (SupervisorPhase::Sleeping, SupervisorAction::Sleep),
            _ => (SupervisorPhase::Reconnecting, SupervisorAction::Reconnect),
        },
        SupervisorPhase::Reconnecting => match e {
            SupervisorEvent::ConnectOk => (
                SupervisorPhase::AwaitingAddress,
                SupervisorAction::AwaitAddress,
            ),
            _ => (SupervisorPhase::Sleeping, SupervisorAction::Sleep),
        },
        SupervisorPhase::AwaitingAddress => (SupervisorPhase::Sleeping, SupervisorAction::Sleep),
    }
}

/// A reconnect is attempted only when a link check just found the link
/// down: no phase re-issues a reconnect on its own.
pub proof fn lemma_reconnect_only_after_down_poll(p: SupervisorPhase, e: SupervisorEvent)
    requires
        phase_accepts(p, e),
        spec_step(p, e).1 is Reconnect,
    ensures
        p is Checking,
        e is LinkLost,
{
}

/// A link check is pending only right after a poll tick, so each poll that
/// finds the link down yields exactly one reconnect-and-wait cycle.
pub proof fn lemma_check_only_after_poll(p: SupervisorPhase, e: SupervisorEvent)
    requires
        phase_accepts(p, e),
        spec_step(p, e).0 is Checking,
    ensures
        p is Sleeping,
        e is PollElapsed,
{
}

/// Failures never end the loop: a failed reconnect or a failed wait for an
/// address puts the supervisor back to sleep, from where the next poll
/// retries.
pub proof fn lemma_failure_sleeps_and_retries(p: SupervisorPhase, e: SupervisorEvent)
    requires
        phase_accepts(p, e),
        e is ConnectFailed || e is AddressFailed,
    ensures
        spec_step(p, e).0 is Sleeping,
        spec_step(p, e).1 is Sleep,
        spec_step(spec_step(p, e).0, SupervisorEvent::PollElapsed).1 is CheckLink,
{
}

} // verus!
