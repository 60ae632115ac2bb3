//! The three state vocabularies of the daemon: what the tunnel is doing, what
//! the client asked for, and what is shown to the outside.

use vstd::prelude::*;

verus! {

/// The security posture a client asked for.
#[derive(Clone, Copy, Debug, PartialEq, Eq, Structural)]
pub enum TargetState {
    /// All traffic should go through the tunnel.
    Secured,
    /// No tunnel is wanted.
    Unsecured,
}

/// The coarse state shown to management clients. It is the only state that
/// is ever broadcast.
#[derive(Clone, Copy, Debug, PartialEq, Eq, Structural)]
pub enum SecurityState {
    /// Traffic flows through an established tunnel.
    Secured,
    /// No tunnel is established.
    Unsecured,
}

/// A lifecycle notification from the tunnel monitor.
#[derive(Clone, Copy, Debug, PartialEq, Eq, Structural)]
pub enum TunnelEvent {
    /// The tunnel came up and passes traffic.
    Up,
    /// The tunnel went down.
    Down,
}

/// Represents the internal state of the actual tunnel.
#[derive(Clone, Copy, Debug, PartialEq, Eq, Structural)]
pub enum TunnelState {
    /// No tunnel is running.
    NotRunning,
    /// The tunnel has been started, but it is not established/functional.
    Down,
    /// The tunnel is up and working.
    Up,
}

/// The security state that a tunnel state stands for: secured exactly when
/// the tunnel is up.
pub open spec fn security_of(state: TunnelState) -> SecurityState {
    if state == TunnelState::Up {
        SecurityState::Secured
    } else {
        SecurityState::Unsecured
    }
}

/// The tunnel state that a lifecycle notification reports.
pub open spec fn state_reported_by(event: TunnelEvent) -> TunnelState {
    match event {
        TunnelEvent::Up => TunnelState::Up,
        TunnelEvent::Down => TunnelState::Down,
    }
}

impl TunnelState {
    /// The externally visible summary of this tunnel state.
    pub fn as_security_state(&self) -> (security: SecurityState)
        ensures
            security == security_of(*self),
            (security == SecurityState::Secured) <==> (*self == TunnelState::Up),
    {
        match *self {
            TunnelState::Up => SecurityState::Secured,
            _ => SecurityState::Unsecured,
        }
    }

    /// True when a tunnel attempt is under way in this state.
    pub open spec fn is_running(self) -> bool {
        self != TunnelState::NotRunning
    }
}

impl TunnelEvent {
    /// The tunnel state that this notification reports.
    pub fn reported_state(&self) -> (state: TunnelState)
        ensures
            state == state_reported_by(*self),
    {
        match *self {
            TunnelEvent::Up => TunnelState::Up,
            TunnelEvent::Down => TunnelState::Down,
        }
    }
}

/// Clients cannot tell a tunnel that is not running from one that is down:
/// both are shown as unsecured.
pub proof fn lemma_not_running_and_down_look_alike()
    ensures
        security_of(TunnelState::NotRunning) == security_of(TunnelState::Down),
        security_of(TunnelState::NotRunning) == SecurityState::Unsecured,
        security_of(TunnelState::Up) == SecurityState::Secured,
{
}

} // verus!
