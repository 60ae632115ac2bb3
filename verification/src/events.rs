//! The input alphabet of the daemon.

use crate::states::{TargetState, TunnelEvent};
use vstd::prelude::*;
use vstd::std_specs::convert::FromSpecImpl;

verus! {

/// A command from a management client.
#[derive(Clone, Copy, Debug, PartialEq, Eq, Structural)]
pub enum TunnelCommand {
    /// Change what the client wants.
    SetTargetState(TargetState),
    /// Ask for the security state that was broadcast last.
    GetState,
}

/// Everything the daemon can receive. The result of an exit is `Ok` for a
/// clean one, else the text of the failure.
#[derive(Debug, PartialEq, Eq)]
pub enum DaemonEvent {
    /// The tunnel monitor reports a lifecycle change.
    TunnelEvent(TunnelEvent),
    /// The tunnel process is gone.
    TunnelExit(Result<(), String>),
    /// A management client sent a command.
    ManagementInterfaceEvent(TunnelCommand),
    /// The management interface stopped.
    ManagementInterfaceExit(Result<(), String>),
}

impl From<TunnelEvent> for DaemonEvent {
    fn from(tunnel_event: TunnelEvent) -> (event: DaemonEvent) {
        DaemonEvent::TunnelEvent(tunnel_event)
    }
}

impl FromSpecImpl<TunnelEvent> for DaemonEvent {
    open spec fn obeys_from_spec() -> bool {
        true
    }

    open spec fn from_spec(tunnel_event: TunnelEvent) -> DaemonEvent {
        DaemonEvent::TunnelEvent(tunnel_event)
    }
}

impl From<TunnelCommand> for DaemonEvent {
    fn from(tunnel_command: TunnelCommand) -> (event: DaemonEvent) {
        DaemonEvent::ManagementInterfaceEvent(tunnel_command)
    }
}

impl FromSpecImpl<TunnelCommand> for DaemonEvent {
    open spec fn obeys_from_spec() -> bool {
        true
    }

    open spec fn from_spec(tunnel_command: TunnelCommand) -> DaemonEvent {
        DaemonEvent::ManagementInterfaceEvent(tunnel_command)
    }
}

} // verus!
