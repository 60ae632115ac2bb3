//! The daemon as a mathematical state machine: its state as a plain record
//! and, for every input, the state that follows and the work that is due.

use crate::errors::{
    ErrorView, SERVER_EXITED_UNEXPECTEDLY, UNABLE_TO_KILL_TUNNEL, UNABLE_TO_START_TUNNEL,
};
use crate::events::{DaemonEvent, TunnelCommand};
use crate::remotes::SelectorView;
use crate::states::{security_of, state_reported_by, SecurityState, TargetState, TunnelState};
use vstd::prelude::*;

verus! {

/// Work on the tunnel that the daemon asks its caller to carry out, with
/// the endpoint as address and port.
pub enum TunnelRequestView<H> {
    /// Start a tunnel attempt against this endpoint.
    Start((Seq<char>, u16)),
    /// Close the tunnel behind this handle and wait until it is gone.
    Close(H),
}

/// Everything that is due after one input was applied.
pub struct ReactionView<H> {
    /// The security state to push to every subscriber, if it changed.
    pub notify: Option<SecurityState>,
    /// The answer to a query for the current state.
    pub reply: Option<SecurityState>,
    /// Work on the tunnel to carry out before the next input.
    pub request: Option<TunnelRequestView<H>>,
}

impl<H> ReactionView<H> {
    /// Nothing is due.
    pub open spec fn nothing() -> ReactionView<H> {
        ReactionView { notify: None, reply: None, request: None }
    }

    /// True when this reaction asks for a tunnel to be started.
    pub open spec fn starts_tunnel(self) -> bool {
        self.request matches Some(TunnelRequestView::Start(_))
    }
}

/// The state of the daemon as plain values.
pub struct DaemonView<H> {
    /// What the tunnel is observed to do.
    pub state: TunnelState,
    /// The security state that subscribers were told last.
    pub last_broadcasted_state: SecurityState,
    /// What the client asked for.
    pub target_state: TargetState,
    /// The handle of the outstanding tunnel attempt, if there is one.
    pub tunnel_close_handle: Option<H>,
    /// The endpoints and the cursor over them.
    pub remotes: SelectorView,
}

/// The text underneath a failed outside operation, if it failed.
pub open spec fn failure_of(result: Result<(), String>) -> Option<Seq<char>> {
    match result {
        Ok(_) => None,
        Err(cause) => Some(cause@),
    }
}

impl<H> DaemonView<H> {
    /// The daemon at startup: nothing runs, nothing is wanted, and
    /// subscribers have been told nothing but "unsecured".
    pub open spec fn initial(remotes: SelectorView) -> DaemonView<H> {
        DaemonView {
            state: TunnelState::NotRunning,
            last_broadcasted_state: SecurityState::Unsecured,
            target_state: TargetState::Unsecured,
            tunnel_close_handle: None,
            remotes,
        }
    }

    /// What holds of every daemon between two inputs: subscribers know the
    /// security state of the observed tunnel state, a close handle is held
    /// only while a tunnel runs, and the selector is well formed.
    pub open spec fn consistent(self) -> bool {
        &&& self.last_broadcasted_state == security_of(self.state)
        &&& self.tunnel_close_handle is Some ==> self.state.is_running()
        &&& self.remotes.wf()
    }

    /// A close handle is held exactly while a tunnel runs.
    pub open spec fn handle_matches_state(self) -> bool {
        self.tunnel_close_handle is Some <==> self.state.is_running()
    }

    /// The daemon after it took note of tunnel state `new_state`.
    pub open spec fn observing(self, new_state: TunnelState) -> DaemonView<H> {
        DaemonView { state: new_state, last_broadcasted_state: security_of(new_state), ..self }
    }

    /// The broadcast that is due when the tunnel state becomes
    /// `new_state`: its security state, unless subscribers know it already.
    pub open spec fn broadcast_on(self, new_state: TunnelState) -> Option<SecurityState> {
        if security_of(new_state) != self.last_broadcasted_state {
            Some(security_of(new_state))
        } else {
            None
        }
    }

    /// The daemon after the selector handed out one endpoint.
    pub open spec fn picking(self) -> DaemonView<H> {
        DaemonView { remotes: self.remotes.advance(), ..self }
    }

    /// The request to start a tunnel against the endpoint under the cursor.
    pub open spec fn start_request(self) -> TunnelRequestView<H> {
        TunnelRequestView::Start(self.remotes.current())
    }

    /// The endpoint for a new tunnel attempt. There is none while a tunnel
    /// runs: to ask for one then is an invalid-state error.
    pub open spec fn pick_for_start(self) -> Result<(Seq<char>, u16), ErrorView> {
        if self.state == TunnelState::NotRunning {
            Ok(self.remotes.current())
        } else {
            Err(ErrorView::invalid_state())
        }
    }

    /// The state after an endpoint for a new tunnel attempt was asked for.
    pub open spec fn after_pick_for_start(self) -> DaemonView<H> {
        if self.state == TunnelState::NotRunning {
            self.picking()
        } else {
            self
        }
    }

    /// The daemon after a tunnel attempt was started and its handle stored.
    pub open spec fn with_tunnel(self, handle: H) -> DaemonView<H> {
        DaemonView { tunnel_close_handle: Some(handle), ..self.observing(TunnelState::Down) }
    }

    /// The state after the outcome of a start request was reported. A
    /// started tunnel is taken on only while none is running.
    pub open spec fn after_start(self, outcome: Result<H, String>) -> DaemonView<H> {
        match outcome {
            Ok(handle) if self.state == TunnelState::NotRunning => self.with_tunnel(handle),
            _ => self,
        }
    }

    /// What is due after the outcome of a start request was reported:
    /// nothing for a tunnel that was taken on, else the error.
    pub open spec fn reaction_to_start(self, outcome: Result<H, String>) -> Result<
        ReactionView<H>,
        ErrorView,
    > {
        match outcome {
            Err(cause) => Err(ErrorView::tunnel(UNABLE_TO_START_TUNNEL@, Some(cause@))),
            Ok(_) => if self.state == TunnelState::NotRunning {
                Ok(ReactionView::nothing())
            } else {
                Err(ErrorView::invalid_state())
            },
        }
    }

    /// The state after the client asked for `wanted`. Only a change of the
    /// target does anything: towards secured, the selector moves on if no
    /// tunnel runs; towards unsecured, the close handle is given up.
    pub open spec fn targeting(self, wanted: TargetState) -> DaemonView<H> {
        if wanted == self.target_state {
            self
        } else {
            match wanted {
                TargetState::Secured => {
                    let aimed = DaemonView { target_state: wanted, ..self };
                    if self.state == TunnelState::NotRunning {
                        aimed.picking()
                    } else {
                        aimed
                    }
                },
                TargetState::Unsecured => DaemonView {
                    target_state: wanted,
                    tunnel_close_handle: None,
                    ..self
                },
            }
        }
    }

    /// The work on the tunnel that is due when the client asks for `wanted`.
    pub open spec fn request_for_target(self, wanted: TargetState) -> Option<
        TunnelRequestView<H>,
    > {
        if wanted == self.target_state {
            None
        } else {
            match wanted {
                TargetState::Secured => if self.state == TunnelState::NotRunning {
                    Some(self.start_request())
                } else {
                    None
                },
                TargetState::Unsecured => match self.tunnel_close_handle {
                    Some(handle) => Some(TunnelRequestView::Close(handle)),
                    None => None,
                },
            }
        }
    }

    /// The state after the tunnel process exited: the handle is gone, no
    /// tunnel runs, and the selector has moved on if a tunnel is still
    /// wanted.
    pub open spec fn after_exit(self) -> DaemonView<H> {
        let stopped = DaemonView { tunnel_close_handle: None, ..self }.observing(
            TunnelState::NotRunning,
        );
        if self.target_state == TargetState::Secured {
            stopped.picking()
        } else {
            stopped
        }
    }

    /// What is due after the tunnel process exited: the broadcast, if the
    /// tunnel was up, and a new attempt exactly if a tunnel is still wanted.
    pub open spec fn reaction_to_exit(self) -> ReactionView<H> {
        ReactionView {
            notify: self.broadcast_on(TunnelState::NotRunning),
            reply: None,
            request: if self.target_state == TargetState::Secured {
                Some(self.start_request())
            } else {
                None
            },
        }
    }

    /// The state after a management command.
    pub open spec fn after_command(self, command: TunnelCommand) -> DaemonView<H> {
        match command {
            TunnelCommand::SetTargetState(wanted) => self.targeting(wanted),
            TunnelCommand::GetState => self,
        }
    }

    /// What is due after a management command.
    pub open spec fn reaction_to_command(self, command: TunnelCommand) -> ReactionView<H> {
        match command {
            TunnelCommand::SetTargetState(wanted) => ReactionView {
                notify: None,
                reply: None,
                request: self.request_for_target(wanted),
            },
            TunnelCommand::GetState => ReactionView {
                notify: None,
                reply: Some(self.last_broadcasted_state),
                request: None,
            },
        }
    }

    /// The state after `event`.
    pub open spec fn after_event(self, event: DaemonEvent) -> DaemonView<H> {
        match event {
            DaemonEvent::TunnelEvent(tunnel_event) => self.observing(
                state_reported_by(tunnel_event),
            ),
            DaemonEvent::TunnelExit(_) => self.after_exit(),
            DaemonEvent::ManagementInterfaceEvent(command) => self.after_command(command),
            DaemonEvent::ManagementInterfaceExit(_) => self,
        }
    }

    /// What is due after `event`, or the fatal error that it amounts to. The
    /// only event that is fatal in itself is the end of the management
    /// interface, however it ended.
    pub open spec fn reaction_to_event(self, event: DaemonEvent) -> Result<
        ReactionView<H>,
        ErrorView,
    > {
        match event {
            DaemonEvent::TunnelEvent(tunnel_event) => Ok(
                ReactionView {
                    notify: self.broadcast_on(state_reported_by(tunnel_event)),
                    reply: None,
                    request: None,
                },
            ),
            DaemonEvent::TunnelExit(_) => Ok(self.reaction_to_exit()),
            DaemonEvent::ManagementInterfaceEvent(command) => Ok(
                self.reaction_to_command(command),
            ),
            DaemonEvent::ManagementInterfaceExit(result) => Err(
                ErrorView::management_interface(SERVER_EXITED_UNEXPECTEDLY@, failure_of(result)),
            ),
        }
    }
}

/// The error that a failed close of the tunnel amounts to, if it failed.
pub open spec fn close_failure(outcome: Result<(), String>) -> Option<ErrorView> {
    match outcome {
        Ok(_) => None,
        Err(cause) => Some(ErrorView::tunnel(UNABLE_TO_KILL_TUNNEL@, Some(cause@))),
    }
}

} // verus!
