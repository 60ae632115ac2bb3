//! The daemon: the only holder and writer of the tunnel, target and
//! security state. It never touches the outside itself. Each input yields
//! a [`Reaction`] that tells the caller what to do; the outcome of tunnel
//! work is reported back before the next input is handed in.

use crate::errors::{
    Error, ErrorView, SERVER_EXITED_UNEXPECTEDLY, UNABLE_TO_KILL_TUNNEL, UNABLE_TO_START_TUNNEL,
};
use crate::events::{DaemonEvent, TunnelCommand};
use crate::model::{close_failure, failure_of, DaemonView, ReactionView, TunnelRequestView};
use crate::remotes::{Endpoint, RemoteSelector};
use crate::states::{
    security_of, state_reported_by, SecurityState, TargetState, TunnelEvent, TunnelState,
};
use vstd::prelude::*;

verus! {

/// Work on the tunnel that the caller has to carry out.
#[derive(Debug, PartialEq, Eq)]
pub enum TunnelRequest<H> {
    /// Start a tunnel attempt against this endpoint, then report the
    /// outcome with [`Daemon::tunnel_started`].
    Start(Endpoint),
    /// Close the tunnel behind this handle, wait until it is gone, then
    /// report the outcome with [`Daemon::tunnel_closed`].
    Close(H),
}

impl<H> View for TunnelRequest<H> {
    type V = TunnelRequestView<H>;

    open spec fn view(&self) -> TunnelRequestView<H> {
        match *self {
            TunnelRequest::Start(endpoint) => TunnelRequestView::Start(endpoint@),
            TunnelRequest::Close(handle) => TunnelRequestView::Close(handle),
        }
    }
}

/// The view of an optional request.
pub open spec fn request_view<H>(request: Option<TunnelRequest<H>>) -> Option<
    TunnelRequestView<H>,
> {
    match request {
        Some(request) => Some(request@),
        None => None,
    }
}

/// Everything the caller has to do after one input was applied, in this
/// order: notify, reply, then the tunnel request.
#[derive(Debug, PartialEq, Eq)]
pub struct Reaction<H> {
    /// The security state to push to every subscriber.
    pub notify: Option<SecurityState>,
    /// The answer to send to the client that asked for the current state.
    pub reply: Option<SecurityState>,
    /// Work on the tunnel to carry out before the next input.
    pub request: Option<TunnelRequest<H>>,
}

impl<H> View for Reaction<H> {
    type V = ReactionView<H>;

    open spec fn view(&self) -> ReactionView<H> {
        ReactionView {
            notify: self.notify,
            reply: self.reply,
            request: request_view(self.request),
        }
    }
}

impl<H> Reaction<H> {
    /// The reaction that asks for nothing.
    pub fn nothing() -> (reaction: Reaction<H>)
        ensures
            reaction@ == ReactionView::<H>::nothing(),
    {
        Reaction { notify: None, reply: None, request: None }
    }
}

/// What the daemon observed of the tunnel, and what it told subscribers.
#[derive(Clone, Copy)]
struct Observed {
    state: TunnelState,
    last_broadcasted_state: SecurityState,
}

/// The state of the daemon. `H` is the type of the handle by which a tunnel
/// attempt is closed; the daemon holds it while the attempt is outstanding
/// and gives it out once, with the request to close.
pub struct Daemon<H> {
    observed: Observed,
    target_state: TargetState,
    tunnel_close_handle: Option<H>,
    remote_iter: RemoteSelector,
}

impl<H> View for Daemon<H> {
    type V = DaemonView<H>;

    closed spec fn view(&self) -> DaemonView<H> {
        DaemonView {
            state: self.observed.state,
            last_broadcasted_state: self.observed.last_broadcasted_state,
            target_state: self.target_state,
            tunnel_close_handle: self.tunnel_close_handle,
            remotes: self.remote_iter@,
        }
    }
}

impl<H> Daemon<H> {
    #[verifier::type_invariant]
    spec fn inv(self) -> bool {
        self@.consistent()
    }

    /// The daemon at startup, with `remotes` as its endpoints.
    pub fn new(remotes: RemoteSelector) -> (daemon: Daemon<H>)
        ensures
            daemon@ == DaemonView::<H>::initial(remotes@),
            daemon@.consistent(),
            daemon@.handle_matches_state(),
    {
        let _cursor: usize = remotes.cursor();
        Daemon {
            observed: Observed {
                state: TunnelState::NotRunning,
                last_broadcasted_state: SecurityState::Unsecured,
            },
            target_state: TargetState::Unsecured,
            tunnel_close_handle: None,
            remote_iter: remotes,
        }
    }

    /// The observed tunnel state.
    pub fn state(&self) -> (state: TunnelState)
        ensures
            state == self@.state,
            self@.consistent(),
    {
        proof {
            use_type_invariant(self);
        }
        self.observed.state
    }

    /// What the client asked for.
    pub fn target_state(&self) -> (target: TargetState)
        ensures
            target == self@.target_state,
    {
        self.target_state
    }

    /// The security state that subscribers were told last. It is that of
    /// the observed tunnel state.
    pub fn last_broadcasted_state(&self) -> (security: SecurityState)
        ensures
            security == self@.last_broadcasted_state,
            security == security_of(self@.state),
    {
        proof {
            use_type_invariant(self);
        }
        self.observed.last_broadcasted_state
    }

    /// True when the daemon holds the handle of an outstanding tunnel
    /// attempt. It holds one only while a tunnel runs.
    pub fn has_close_handle(&self) -> (held: bool)
        ensures
            held == self@.tunnel_close_handle is Some,
            held ==> self@.state.is_running(),
    {
        proof {
            use_type_invariant(self);
        }
        self.tunnel_close_handle.is_some()
    }

    /// Update the state of the client. If the security state changed with
    /// it, returns the new one, which is to be broadcast.
    fn set_state(&mut self, new_state: TunnelState) -> (broadcast: Option<SecurityState>)
        requires
            new_state == TunnelState::NotRunning ==> old(self)@.tunnel_close_handle is None,
        ensures
            final(self)@ == old(self)@.observing(new_state),
            broadcast == old(self)@.broadcast_on(new_state),
            old(self)@.consistent(),
            final(self)@.consistent(),
    {
        proof {
            use_type_invariant(&*self);
        }
        if new_state != self.observed.state {
            let new_security_state = new_state.as_security_state();
            if self.observed.last_broadcasted_state != new_security_state {
                self.observed = Observed {
                    state: new_state,
                    last_broadcasted_state: new_security_state,
                };
                Some(new_security_state)
            } else {
                self.observed = Observed {
                    state: new_state,
                    last_broadcasted_state: self.observed.last_broadcasted_state,
                };
                None
            }
        } else {
            None
        }
    }

    /// Takes note of a lifecycle notification from the tunnel monitor. The
    /// reaction holds the broadcast, if the security state changed.
    pub fn handle_tunnel_event(&mut self, tunnel_event: TunnelEvent) -> (reaction: Reaction<H>)
        ensures
            final(self)@ == old(self)@.observing(state_reported_by(tunnel_event)),
            reaction@ == (ReactionView::<H> {
                notify: old(self)@.broadcast_on(state_reported_by(tunnel_event)),
                reply: None,
                request: None,
            }),
            reaction.notify is Some <==> security_of(state_reported_by(tunnel_event))
                != security_of(old(self)@.state),
            old(self)@.consistent(),
            final(self)@.consistent(),
    {
        let new_state = tunnel_event.reported_state();
        let notify = self.set_state(new_state);
        Reaction { notify, reply: None, request: None }
    }

    /// Begins a tunnel attempt: picks the next endpoint, round robin. A
    /// tunnel can be started only while none is running.
    pub fn start_tunnel(&mut self) -> (picked: Result<Endpoint, Error>)
        ensures
            final(self)@ == old(self)@.after_pick_for_start(),
            match old(self)@.pick_for_start() {
                Ok(remote) => picked matches Ok(endpoint) && endpoint@ == remote,
                Err(fatal) => picked matches Err(error) && error@ == fatal,
            },
            old(self)@.consistent(),
            final(self)@.consistent(),
    {
        proof {
            use_type_invariant(&*self);
        }
        if self.observed.state != TunnelState::NotRunning {
            return Err(Error::invalid_state());
        }
        let remote = self.remote_iter.current().clone();
        self.remote_iter.advance();
        Ok(remote)
    }

    /// Takes in the outcome of a start request. A started tunnel is
    /// outstanding from now on: its handle is kept and the tunnel counts as
    /// down until the monitor reports otherwise. A failure to start is a
    /// tunnel error and leaves the daemon as it was.
    pub fn tunnel_started(&mut self, outcome: Result<H, String>) -> (result: Result<
        Reaction<H>,
        Error,
    >)
        ensures
            final(self)@ == old(self)@.after_start(outcome),
            match old(self)@.reaction_to_start(outcome) {
                Ok(due) => result matches Ok(reaction) && reaction@ == due,
                Err(fatal) => result matches Err(error) && error@ == fatal,
            },
            old(self)@.consistent(),
            final(self)@.consistent(),
    {
        proof {
            use_type_invariant(&*self);
        }
        match outcome {
            Err(cause) => Err(Error::tunnel(UNABLE_TO_START_TUNNEL, Some(cause))),
            Ok(handle) => {
                if self.observed.state != TunnelState::NotRunning {
                    return Err(Error::invalid_state());
                }
                let notify = self.set_state(TunnelState::Down);
                self.tunnel_close_handle = Some(handle);
                Ok(Reaction { notify, reply: None, request: None })
            },
        }
    }

    /// Takes in the outcome of a close request. A failure to close is a
    /// tunnel error. The tunnel state changes only when the exit of the
    /// tunnel process is handed in as an event.
    pub fn tunnel_closed(&self, outcome: Result<(), String>) -> (result: Result<(), Error>)
        ensures
            match close_failure(outcome) {
                None => result is Ok,
                Some(fatal) => result matches Err(error) && error@ == fatal,
            },
    {
        match outcome {
            Ok(()) => Ok(()),
            Err(cause) => Err(Error::tunnel(UNABLE_TO_KILL_TUNNEL, Some(cause))),
        }
    }

    /// Set the target state of the client. If it changed, returns the
    /// operation needed to progress towards that state: a start if no
    /// tunnel runs and one is wanted, a close if one is outstanding and
    /// none is wanted.
    pub fn set_target_state(&mut self, new_state: TargetState) -> (result: Result<
        Option<TunnelRequest<H>>,
        Error,
    >)
        ensures
            final(self)@ == old(self)@.targeting(new_state),
            result matches Ok(request) && request_view(request) == old(self)@.request_for_target(
                new_state,
            ),
            new_state == old(self)@.target_state ==> final(self)@ == old(self)@ && result
                == Ok::<Option<TunnelRequest<H>>, Error>(None),
            final(self)@.target_state == new_state,
            old(self)@.consistent(),
            final(self)@.consistent(),
    {
        proof {
            use_type_invariant(&*self);
        }
        let mut request: Option<TunnelRequest<H>> = None;
        if new_state != self.target_state {
            self.target_state = new_state;
            match new_state {
                TargetState::Secured => {
                    if self.observed.state == TunnelState::NotRunning {
                        let remote = self.start_tunnel()?;
                        request = Some(TunnelRequest::Start(remote));
                    }
                },
                TargetState::Unsecured => {
                    let mut taken: Option<H> = None;
                    core::mem::swap(&mut self.tunnel_close_handle, &mut taken);
                    if let Some(close_handle) = taken {
                        request = Some(TunnelRequest::Close(close_handle));
                    }
                },
            }
        }
        Ok(request)
    }

    /// Takes note that the tunnel process is gone, however it went: the
    /// handle is dropped and no tunnel runs. If a tunnel is still wanted,
    /// the reaction asks for a new attempt against the next endpoint.
    pub fn handle_tunnel_exit(&mut self, _result: Result<(), String>) -> (outcome: Result<
        Reaction<H>,
        Error,
    >)
        ensures
            final(self)@ == old(self)@.after_exit(),
            outcome matches Ok(reaction) && reaction@ == old(self)@.reaction_to_exit() && (
                reaction@.starts_tunnel() <==> old(self)@.target_state == TargetState::Secured
            ),
            final(self)@.state == TunnelState::NotRunning,
            final(self)@.tunnel_close_handle is None,
            old(self)@.consistent(),
            final(self)@.consistent(),
    {
        proof {
            use_type_invariant(&*self);
        }
        self.tunnel_close_handle = None;
        let notify = self.set_state(TunnelState::NotRunning);
        let mut request: Option<TunnelRequest<H>> = None;
        if self.target_state == TargetState::Secured {
            let remote = self.start_tunnel()?;
            request = Some(TunnelRequest::Start(remote));
        }
        Ok(Reaction { notify, reply: None, request })
    }

    /// Applies a command from a management client. A query is answered
    /// with the security state that was broadcast last.
    pub fn handle_management_interface_event(&mut self, event: TunnelCommand) -> (outcome: Result<
        Reaction<H>,
        Error,
    >)
        ensures
            final(self)@ == old(self)@.after_command(event),
            outcome matches Ok(reaction) && reaction@ == old(self)@.reaction_to_command(event),
            old(self)@.consistent(),
            final(self)@.consistent(),
    {
        proof {
            use_type_invariant(&*self);
        }
        match event {
            TunnelCommand::SetTargetState(state) => {
                let request = self.set_target_state(state)?;
                Ok(Reaction { notify: None, reply: None, request })
            },
            TunnelCommand::GetState => Ok(
                Reaction {
                    notify: None,
                    reply: Some(self.observed.last_broadcasted_state),
                    request: None,
                },
            ),
        }
    }

    /// The end of the management interface is fatal however it ended: the
    /// daemon cannot be reached without it.
    pub fn handle_management_interface_exit(&self, result: Result<(), String>) -> (outcome: Result<
        Reaction<H>,
        Error,
    >)
        ensures
            outcome matches Err(error) && error@ == ErrorView::management_interface(
                SERVER_EXITED_UNEXPECTEDLY@,
                failure_of(result),
            ),
    {
        match result {
            Ok(()) => Err(Error::management_interface(SERVER_EXITED_UNEXPECTEDLY, None)),
            Err(cause) => Err(Error::management_interface(SERVER_EXITED_UNEXPECTEDLY, Some(cause))),
        }
    }

    /// Applies one event: the state moves on and the reaction says what is
    /// due. Only the end of the management interface is an error here.
    pub fn handle_event(&mut self, event: DaemonEvent) -> (outcome: Result<Reaction<H>, Error>)
        ensures
            final(self)@ == old(self)@.after_event(event),
            match old(self)@.reaction_to_event(event) {
                Ok(due) => outcome matches Ok(reaction) && reaction@ == due,
                Err(fatal) => outcome matches Err(error) && error@ == fatal,
            },
            old(self)@.consistent(),
            final(self)@.consistent(),
    {
        proof {
            use_type_invariant(&*self);
        }
        match event {
            DaemonEvent::TunnelEvent(event) => Ok(self.handle_tunnel_event(event)),
            DaemonEvent::TunnelExit(result) => self.handle_tunnel_exit(result),
            DaemonEvent::ManagementInterfaceEvent(event) => self.handle_management_interface_event(
                event,
            ),
            DaemonEvent::ManagementInterfaceExit(result) => self.handle_management_interface_exit(
                result,
            ),
        }
    }
}

} // verus!
