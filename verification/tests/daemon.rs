use mullvad_daemon::daemon::{Daemon, Reaction, TunnelRequest};
use mullvad_daemon::errors::{Error, ErrorKind};
use mullvad_daemon::events::{DaemonEvent, TunnelCommand};
use mullvad_daemon::remotes::{Endpoint, RemoteSelector};
use mullvad_daemon::states::{SecurityState, TargetState, TunnelEvent, TunnelState};

fn remote(n: u8) -> Endpoint {
    Endpoint::new(&format!("se{}.mullvad.net", n), 1300)
}

fn daemon() -> Daemon<u32> {
    Daemon::new(RemoteSelector::new(vec![remote(5), remote(6), remote(7)]).unwrap())
}

fn set_target(state: TargetState) -> DaemonEvent {
    DaemonEvent::ManagementInterfaceEvent(TunnelCommand::SetTargetState(state))
}

fn nothing() -> Reaction<u32> {
    Reaction { notify: None, reply: None, request: None }
}

fn start(n: u8) -> Reaction<u32> {
    Reaction { notify: None, reply: None, request: Some(TunnelRequest::Start(remote(n))) }
}

/// A daemon whose tunnel is up, started with handle 1 against the first
/// endpoint, with target state secured.
fn secured_daemon() -> Daemon<u32> {
    let mut daemon = daemon();
    assert_eq!(Ok(start(5)), daemon.handle_event(set_target(TargetState::Secured)));
    assert_eq!(Ok(nothing()), daemon.tunnel_started(Ok(1)));
    daemon.handle_event(DaemonEvent::TunnelEvent(TunnelEvent::Up)).unwrap();
    daemon
}

fn handle_matches_state(daemon: &Daemon<u32>) -> bool {
    daemon.has_close_handle() == (daemon.state() != TunnelState::NotRunning)
}

#[test]
fn starts_with_nothing_running_and_nothing_wanted() {
    let daemon = daemon();
    assert_eq!(TunnelState::NotRunning, daemon.state());
    assert_eq!(TargetState::Unsecured, daemon.target_state());
    assert_eq!(SecurityState::Unsecured, daemon.last_broadcasted_state());
    assert!(!daemon.has_close_handle());
}

#[test]
fn securing_starts_a_tunnel_and_up_is_broadcast_once() {
    let mut daemon = daemon();

    let reaction = daemon.handle_event(set_target(TargetState::Secured)).unwrap();
    assert_eq!(start(5), reaction);
    assert_eq!(TargetState::Secured, daemon.target_state());

    let reaction = daemon.tunnel_started(Ok(1)).unwrap();
    assert_eq!(nothing(), reaction);
    assert_eq!(TunnelState::Down, daemon.state());
    assert_eq!(SecurityState::Unsecured, daemon.last_broadcasted_state());
    assert!(daemon.has_close_handle());

    let reaction = daemon.handle_event(DaemonEvent::TunnelEvent(TunnelEvent::Up)).unwrap();
    assert_eq!(
        Reaction { notify: Some(SecurityState::Secured), reply: None, request: None },
        reaction
    );
    assert_eq!(TunnelState::Up, daemon.state());
    assert_eq!(SecurityState::Secured, daemon.last_broadcasted_state());

    let again = daemon.handle_event(DaemonEvent::TunnelEvent(TunnelEvent::Up)).unwrap();
    assert_eq!(nothing(), again);
}

#[test]
fn failed_tunnel_is_restarted_against_the_next_endpoint() {
    let mut daemon = secured_daemon();

    let reaction = daemon
        .handle_event(DaemonEvent::TunnelExit(Err("connection reset".to_string())))
        .unwrap();
    assert_eq!(
        Reaction {
            notify: Some(SecurityState::Unsecured),
            reply: None,
            request: Some(TunnelRequest::Start(remote(6))),
        },
        reaction
    );
    assert!(!daemon.has_close_handle());
    assert_eq!(TunnelState::NotRunning, daemon.state());
    assert_eq!(SecurityState::Unsecured, daemon.last_broadcasted_state());

    assert_eq!(Ok(nothing()), daemon.tunnel_started(Ok(2)));
    assert_eq!(TunnelState::Down, daemon.state());
    assert!(daemon.has_close_handle());
}

#[test]
fn query_while_up_is_answered_secured() {
    let mut daemon = secured_daemon();
    let reaction = daemon
        .handle_event(DaemonEvent::ManagementInterfaceEvent(TunnelCommand::GetState))
        .unwrap();
    assert_eq!(
        Reaction { notify: None, reply: Some(SecurityState::Secured), request: None },
        reaction
    );
    assert_eq!(TunnelState::Up, daemon.state());
    assert_eq!(TargetState::Secured, daemon.target_state());
    assert!(daemon.has_close_handle());
}

#[test]
fn query_answers_what_was_broadcast_last() {
    let mut daemon = daemon();
    let query = || DaemonEvent::ManagementInterfaceEvent(TunnelCommand::GetState);
    assert_eq!(Some(SecurityState::Unsecured), daemon.handle_event(query()).unwrap().reply);
    daemon.handle_event(set_target(TargetState::Secured)).unwrap();
    daemon.tunnel_started(Ok(1)).unwrap();
    assert_eq!(Some(SecurityState::Unsecured), daemon.handle_event(query()).unwrap().reply);
    daemon.handle_event(DaemonEvent::TunnelEvent(TunnelEvent::Up)).unwrap();
    assert_eq!(Some(SecurityState::Secured), daemon.handle_event(query()).unwrap().reply);
    daemon.handle_event(DaemonEvent::TunnelEvent(TunnelEvent::Down)).unwrap();
    assert_eq!(Some(SecurityState::Unsecured), daemon.handle_event(query()).unwrap().reply);
}

#[test]
fn unsecuring_while_down_closes_the_tunnel() {
    let mut daemon = daemon();
    daemon.handle_event(set_target(TargetState::Secured)).unwrap();
    daemon.tunnel_started(Ok(41)).unwrap();
    assert_eq!(TunnelState::Down, daemon.state());

    let reaction = daemon.handle_event(set_target(TargetState::Unsecured)).unwrap();
    assert_eq!(
        Reaction { notify: None, reply: None, request: Some(TunnelRequest::Close(41)) },
        reaction
    );
    assert_eq!(TargetState::Unsecured, daemon.target_state());
    assert!(!daemon.has_close_handle());
    assert_eq!(Ok(()), daemon.tunnel_closed(Ok(())));

    let reaction = daemon.handle_event(DaemonEvent::TunnelExit(Ok(()))).unwrap();
    assert_eq!(nothing(), reaction);
    assert_eq!(TunnelState::NotRunning, daemon.state());
    assert_eq!(SecurityState::Unsecured, daemon.last_broadcasted_state());
    assert!(handle_matches_state(&daemon));
}

#[test]
fn unsecuring_while_up_broadcasts_when_the_tunnel_is_gone() {
    let mut daemon = secured_daemon();
    let reaction = daemon.handle_event(set_target(TargetState::Unsecured)).unwrap();
    assert_eq!(Some(TunnelRequest::Close(1)), reaction.request);
    assert_eq!(None, reaction.notify);
    assert_eq!(SecurityState::Secured, daemon.last_broadcasted_state());

    let reaction = daemon.handle_event(DaemonEvent::TunnelExit(Ok(()))).unwrap();
    assert_eq!(
        Reaction { notify: Some(SecurityState::Unsecured), reply: None, request: None },
        reaction
    );
    assert_eq!(TunnelState::NotRunning, daemon.state());
}

#[test]
fn handle_is_held_exactly_while_a_tunnel_runs() {
    let mut daemon = daemon();
    assert!(handle_matches_state(&daemon));
    let mut next_handle = 0;
    let commands = [
        TargetState::Unsecured,
        TargetState::Secured,
        TargetState::Secured,
        TargetState::Unsecured,
        TargetState::Unsecured,
        TargetState::Secured,
        TargetState::Unsecured,
    ];
    for wanted in commands {
        match daemon.handle_event(set_target(wanted)).unwrap().request {
            Some(TunnelRequest::Start(_)) => {
                assert!(handle_matches_state(&daemon));
                next_handle += 1;
                daemon.tunnel_started(Ok(next_handle)).unwrap();
            }
            Some(TunnelRequest::Close(handle)) => {
                assert_eq!(next_handle, handle);
                daemon.tunnel_closed(Ok(())).unwrap();
                daemon.handle_event(DaemonEvent::TunnelExit(Ok(()))).unwrap();
            }
            None => {}
        }
        assert!(handle_matches_state(&daemon));
    }
    assert_eq!(2, next_handle);
}

#[test]
fn handle_is_never_held_without_a_tunnel() {
    let mut daemon = daemon();
    let events = || {
        vec![
            DaemonEvent::TunnelEvent(TunnelEvent::Up),
            set_target(TargetState::Secured),
            DaemonEvent::TunnelExit(Ok(())),
            DaemonEvent::TunnelEvent(TunnelEvent::Down),
            set_target(TargetState::Unsecured),
            DaemonEvent::TunnelEvent(TunnelEvent::Up),
            DaemonEvent::TunnelExit(Err("gone".to_string())),
            set_target(TargetState::Secured),
        ]
    };
    for _ in 0..3 {
        for event in events() {
            if let Some(TunnelRequest::Start(_)) = daemon.handle_event(event).unwrap().request {
                let _ = daemon.tunnel_started(Ok(9));
            }
            assert!(!daemon.has_close_handle() || daemon.state() != TunnelState::NotRunning);
            assert_eq!(daemon.state().as_security_state(), daemon.last_broadcasted_state());
        }
    }
}

#[test]
fn securing_twice_starts_one_tunnel() {
    let mut daemon = daemon();
    assert_eq!(Ok(start(5)), daemon.handle_event(set_target(TargetState::Secured)));
    assert_eq!(Ok(nothing()), daemon.handle_event(set_target(TargetState::Secured)));
    assert_eq!(Ok(nothing()), daemon.tunnel_started(Ok(1)));
    assert_eq!(Ok(nothing()), daemon.handle_event(set_target(TargetState::Secured)));
    assert_eq!(TunnelState::Down, daemon.state());

    assert_eq!(Ok(None), daemon.set_target_state(TargetState::Secured));
}

#[test]
fn unsecuring_when_nothing_is_wanted_does_nothing() {
    let mut daemon = daemon();
    assert_eq!(Ok(nothing()), daemon.handle_event(set_target(TargetState::Unsecured)));
    assert_eq!(TargetState::Unsecured, daemon.target_state());
    assert_eq!(TunnelState::NotRunning, daemon.state());
}

#[test]
fn securing_while_a_tunnel_runs_starts_none() {
    let mut daemon = secured_daemon();
    daemon.handle_event(set_target(TargetState::Unsecured)).unwrap();
    assert_eq!(TunnelState::Up, daemon.state());
    assert_eq!(Ok(nothing()), daemon.handle_event(set_target(TargetState::Secured)));
    assert_eq!(TargetState::Secured, daemon.target_state());
}

#[test]
fn no_broadcast_without_a_change_of_security_state() {
    let mut daemon: Daemon<u32> = daemon();
    assert_eq!(nothing(), daemon.handle_tunnel_event(TunnelEvent::Down));
    assert_eq!(TunnelState::Down, daemon.state());
    assert_eq!(
        Some(SecurityState::Secured),
        daemon.handle_tunnel_event(TunnelEvent::Up).notify
    );
    assert_eq!(nothing(), daemon.handle_tunnel_event(TunnelEvent::Up));
    assert_eq!(
        Some(SecurityState::Unsecured),
        daemon.handle_tunnel_event(TunnelEvent::Down).notify
    );
    assert_eq!(nothing(), daemon.handle_tunnel_event(TunnelEvent::Down));
    assert_eq!(None, daemon.handle_tunnel_exit(Ok(())).unwrap().notify);
}

#[test]
fn restarts_go_round_the_endpoints() {
    let mut daemon = secured_daemon();
    let mut tried: Vec<Endpoint> = Vec::new();
    for handle in 2..9 {
        let reaction = daemon.handle_event(DaemonEvent::TunnelExit(Err("died".to_string())));
        match reaction.unwrap().request {
            Some(TunnelRequest::Start(endpoint)) => tried.push(endpoint),
            other => panic!("no restart: {:?}", other),
        }
        assert_eq!(Ok(nothing()), daemon.tunnel_started(Ok(handle)));
    }
    assert_eq!(
        vec![remote(6), remote(7), remote(5), remote(6), remote(7), remote(5), remote(6)],
        tried
    );
    assert_ne!(tried[0], tried[1]);
    assert_ne!(tried[1], tried[2]);
    assert_ne!(tried[0], tried[2]);
}

#[test]
fn clean_exit_is_restarted_too_while_secured_is_wanted() {
    let mut daemon = secured_daemon();
    let reaction = daemon.handle_tunnel_exit(Ok(())).unwrap();
    assert_eq!(Some(TunnelRequest::Start(remote(6))), reaction.request);
}

#[test]
fn no_restart_when_unsecured_is_wanted() {
    let mut daemon: Daemon<u32> = daemon();
    daemon.handle_tunnel_event(TunnelEvent::Up);
    let reaction = daemon.handle_event(DaemonEvent::TunnelExit(Err("died".to_string())));
    assert_eq!(
        Ok(Reaction { notify: Some(SecurityState::Unsecured), reply: None, request: None }),
        reaction
    );
    assert_eq!(TunnelState::NotRunning, daemon.state());
    assert_eq!(Ok(start(5)), daemon.handle_event(set_target(TargetState::Secured)));
}

#[test]
fn start_tunnel_picks_only_while_nothing_runs() {
    let mut daemon = daemon();
    assert_eq!(Ok(remote(5)), daemon.start_tunnel());
    assert_eq!(Ok(remote(6)), daemon.start_tunnel());
    assert_eq!(Ok(nothing()), daemon.tunnel_started(Ok(1)));
    assert_eq!(Err(Error { kind: ErrorKind::InvalidState, cause: None }), daemon.start_tunnel());
    assert_eq!(TunnelState::Down, daemon.state());
    daemon.handle_tunnel_exit(Ok(())).unwrap();
    assert_eq!(Ok(remote(7)), daemon.start_tunnel());
}

#[test]
fn started_tunnel_is_refused_while_one_runs() {
    let mut daemon = secured_daemon();
    assert_eq!(
        Err(Error { kind: ErrorKind::InvalidState, cause: None }),
        daemon.tunnel_started(Ok(2))
    );
    assert_eq!(TunnelState::Up, daemon.state());
    let reaction = daemon.handle_event(set_target(TargetState::Unsecured)).unwrap();
    assert_eq!(Some(TunnelRequest::Close(1)), reaction.request);
}

#[test]
fn failure_to_start_is_a_tunnel_error() {
    let mut daemon = daemon();
    daemon.handle_event(set_target(TargetState::Secured)).unwrap();
    let result = daemon.tunnel_started(Err("no such binary".to_string()));
    assert_eq!(
        Err(Error {
            kind: ErrorKind::TunnelError("Unable to start tunnel monitor"),
            cause: Some("no such binary".to_string()),
        }),
        result
    );
    assert_eq!(TunnelState::NotRunning, daemon.state());
    assert!(!daemon.has_close_handle());
    assert_eq!(TargetState::Secured, daemon.target_state());
}

#[test]
fn failure_to_close_is_a_tunnel_error() {
    let daemon = daemon();
    assert_eq!(
        Err(Error {
            kind: ErrorKind::TunnelError("Unable to kill tunnel"),
            cause: Some("not permitted".to_string()),
        }),
        daemon.tunnel_closed(Err("not permitted".to_string()))
    );
    assert_eq!(Ok(()), daemon.tunnel_closed(Ok(())));
}

#[test]
fn end_of_management_interface_is_fatal_even_if_clean() {
    let mut daemon = secured_daemon();
    assert_eq!(
        Err(Error {
            kind: ErrorKind::ManagementInterfaceError("Server exited unexpectedly"),
            cause: None,
        }),
        daemon.handle_event(DaemonEvent::ManagementInterfaceExit(Ok(())))
    );
    assert_eq!(
        Err(Error {
            kind: ErrorKind::ManagementInterfaceError("Server exited unexpectedly"),
            cause: Some("socket closed".to_string()),
        }),
        daemon.handle_management_interface_exit(Err("socket closed".to_string()))
    );
    assert_eq!(TunnelState::Up, daemon.state());
    assert!(daemon.has_close_handle());
}

#[test]
fn commands_go_through_the_management_handler() {
    let mut daemon = daemon();
    assert_eq!(
        Ok(start(5)),
        daemon.handle_management_interface_event(TunnelCommand::SetTargetState(
            TargetState::Secured
        ))
    );
    assert_eq!(
        Ok(Reaction { notify: None, reply: Some(SecurityState::Unsecured), request: None }),
        daemon.handle_management_interface_event(TunnelCommand::GetState)
    );
    assert_eq!(nothing(), Reaction::nothing());
}

#[test]
fn set_target_state_says_what_is_needed() {
    let mut daemon = daemon();
    assert_eq!(Ok(None), daemon.set_target_state(TargetState::Unsecured));
    assert_eq!(
        Ok(Some(TunnelRequest::Start(remote(5)))),
        daemon.set_target_state(TargetState::Secured)
    );
    daemon.tunnel_started(Ok(3)).unwrap();
    assert_eq!(Ok(Some(TunnelRequest::Close(3))), daemon.set_target_state(TargetState::Unsecured));
    assert_eq!(Ok(None), daemon.set_target_state(TargetState::Unsecured));
    assert_eq!(Ok(None), daemon.set_target_state(TargetState::Secured));
    assert_eq!(Ok(None), daemon.set_target_state(TargetState::Unsecured));
}
