//! What holds of the daemon across inputs, proved of the model that the
//! contracts of [`crate::daemon::Daemon`] are stated in.

use crate::events::{DaemonEvent, TunnelCommand};
use crate::model::{DaemonView, ReactionView, TunnelRequestView};
use crate::remotes::{lemma_advance_by, lemma_picks_in_a_cycle_are_distinct, SelectorView};
use crate::states::{security_of, SecurityState, TargetState, TunnelState};
use vstd::prelude::*;

verus! {

/// True when `event` makes the daemon give up its close handle for a close
/// request: the client stops wanting a tunnel while one is outstanding.
pub open spec fn gives_up_handle<H>(v: DaemonView<H>, event: DaemonEvent) -> bool {
    &&& event == DaemonEvent::ManagementInterfaceEvent(
        TunnelCommand::SetTargetState(TargetState::Unsecured),
    )
    &&& v.target_state == TargetState::Secured
    &&& v.tunnel_close_handle is Some
}

/// True when `event` is a lifecycle notification that arrives while no
/// tunnel attempt is outstanding.
pub open spec fn is_stray_notification<H>(v: DaemonView<H>, event: DaemonEvent) -> bool {
    event is TunnelEvent && v.tunnel_close_handle is None
}

/// The daemon stays consistent whatever comes in: after every event, and
/// after every outcome of a start request. In particular a close handle is
/// never held while no tunnel runs, and what subscribers were told last is
/// always the security state of the observed tunnel state.
pub proof fn lemma_consistency_is_kept<H>(
    v: DaemonView<H>,
    event: DaemonEvent,
    outcome: Result<H, String>,
)
    requires
        v.consistent(),
    ensures
        DaemonView::<H>::initial(v.remotes).consistent(),
        v.after_event(event).consistent(),
        v.after_start(outcome).consistent(),
{
    lemma_advance_by(v.remotes, 1);
    reveal_with_fuel(SelectorView::advance_by, 2);
}

/// The close handle is held exactly while a tunnel runs: this holds at
/// startup and is kept by every event and every outcome of a start request,
/// but for two inputs. One is the command that makes the daemon hand out
/// its handle for closing: the tunnel still counts as running until its
/// exit comes in. The other is a lifecycle notification that arrives
/// while no attempt is outstanding.
pub proof fn lemma_handle_is_held_while_tunnel_runs<H>(
    v: DaemonView<H>,
    event: DaemonEvent,
    outcome: Result<H, String>,
)
    requires
        v.consistent(),
        v.handle_matches_state(),
        !gives_up_handle(v, event),
        !is_stray_notification(v, event),
    ensures
        DaemonView::<H>::initial(v.remotes).handle_matches_state(),
        v.after_event(event).handle_matches_state(),
        v.after_start(outcome).handle_matches_state(),
        v.after_event(event).after_start(outcome).handle_matches_state(),
{
}

/// Once the handle was given out for closing, the exit of the tunnel
/// process sets things right: no handle, no tunnel, and no new attempt.
pub proof fn lemma_exit_after_close_restores_the_match<H>(v: DaemonView<H>)
    requires
        v.consistent(),
        v.target_state == TargetState::Secured,
        v.tunnel_close_handle is Some,
    ensures
        v.targeting(TargetState::Unsecured).after_exit().handle_matches_state(),
        v.targeting(TargetState::Unsecured).after_exit().state == TunnelState::NotRunning,
        v.targeting(TargetState::Unsecured).reaction_to_exit().request is None,
{
}

/// The state after a target-state command has run its course: the tunnel
/// that it asked to start was started with `handle`, or the tunnel that it
/// asked to close is gone and its exit was taken note of.
pub open spec fn after_settled_command<H>(
    v: DaemonView<H>,
    wanted: TargetState,
    handle: H,
) -> DaemonView<H> {
    match v.request_for_target(wanted) {
        Some(TunnelRequestView::Start(_)) => v.targeting(wanted).after_start(Ok(handle)),
        Some(TunnelRequestView::Close(_)) => v.targeting(wanted).after_exit(),
        None => v.targeting(wanted),
    }
}

/// The state after a sequence of target-state commands, each run to its
/// end before the next. With each command comes the handle of the tunnel
/// that is started if the command asks for one.
pub open spec fn after_settled_commands<H>(
    v: DaemonView<H>,
    commands: Seq<(TargetState, H)>,
) -> DaemonView<H>
    decreases commands.len(),
{
    if commands.len() == 0 {
        v
    } else {
        after_settled_command(
            after_settled_commands(v, commands.drop_last()),
            commands.last().0,
            commands.last().1,
        )
    }
}

/// For every sequence of target-state commands, each run to its end: the
/// close handle is held exactly while a tunnel runs.
pub proof fn lemma_commands_keep_handle_with_tunnel<H>(
    v: DaemonView<H>,
    commands: Seq<(TargetState, H)>,
)
    requires
        v.consistent(),
        v.handle_matches_state(),
    ensures
        after_settled_commands(v, commands).consistent(),
        after_settled_commands(v, commands).handle_matches_state(),
    decreases commands.len(),
{
    if commands.len() > 0 {
        let before = after_settled_commands(v, commands.drop_last());
        lemma_commands_keep_handle_with_tunnel(v, commands.drop_last());
        lemma_advance_by(before.remotes, 1);
        reveal_with_fuel(SelectorView::advance_by, 2);
    }
}

/// To ask for the target state that is already wanted does nothing: the
/// state stays as it is and no work on the tunnel is due.
pub proof fn lemma_same_target_is_a_no_op<H>(v: DaemonView<H>, wanted: TargetState)
    requires
        v.target_state == wanted,
    ensures
        v.targeting(wanted) == v,
        v.request_for_target(wanted) is None,
{
}

/// Asking twice in a row for the same target starts at most one tunnel:
/// whatever the first command did and however a start that it asked for
/// ended, the second asks for nothing and changes nothing.
pub proof fn lemma_repeated_target_starts_once<H>(
    v: DaemonView<H>,
    wanted: TargetState,
    outcome: Result<H, String>,
)
    ensures
        v.targeting(wanted).request_for_target(wanted) is None,
        v.targeting(wanted).targeting(wanted) == v.targeting(wanted),
        v.targeting(wanted).after_start(outcome).request_for_target(wanted) is None,
        v.targeting(wanted).after_start(outcome).targeting(wanted) == v.targeting(
            wanted,
        ).after_start(outcome),
{
}

/// Subscribers are notified exactly when the security state changes, and
/// then of the new one. A change of tunnel state that leaves the security
/// state alone, such as from not running to down, notifies nobody.
pub proof fn lemma_broadcast_only_on_security_change<H>(v: DaemonView<H>, new_state: TunnelState)
    requires
        v.consistent(),
    ensures
        v.broadcast_on(new_state) is Some <==> security_of(new_state) != security_of(v.state),
        v.broadcast_on(new_state) matches Some(told) ==> told == security_of(new_state),
        v.state != TunnelState::Up && new_state != TunnelState::Up ==> v.broadcast_on(new_state)
            is None,
        v.observing(new_state).last_broadcasted_state == security_of(new_state),
{
}

/// The state after a run of unexpected tunnel exits, each followed by a
/// new attempt that was started with the next of `handles`.
pub open spec fn after_restarts<H>(v: DaemonView<H>, handles: Seq<H>) -> DaemonView<H>
    decreases handles.len(),
{
    if handles.len() == 0 {
        v
    } else {
        after_restarts(v, handles.drop_last()).after_exit().after_start(Ok(handles.last()))
    }
}

/// While a tunnel is wanted, every exit of the tunnel process is answered
/// with a new attempt, and the attempts go through the endpoints round
/// robin: after `n` restarts the selector has moved on by `n`, so the next
/// exit asks for the endpoint `n` places further round the list.
pub proof fn lemma_restarts_go_round_robin<H>(v: DaemonView<H>, handles: Seq<H>)
    requires
        v.consistent(),
        v.target_state == TargetState::Secured,
    ensures
        after_restarts(v, handles).consistent(),
        after_restarts(v, handles).target_state == TargetState::Secured,
        after_restarts(v, handles).remotes == v.remotes.advance_by(handles.len()),
        after_restarts(v, handles).reaction_to_exit().request == Some(
            TunnelRequestView::<H>::Start(
                v.remotes.remotes[v.remotes.position_of_pick(handles.len()) as int],
            ),
        ),
    decreases handles.len(),
{
    let n = handles.len();
    lemma_advance_by(v.remotes, n);
    if n > 0 {
        let before = after_restarts(v, handles.drop_last());
        lemma_restarts_go_round_robin(v, handles.drop_last());
        lemma_advance_by(v.remotes, (n - 1) as nat);
        lemma_advance_by(before.remotes, 1);
        reveal_with_fuel(SelectorView::advance_by, 2);
        lemma_advance_by_splits(v.remotes, (n - 1) as nat);
    }
}

/// One more pick after `n` picks makes `n + 1` picks.
proof fn lemma_advance_by_splits(v: SelectorView, n: nat)
    ensures
        v.advance_by(n).advance() == v.advance_by(n + 1),
    decreases n,
{
    assert(v.advance_by(n + 1) == v.advance().advance_by(n));
    if n > 0 {
        lemma_advance_by_splits(v.advance(), (n - 1) as nat);
        assert(v.advance_by(n) == v.advance().advance_by((n - 1) as nat));
    } else {
        assert(v.advance().advance_by(0) == v.advance());
    }
}

/// Failover: in any run of restarts that is no longer than the list of
/// endpoints, no position of the list is tried twice.
pub proof fn lemma_restarts_try_distinct_endpoints<H>(v: DaemonView<H>, i: nat, j: nat)
    requires
        v.consistent(),
        i < j,
        j - i < v.remotes.remotes.len(),
    ensures
        v.remotes.position_of_pick(i) != v.remotes.position_of_pick(j),
{
    lemma_picks_in_a_cycle_are_distinct(v.remotes, i, j);
}

/// An exit of the tunnel process is answered with a new attempt exactly if
/// a tunnel is wanted. If none is, the daemon comes to rest: no tunnel, no
/// handle, no request.
pub proof fn lemma_restart_only_when_secured_is_wanted<H>(v: DaemonView<H>)
    ensures
        v.reaction_to_exit().starts_tunnel() <==> v.target_state == TargetState::Secured,
        v.target_state == TargetState::Unsecured ==> v.reaction_to_exit().request is None
            && v.after_exit().remotes == v.remotes,
        v.after_exit().state == TunnelState::NotRunning,
        v.after_exit().tunnel_close_handle is None,
        v.after_exit().last_broadcasted_state == SecurityState::Unsecured,
{
}

/// A query for the current state is answered with what subscribers were
/// told last, and leaves the daemon as it is.
pub proof fn lemma_query_reports_last_broadcast<H>(v: DaemonView<H>)
    requires
        v.consistent(),
    ensures
        v.after_command(TunnelCommand::GetState) == v,
        v.reaction_to_command(TunnelCommand::GetState) == (ReactionView::<H> {
            notify: None,
            reply: Some(security_of(v.state)),
            request: None,
        }),
{
}

} // verus!
