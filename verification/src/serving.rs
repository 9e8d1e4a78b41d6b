//! What holds of the connections of a run and of the waiting in between, said of what goes into
//! a call and what comes out of it.

use crate::bridge::{login_params, AuthRequest, Exit};
use crate::cli::Action;
use crate::error::Error;
use crate::flow::{
    clear_runtime, combine, restart, settle, wait_for_profile_lock, ClearStep, Execution,
    LockAttempt, LockNext, RestartAction, RestartEvent, RestartStage,
};
use crate::json::Json;
use crate::relay::{ended, renews_deadline, Bridge, Wait};
use crate::session::{
    begin_client, client_result, serve_client, ClientAction, ClientEvent, ClientStage, Connections,
    ServeAction, ServeEvent, ServeStage,
};
use vstd::prelude::*;

use crate::bridge::AuthRequestView;
use crate::relay::PhaseView;
use crate::session::{ClientActionView, ConnectionsView};

verus! {

/// A connection begins by asking the host for the credentials.
pub proof fn law_connections_ask_first(begun: (ClientStage, ClientAction), request: AuthRequest)
    requires
        call_ensures(begin_client, (), begun),
        call_ensures(login_params, (), request),
    ensures
        begun.0 == ClientStage::Asking,
        begun.1@ == ClientActionView::AskHost(AuthRequestView::Login),
        request is Login,
{
}

/// What one connection takes next: with credentials it is served, without them, when it was
/// served and when it is told to end, its server is stopped; and then it has ended as it did,
/// unless the server could not be stopped.
pub proof fn law_course_of_a_connection(
    stage: ClientStage,
    event: ClientEvent,
    next: (ClientStage, ClientAction),
)
    requires
        call_ensures(serve_client, (stage, event), next),
    ensures
        stage is Asking ==> {
            &&& (event matches ClientEvent::LoggedIn(Ok(login)) ==> next.0 is Serving && next.1@
                == ClientActionView::Serve(login@))
            &&& (event matches ClientEvent::LoggedIn(Err(error)) ==> next.0
                == ClientStage::Stopping(Err::<Exit, Error>(error)) && next.1@ is StopServer)
        },
        stage is Serving ==> (event matches ClientEvent::Served(result) ==> next.0
            == ClientStage::Stopping(result) && next.1@ is StopServer),
        (stage is Asking || stage is Serving) && event is Cancelled ==> next.0
            == ClientStage::Stopping(Ok::<Exit, Error>(Exit::Disconnected)) && next.1@
            is StopServer,
        stage matches ClientStage::Stopping(result) ==> (
        event matches ClientEvent::Stopped(stopped) ==> next.0 is Ended && next.1@
            == ClientActionView::Finish(
            if result is Err {
                result
            } else if stopped is Err {
                Err::<Exit, Error>(stopped->Err_0)
            } else {
                result
            },
        )),
{
}

/// What a connection came to is its own end, unless only its server could not be stopped.
pub proof fn law_outcome_of_a_connection(
    result: Result<Exit, Error>,
    stopped: Result<(), Error>,
    outcome: Result<Exit, Error>,
)
    requires
        call_ensures(client_result, (result, stopped), outcome),
    ensures
        result is Err ==> outcome == result,
        result is Ok && stopped is Ok ==> outcome == result,
        result is Ok && stopped is Err ==> outcome == Err::<Exit, Error>(stopped->Err_0),
{
}

/// At first no connection is open and none was; one is accepted, the deadline counts, and no
/// end is awaited.
pub proof fn law_connections_begin(begun: (Connections, ServeAction))
    requires
        call_ensures(Connections::new, (), begun),
    ensures
        begun.0@ == (ConnectionsView { stage: ServeStage::Serving, clients: 0, connected: false }),
        begun.1 == (ServeAction::Await { accept: true, deadline: true, client: false }),
{
}

/// Up to four connections are served at once. One that is accepted gets a server; one whose
/// server runs is counted and ends the deadline; one that goes away makes room and leaves the
/// others alone.
pub proof fn law_connections_come_and_go(
    connections: &mut Connections,
    event: ServeEvent,
    action: ServeAction,
)
    requires
        call_ensures(Connections::serve_connections, (connections, event), action),
        old(connections)@.wf(),
        old(connections)@.expects(event),
    ensures
        final(connections)@.clients <= 4,
        old(connections)@.stage is Serving && event is Accepted ==> {
            &&& action is StartServer
            &&& old(connections)@.clients < 4
            &&& final(connections)@ == (ConnectionsView {
                stage: ServeStage::Starting,
                ..old(connections)@
            })
        },
        old(connections)@.stage is Starting && event == ServeEvent::Started(Ok::<(), Error>(()))
            ==> {
            &&& final(connections)@ == (ConnectionsView {
                stage: ServeStage::Serving,
                clients: old(connections)@.clients + 1,
                connected: true,
            })
            &&& action == (ServeAction::Await {
                accept: old(connections)@.clients + 1 < 4,
                deadline: false,
                client: true,
            })
        },
        old(connections)@.stage is Serving && event == ServeEvent::ClientEnded(
            Ok::<Exit, Error>(Exit::Disconnected),
        ) ==> {
            &&& final(connections)@.clients == old(connections)@.clients - 1
            &&& final(connections)@.stage is Serving
            &&& action == (ServeAction::Await {
                accept: true,
                deadline: false,
                client: old(connections)@.clients > 1,
            })
        },
{
}

/// What ends the service, and with what: the end of the run and a logout end it well, and a
/// deadline, a failure to accept, to start a server or of a connection ends it with that. While
/// connections are open they are told to end and awaited.
pub proof fn law_connections_are_ended(
    connections: &mut Connections,
    event: ServeEvent,
    action: ServeAction,
)
    requires
        call_ensures(Connections::serve_connections, (connections, event), action),
        old(connections)@.wf(),
        old(connections)@.expects(event),
    ensures
        old(connections)@.stage is Serving && event is Stopped ==> ends(
            final(connections)@,
            action,
            old(connections)@.clients as int,
            Ok(()),
        ),
        old(connections)@.stage is Serving && event is DeadlinePassed ==> ends(
            final(connections)@,
            action,
            old(connections)@.clients as int,
            Err(Error::TerminalNotConnected),
        ),
        old(connections)@.stage is Serving ==> (event matches ServeEvent::AcceptFailed(error)
            ==> ends(
            final(connections)@,
            action,
            old(connections)@.clients as int,
            Err(error),
        )),
        old(connections)@.stage is Starting ==> (event matches ServeEvent::Started(Err(error))
            ==> ends(
            final(connections)@,
            action,
            old(connections)@.clients as int,
            Err(error),
        )),
        old(connections)@.stage is Serving && event == ServeEvent::ClientEnded(
            Ok::<Exit, Error>(Exit::LoggedOut),
        ) ==> ends(final(connections)@, action, old(connections)@.clients - 1, Ok(())),
        old(connections)@.stage is Serving ==> (event matches ServeEvent::ClientEnded(Err(error))
            ==> ends(final(connections)@, action, old(connections)@.clients - 1, Err(error))),
        old(connections)@.stage is Serving && event is ClientLost ==> ends(
            final(connections)@,
            action,
            old(connections)@.clients - 1,
            Err(Error::ConnectionTaskFailed),
        ),
{
}

/// While the service ends, the connections are awaited one by one, and the first failure is
/// what it comes to.
pub proof fn law_connections_are_awaited(
    connections: &mut Connections,
    event: ServeEvent,
    action: ServeAction,
)
    requires
        call_ensures(Connections::serve_connections, (connections, event), action),
        old(connections)@.wf(),
        old(connections)@.expects(event),
        old(connections)@.stage is Draining,
    ensures
        ({
            let before = old(connections)@.stage->Draining_0;
            let left = old(connections)@.clients - 1;
            &&& before is Err ==> ends(final(connections)@, action, left, before)
            &&& before is Ok ==> {
                &&& (event matches ServeEvent::ClientEnded(Ok(_)) ==> ends(
                    final(connections)@,
                    action,
                    left,
                    Ok(()),
                ))
                &&& (event matches ServeEvent::ClientEnded(Err(error)) ==> ends(
                    final(connections)@,
                    action,
                    left,
                    Err(error),
                ))
                &&& event is ClientLost ==> ends(
                    final(connections)@,
                    action,
                    left,
                    Err(Error::ConnectionTaskFailed),
                )
            }
        }),
{
}

/// Whether the service is over with a result, or awaits so many connections that were told to
/// end.
pub open spec fn ends(
    connections: ConnectionsView,
    action: ServeAction,
    clients: int,
    result: Result<(), Error>,
) -> bool {
    &&& connections.clients == clients
    &&& clients == 0 ==> connections.stage is Ended && action == ServeAction::Finish(result)
    &&& clients > 0 ==> connections.stage == ServeStage::Draining(result) && action
        == ServeAction::Drain
}

/// Whom a connection waits for: the terminal before it introduces itself and before it says
/// that it is ready, the server for an answer, both while it runs, and the host where that was
/// asked; a question of its own keeps its time while the host is asked.
pub proof fn law_whom_a_connection_waits_for(bridge: &Bridge, wait: Wait)
    requires
        call_ensures(Bridge::wait, (bridge,), wait),
    ensures
        wait == Wait::Ui <==> bridge@.phase is AwaitInitialize || bridge@.phase is AwaitInitialized,
        wait == Wait::Coding <==> bridge@.phase is Initialize || bridge@.phase is ReadConfig
            || bridge@.phase is LogIn,
        wait == Wait::Either <==> bridge@.phase is Running,
        wait == Wait::Private <==> bridge@.phase is Checking,
        wait == Wait::PrivateHost <==> (bridge@.phase matches PhaseView::Refresh { check, .. }
            && check is Some),
        wait == Wait::Host <==> bridge@.phase is LogOut || (
        bridge@.phase matches PhaseView::Refresh { check, .. } && check is None),
        wait == Wait::Nothing <==> bridge@.phase is Ended,
{
}

/// The time for an answer begins anew when the server is sent something, but not for a token
/// that it asked for in the middle of a question.
pub proof fn law_time_begins_anew(waited: Wait, sent: bool, renews: bool)
    requires
        call_ensures(renews_deadline, (waited, sent), renews),
    ensures
        !sent ==> !renews,
        sent ==> (renews <==> waited != Wait::PrivateHost),
{
}

/// A connection begins with a terminal that has yet to introduce itself, no request that is
/// pending, and the credentials and the directory that it is given.
pub proof fn law_bridges_begin(login: Json, cwd: Option<String>, bridge: Bridge)
    requires
        call_ensures(Bridge::new, (login, cwd), bridge),
    ensures
        bridge@.phase is AwaitInitialize,
        bridge@.client.len() == 0,
        bridge@.server.len() == 0,
        bridge@.initial_login == login@,
        cwd is None ==> bridge@.cwd is None,
        cwd is Some ==> bridge@.cwd == Some(cwd->0@),
{
}

/// A frame that could not be sent counts where the connection did not end for want of an
/// initialization.
pub proof fn law_unsent_frames_count(
    finish: Result<Exit, Error>,
    unsent: Option<Error>,
    result: Result<Exit, Error>,
)
    requires
        call_ensures(ended, (finish, unsent), result),
    ensures
        unsent is None ==> result == finish,
        finish == Err::<Exit, Error>(Error::InitializationFailed) ==> result == finish,
        unsent is Some && finish != Err::<Exit, Error>(Error::InitializationFailed) ==> result
            == Err::<Exit, Error>(unsent->0),
{
}

/// A lock that somebody else has is tried again until the time is up.
pub proof fn law_locks_are_tried_again(attempt: LockAttempt, next: LockNext)
    requires
        call_ensures(wait_for_profile_lock, (attempt,), next),
    ensures
        next is Go <==> attempt is Acquired,
        next is Retry <==> attempt is Busy,
        attempt matches LockAttempt::Failed(error) ==> next == LockNext::Failed(error),
        attempt is TimedOut ==> next == LockNext::Failed(Error::ProfileBusy),
{
}

/// A record of children that cannot be cleared is looked at again, fifty times.
pub proof fn law_records_are_looked_at_again(
    retries: usize,
    outcome: Result<(), Error>,
    next: ClearStep,
)
    requires
        call_ensures(clear_runtime, (retries, outcome), next),
    ensures
        outcome is Ok <==> next is Done,
        outcome is Err && retries < 50 ==> next is Retry,
        outcome is Err && retries >= 50 ==> next == ClearStep::Failed(outcome->Err_0),
{
}

/// Of two results, and of work and the tidying up after it, the first failure counts; what was
/// found is handed on where nothing failed.
pub proof fn law_failures_are_told_in_order<T>(
    result: Result<T, Error>,
    stopped: Result<(), Error>,
    cleared: Result<(), Error>,
    settlement: Result<T, Error>,
    both: Result<(), Error>,
)
    requires
        call_ensures(settle::<T>, (result, stopped, cleared), settlement),
        call_ensures(combine, (stopped, cleared), both),
    ensures
        result is Err ==> settlement == result,
        result is Ok && stopped is Err ==> settlement == Err::<T, Error>(stopped->Err_0),
        result is Ok && stopped is Ok && cleared is Err ==> settlement == Err::<T, Error>(
            cleared->Err_0,
        ),
        result is Ok && stopped is Ok && cleared is Ok ==> settlement == result,
        stopped is Err ==> both == stopped,
        stopped is Ok ==> both == cleared,
{
}

/// A helper is replaced step by step: the old one is stopped, a new one started and introduced;
/// the first failure ends it.
pub proof fn law_helpers_are_replaced(
    stage: RestartStage,
    event: RestartEvent,
    next: (RestartStage, RestartAction),
)
    requires
        call_ensures(restart, (stage, event), next),
        !(stage is Ended),
    ensures
        stage is Stopping && event is Done ==> next == (
            RestartStage::Starting,
            RestartAction::Start,
        ),
        stage is Starting && event is Done ==> next == (
            RestartStage::Introducing,
            RestartAction::Introduce,
        ),
        stage is Introducing && event is Done ==> next == (
            RestartStage::Ended,
            RestartAction::Finish(Ok::<(), Error>(())),
        ),
        event matches RestartEvent::Failed(error) ==> next == (
            RestartStage::Ended,
            RestartAction::Finish(Err::<(), Error>(error)),
        ),
{
}

/// A command begins by locating the profiles, and stays the one that was asked for.
pub proof fn law_commands_begin(command: Action, execution: Execution)
    requires
        call_ensures(Execution::new, (command,), execution),
    ensures
        execution@.command == command@,
        execution@.stage is Locating,
{
}

/// The times that are given, in seconds or where so said in milliseconds, and the limits that
/// are kept.
pub proof fn law_times_and_limits()
    ensures
        crate::auth::LOGIN_TIMEOUT == 600,
        crate::auth::REFRESH_TIMEOUT == 7,
        crate::codex::VERSION_TIMEOUT == 10,
        crate::flow::LOCK_TIMEOUT == 7,
        crate::flow::RETRY_PAUSE == 20,
        crate::flow::BROWSER_TIMEOUT == 5,
        crate::flow::CANCEL_TIMEOUT == 3,
        crate::host::HOST_TIMEOUT == 7,
        crate::process::WATCH_PAUSE == 20,
        crate::rpc::MAX_FRAME == 134217728,
        crate::rpc::MAX_PENDING == 128,
        crate::rpc::RPC_TIMEOUT == 30,
        crate::rpc::SHUTDOWN_TIMEOUT == 5,
        crate::session::CONNECT_TIMEOUT == 30,
        crate::terminal::FINISH_TIMEOUT == 5,
        crate::terminal::TERMINATE_TIMEOUT == 3,
{
}

} // verus!
