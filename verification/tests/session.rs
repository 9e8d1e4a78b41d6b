use base64::engine::general_purpose::URL_SAFE_NO_PAD;
use base64::Engine;
use coduck::auth::Token;
use coduck::bridge::{host_request, AuthRequest, Exit};
use coduck::error::Error;
use coduck::host::{AuthHost, HostAction, HostEvent, HostStep, HOST_TIMEOUT};
use coduck::json::Json;
use coduck::session::{
    begin_client, client_result, run, run_terminal, serve_client, ClientAction, ClientEvent,
    ClientStage, Connections, RunAction, RunEvent, RunStage, ServeAction, ServeEvent, WatchAction,
    WatchEvent, WatchStage, MAX_CLIENTS,
};

fn token(account: &str, plan: &str) -> Token {
    let claims = format!(
        "{{\"exp\":1000,\"https://api.openai.com/auth\":{{\"chatgpt_account_id\":\"{account}\",\
         \"user_id\":\"user\",\"chatgpt_plan_type\":\"{plan}\"}}}}"
    );
    let secret = format!("e30.{}.signature", URL_SAFE_NO_PAD.encode(claims));
    Token::parse(secret, 100).ok().unwrap()
}

fn named(name: &str) -> Option<String> {
    Some(name.to_owned())
}

#[test]
fn a_run_verifies_before_it_serves() {
    let (stage, action) = run(RunStage::Opening, RunEvent::Done);
    assert!(matches!(action, RunAction::VerifyProfile));
    let (stage, action) = run(stage, RunEvent::Done);
    assert!(matches!(action, RunAction::FinishAuth));
    let (stage, action) = run(stage, RunEvent::Finished { stopped: Ok(()), cleared: Ok(()) });
    assert!(matches!(action, RunAction::Listen));
    let (stage, action) = run(stage, RunEvent::Done);
    assert!(matches!(action, RunAction::SpawnTerminal));
    let (stage, action) = run(stage, RunEvent::Done);
    assert!(matches!(action, RunAction::Serve));
    let (stage, action) = run(stage, RunEvent::Served(Ok(named("id"))));
    assert!(matches!(action, RunAction::ShutdownTerminal));
    let (_, action) = run(stage, RunEvent::Done);
    assert!(matches!(action, RunAction::Finish(Ok(Some(id))) if id == "id"));
}

fn failure(action: RunAction) -> Error {
    match action {
        RunAction::Finish(Err(error)) => error,
        _ => panic!("the run goes on"),
    }
}

#[test]
fn a_run_that_fails_is_closed() {
    let event = || RunEvent::Failed(Error::Interrupted);
    for stage in [RunStage::Opening, RunStage::Listening, RunStage::Spawning] {
        assert_eq!(failure(run(stage, event()).1), Error::Interrupted);
    }
    let (stage, action) = run(RunStage::Verifying, RunEvent::Failed(Error::NotManaged));
    assert!(matches!(action, RunAction::FinishAuth));
    let finished = RunEvent::Finished {
        stopped: Err(Error::ShutdownFailed),
        cleared: Err(Error::ChildMayBeRunning),
    };
    assert_eq!(failure(run(stage, finished).1), Error::NotManaged);
    let finished =
        RunEvent::Finished { stopped: Ok(()), cleared: Err(Error::ChildMayBeRunning) };
    let (_, action) = run(RunStage::Finishing(Ok(())), finished);
    assert_eq!(failure(action), Error::ChildMayBeRunning);
    let (stage, action) = run(RunStage::Serving, RunEvent::Served(Err(Error::Disconnected)));
    assert!(matches!(action, RunAction::TerminateTerminal));
    let (_, action) = run(stage, RunEvent::Failed(Error::CannotSignal));
    assert_eq!(failure(action), Error::Disconnected);
    let (_, action) =
        run(RunStage::Closing(Ok(named("id"))), RunEvent::Failed(Error::TerminalNotFinished));
    assert_eq!(failure(action), Error::TerminalNotFinished);
}

#[test]
fn an_interrupt_belongs_to_the_terminal() {
    let (stage, action) =
        run_terminal(WatchStage::Watching, WatchEvent::Signal { interrupt: true });
    assert!(matches!(action, WatchAction::Interrupt));
    let (stage, action) = run_terminal(stage, WatchEvent::Interrupted(Ok(())));
    assert!(matches!(action, WatchAction::Watch));
    let (stage, action) = run_terminal(stage, WatchEvent::Signal { interrupt: false });
    assert!(matches!(action, WatchAction::AwaitConnections));
    let (stage, action) = run_terminal(stage, WatchEvent::Connections(Err(Error::ReadFailed)));
    assert!(matches!(action, WatchAction::AwaitAuthentication));
    let (_, action) = run_terminal(stage, WatchEvent::Authentication(Ok(())));
    assert!(matches!(action, WatchAction::Finish(Err(Error::Interrupted))));
}

#[test]
fn whatever_ends_first_the_rest_is_awaited() {
    let (stage, action) = run_terminal(WatchStage::Watching, WatchEvent::Connections(Ok(())));
    assert!(matches!(action, WatchAction::AwaitAuthentication));
    let (_, action) = run_terminal(stage, WatchEvent::Authentication(Err(Error::ReadFailed)));
    assert!(matches!(action, WatchAction::Finish(Err(Error::ReadFailed))));
    let (stage, action) = run_terminal(WatchStage::Watching, WatchEvent::Authentication(Ok(())));
    assert!(matches!(action, WatchAction::AwaitConnections));
    let (_, action) = run_terminal(stage, WatchEvent::Connections(Ok(())));
    assert!(matches!(action, WatchAction::Finish(Ok(()))));
    for (event, error) in [
        (WatchEvent::Terminal(Ok(false)), Error::TerminalUnsuccessful),
        (WatchEvent::Terminal(Err(Error::CannotObserveExit)), Error::CannotObserveExit),
    ] {
        let (stage, _) = run_terminal(WatchStage::Watching, event);
        let (stage, _) = run_terminal(stage, WatchEvent::Connections(Ok(())));
        match run_terminal(stage, WatchEvent::Authentication(Ok(()))).1 {
            WatchAction::Finish(result) => assert_eq!(result, Err(error)),
            _ => panic!("the watch goes on"),
        }
    }
    let (stage, _) = run_terminal(WatchStage::Watching, WatchEvent::Terminal(Ok(true)));
    assert!(matches!(
        stage,
        WatchStage::AwaitConnections { result: Ok(()), authenticated: false }
    ));
    let lost = WatchEvent::Interrupted(Err(Error::CannotSignal));
    let (stage, _) = run_terminal(WatchStage::Interrupting, lost);
    assert!(matches!(
        stage,
        WatchStage::AwaitConnections { result: Err(Error::CannotSignal), .. }
    ));
}

fn connect(connections: &mut Connections) -> ServeAction {
    let action = connections.serve_connections(ServeEvent::Accepted);
    assert!(matches!(action, ServeAction::StartServer));
    connections.serve_connections(ServeEvent::Started(Ok(())))
}

#[test]
fn connections_end_independently_and_are_bounded() {
    let (mut connections, action) = Connections::new();
    assert!(matches!(
        action,
        ServeAction::Await { accept: true, deadline: true, client: false }
    ));
    for n in 1..=MAX_CLIENTS {
        match connect(&mut connections) {
            ServeAction::Await { accept, deadline, client } => {
                assert_eq!(accept, n < MAX_CLIENTS);
                assert!(!deadline && client);
            }
            _ => panic!("the connections are not awaited"),
        }
    }
    let gone = || ServeEvent::ClientEnded(Ok(Exit::Disconnected));
    for n in 1..=MAX_CLIENTS {
        match connections.serve_connections(gone()) {
            ServeAction::Await { accept, deadline, client } => {
                assert!(accept && !deadline);
                assert_eq!(client, n < MAX_CLIENTS);
            }
            _ => panic!("the connections are not awaited"),
        }
    }
    connect(&mut connections);
    assert!(matches!(
        connections.serve_connections(ServeEvent::Stopped),
        ServeAction::Drain
    ));
    assert!(matches!(
        connections.serve_connections(gone()),
        ServeAction::Finish(Ok(()))
    ));
}

#[test]
fn a_logout_on_one_connection_ends_the_others() {
    let (mut connections, _) = Connections::new();
    connect(&mut connections);
    connect(&mut connections);
    connect(&mut connections);
    let logged_out = ServeEvent::ClientEnded(Ok(Exit::LoggedOut));
    assert!(matches!(connections.serve_connections(logged_out), ServeAction::Drain));
    let failed = ServeEvent::ClientEnded(Err(Error::ReadFailed));
    assert!(matches!(connections.serve_connections(failed), ServeAction::Drain));
    assert!(matches!(
        connections.serve_connections(ServeEvent::ClientLost),
        ServeAction::Finish(Err(Error::ReadFailed))
    ));
}

#[test]
fn what_ends_the_serving_of_connections() {
    for (event, error) in [
        (ServeEvent::DeadlinePassed, Error::TerminalNotConnected),
        (ServeEvent::AcceptFailed(Error::Outside("x".to_owned())), Error::Outside("x".to_owned())),
    ] {
        let (mut connections, _) = Connections::new();
        match connections.serve_connections(event) {
            ServeAction::Finish(result) => assert_eq!(result, Err(error)),
            _ => panic!("the serving goes on"),
        }
    }
    let (mut connections, _) = Connections::new();
    connections.serve_connections(ServeEvent::Accepted);
    assert!(matches!(
        connections.serve_connections(ServeEvent::Started(Err(Error::CannotStartServer))),
        ServeAction::Finish(Err(Error::CannotStartServer))
    ));
    let (mut connections, _) = Connections::new();
    connect(&mut connections);
    assert!(matches!(
        connections.serve_connections(ServeEvent::ClientLost),
        ServeAction::Finish(Err(Error::ConnectionTaskFailed))
    ));
}

#[test]
fn a_connection_whose_server_stays_is_a_failure() {
    assert_eq!(client_result(Ok(Exit::LoggedOut), Ok(())), Ok(Exit::LoggedOut));
    assert_eq!(
        client_result(Ok(Exit::Disconnected), Err(Error::ShutdownFailed)),
        Err(Error::ShutdownFailed)
    );
    assert_eq!(
        client_result(Err(Error::ReadFailed), Err(Error::ShutdownFailed)),
        Err(Error::ReadFailed)
    );
}

fn serving() -> ClientStage {
    let (stage, action) = begin_client();
    assert!(matches!(action, ClientAction::AskHost(AuthRequest::Login)));
    match serve_client(stage, ClientEvent::LoggedIn(Ok(Json::text("login")))) {
        (stage, ClientAction::Serve(login)) => {
            assert!(login.is_text("login"));
            stage
        }
        _ => panic!("the connection is not served"),
    }
}

fn stopping(stage: ClientStage, event: ClientEvent) -> ClientStage {
    let (stage, action) = serve_client(stage, event);
    assert!(matches!(action, ClientAction::StopServer));
    stage
}

fn ended(stage: ClientStage, stopped: Result<(), Error>) -> Result<Exit, Error> {
    match serve_client(stage, ClientEvent::Stopped(stopped)) {
        (ClientStage::Ended, ClientAction::Finish(result)) => result,
        _ => panic!("the connection goes on"),
    }
}

#[test]
fn a_connection_ends_only_when_its_server_was_stopped() {
    for exit in [Exit::Disconnected, Exit::LoggedOut] {
        let stage = stopping(serving(), ClientEvent::Served(Ok(exit)));
        assert_eq!(ended(stage, Ok(())), Ok(exit));
    }
    let stage = stopping(serving(), ClientEvent::Served(Err(Error::ReadFailed)));
    assert_eq!(ended(stage, Err(Error::ShutdownFailed)), Err(Error::ReadFailed));
    let stage = stopping(serving(), ClientEvent::Cancelled);
    assert_eq!(ended(stage, Err(Error::ShutdownFailed)), Err(Error::ShutdownFailed));
    let refused = ClientEvent::LoggedIn(Err(Error::HostTimedOut));
    assert_eq!(ended(stopping(begin_client().0, refused), Ok(())), Err(Error::HostTimedOut));
    let stage = stopping(begin_client().0, ClientEvent::Cancelled);
    assert_eq!(ended(stage, Ok(())), Ok(Exit::Disconnected));
}

#[test]
fn a_whole_service_ends_well_when_nothing_fails() {
    for stop in [false, true] {
        let (mut connections, _) = Connections::new();
        let mut open = Vec::new();
        for _ in 0..3 {
            connect(&mut connections);
            open.push(serving());
        }
        let gone = stopping(open.remove(0), ClientEvent::Served(Ok(Exit::Disconnected)));
        assert!(matches!(
            connections.serve_connections(ServeEvent::ClientEnded(ended(gone, Ok(())))),
            ServeAction::Await { accept: true, deadline: false, client: true }
        ));
        let event = if stop {
            ServeEvent::Stopped
        } else {
            let left = stopping(open.remove(0), ClientEvent::Served(Ok(Exit::LoggedOut)));
            ServeEvent::ClientEnded(ended(left, Ok(())))
        };
        let mut action = connections.serve_connections(event);
        while let Some(stage) = open.pop() {
            assert!(matches!(action, ServeAction::Drain));
            let result = ended(stopping(stage, ClientEvent::Cancelled), Ok(()));
            action = connections.serve_connections(ServeEvent::ClientEnded(result));
        }
        assert!(matches!(action, ServeAction::Finish(Ok(()))));
    }
}

#[test]
fn a_server_that_stays_spoils_the_end() {
    let (mut connections, _) = Connections::new();
    connect(&mut connections);
    let open = serving();
    assert!(matches!(connections.serve_connections(ServeEvent::Stopped), ServeAction::Drain));
    let result = ended(stopping(open, ClientEvent::Cancelled), Err(Error::ShutdownTimedOut));
    assert!(matches!(
        connections.serve_connections(ServeEvent::ClientEnded(result)),
        ServeAction::Finish(Err(Error::ShutdownTimedOut))
    ));
}

fn begin(host: &mut AuthHost, request: AuthRequest) -> HostStep {
    assert!(matches!(
        host.serve_auth(HostEvent::Request(request)).action,
        HostAction::Open { .. }
    ));
    assert!(matches!(host.serve_auth(HostEvent::Done).action, HostAction::Initialize));
    host.serve_auth(HostEvent::Done)
}

fn refresh() -> AuthRequest {
    AuthRequest::Refresh { params: Json::object().with("reason", Json::text("unauthorized")) }
}

fn reply(step: HostStep) -> Result<Json, Error> {
    assert!(matches!(step.action, HostAction::FinishAuth));
    step.reply.unwrap()
}

#[test]
fn a_host_serves_one_account() {
    let mut host = AuthHost::new(token("account", "plus"));
    let step = begin(&mut host, AuthRequest::Login);
    assert!(step.reply.is_none());
    assert!(matches!(step.action, HostAction::VerifyProfile));
    let params = reply(host.serve_auth(HostEvent::Token(token("account", "pro")))).unwrap();
    assert!(params.at("type").is_text("chatgptAuthTokens"));
    assert!(params.at("chatgptPlanType").is_text("pro"));
    assert!(matches!(host.serve_auth(HostEvent::Done).action, HostAction::Listen));
    begin(&mut host, AuthRequest::Login);
    let refused = reply(host.serve_auth(HostEvent::Token(token("other", "pro"))));
    assert_eq!(refused.err(), Some(Error::IdentityChanged));
    host.serve_auth(HostEvent::Done);
    assert!(matches!(
        host.serve_auth(HostEvent::Stopped).action,
        HostAction::Finish(Ok(()))
    ));
}

#[test]
fn a_host_hands_out_fresh_tokens_once_they_are_remembered() {
    let mut host = AuthHost::new(token("account", "plus"));
    let step = begin(&mut host, refresh());
    assert!(matches!(step.action, HostAction::AskToken));
    let step = host.serve_auth(HostEvent::Token(token("account", "pro")));
    assert!(step.reply.is_none());
    assert!(matches!(
        step.action,
        HostAction::SaveIdentity(identity) if identity.plan_type == "pro"
    ));
    let result = reply(host.serve_auth(HostEvent::Done)).unwrap();
    assert!(result.at("chatgptPlanType").is_text("pro"));
    assert!(!result.has("type"));
    host.serve_auth(HostEvent::Done);
    begin(&mut host, refresh());
    let refused = reply(host.serve_auth(HostEvent::Token(token("account", "pro"))));
    assert_eq!(refused.err(), Some(Error::TokenNotRefreshed));
    host.serve_auth(HostEvent::Done);
    let refused = reply(begin(&mut host, AuthRequest::Refresh { params: Json::Null }));
    assert_eq!(refused.err(), Some(Error::UnsupportedRefresh));
}

#[test]
fn a_logout_is_the_last_request_of_a_host() {
    let mut host = AuthHost::new(token("account", "plus"));
    let step = host.serve_auth(HostEvent::Request(AuthRequest::Logout));
    assert!(matches!(step.action, HostAction::Open { logout: true }));
    host.serve_auth(HostEvent::Done);
    assert!(matches!(host.serve_auth(HostEvent::Done).action, HostAction::LogOut));
    assert_eq!(reply(host.serve_auth(HostEvent::Done)), Ok(Json::object()));
    assert!(matches!(host.serve_auth(HostEvent::Done).action, HostAction::AwaitStop));
    assert!(matches!(
        host.serve_auth(HostEvent::Stopped).action,
        HostAction::Finish(Ok(()))
    ));
}

#[test]
fn a_host_that_fails_answers_and_goes_on() {
    let mut host = AuthHost::new(token("account", "plus"));
    let step = host.serve_auth(HostEvent::Request(AuthRequest::Login));
    assert!(matches!(step.action, HostAction::Open { logout: false }));
    let step = host.serve_auth(HostEvent::Failed(Error::ProfileBusy));
    assert_eq!(step.reply, Some(Err(Error::ProfileBusy)));
    assert!(matches!(step.action, HostAction::Listen));
    host.serve_auth(HostEvent::Request(AuthRequest::Login));
    let step = host.serve_auth(HostEvent::TimedOut);
    assert_eq!(step.reply, Some(Err(Error::AuthenticationTimedOut)));
    begin(&mut host, AuthRequest::Login);
    let refused = reply(host.serve_auth(HostEvent::TimedOut));
    assert_eq!(refused.err(), Some(Error::AuthenticationTimedOut));
    assert!(matches!(
        host.serve_auth(HostEvent::Failed(Error::ChildMayBeRunning)).action,
        HostAction::Finish(Err(Error::ChildMayBeRunning))
    ));
    let mut host = AuthHost::new(token("account", "plus"));
    begin(&mut host, AuthRequest::Logout);
    let refused = reply(host.serve_auth(HostEvent::Failed(Error::StillSignedIn)));
    assert_eq!(refused.err(), Some(Error::StillSignedIn));
    assert!(matches!(host.serve_auth(HostEvent::Done).action, HostAction::Listen));
    assert!(matches!(
        host.serve_auth(HostEvent::Closed).action,
        HostAction::Finish(Ok(()))
    ));
}

#[test]
fn a_host_gives_up_before_it_is_given_up() {
    for request in [AuthRequest::Login, refresh(), AuthRequest::Logout] {
        assert!(HOST_TIMEOUT < host_request(&request));
    }
}
