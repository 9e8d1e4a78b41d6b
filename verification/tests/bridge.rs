use coduck::bridge::{
    auth_response, changes_auth_routing, host_request, login_params, managed_method,
    prepare_params, read_ui, request_id, rpc_error, rpc_result, safe_thread_id, select_thread,
    sensitive_key, thread_method, validate_config, write_ui, AuthRequest, Exit, UiMessage,
    UiReceived,
};
use coduck::error::Error;
use coduck::json::Json;
use coduck::relay::{ended, renews_deadline, Bridge, Event, Wait};
use coduck::rpc::{FrameReader, Rpc, MAX_FRAME, MAX_PENDING};

fn json(text: &str) -> Json {
    let line = format!("{text}\n");
    FrameReader::new().read_frame(line.as_bytes()).unwrap().frame.unwrap()
}

// the same value, whatever the order of its members.
fn same(a: &Json, b: &Json) -> bool {
    Rpc::send(a).unwrap() == Rpc::send(b).unwrap()
}

fn shown(value: &Json) -> String {
    write_ui(value).unwrap()
}

fn method(frame: &Json) -> &str {
    frame.at("method").as_text().unwrap()
}

// the ends of a connection, with what has been sent to each.
struct Ends {
    bridge: Bridge,
    rpc: Rpc,
    ui: Vec<Json>,
    server: Vec<Json>,
    host: Vec<AuthRequest>,
    session: Option<String>,
    finish: Option<Result<Exit, Error>>,
}

impl Ends {
    fn new() -> Ends {
        let login = json("{\"type\":\"chatgptAuthTokens\",\"accessToken\":\"private-token\",\"chatgptAccountId\":\"account\"}");
        Ends {
            bridge: Bridge::new(login, Some("/work".to_owned())),
            rpc: Rpc::connect(None),
            ui: Vec::new(),
            server: Vec::new(),
            host: Vec::new(),
            session: None,
            finish: None,
        }
    }

    fn event(&mut self, event: Event) {
        let step = self.bridge.run(&mut self.rpc, event);
        if step.session.is_some() {
            self.session = step.session;
        }
        self.server.extend(step.coding);
        self.ui.extend(step.ui);
        self.host.extend(step.host);
        if step.finish.is_some() {
            self.finish = step.finish;
        }
        while self.bridge.wait() == Wait::Either {
            match self.rpc.recv() {
                Some(frame) => self.event(Event::Coding(frame)),
                None => break,
            }
        }
    }

    fn from_ui(&mut self, frame: &str) {
        self.event(Event::Ui(json(frame)));
    }

    fn from_server(&mut self, frame: Json) {
        self.event(Event::Coding(frame));
    }

    fn at_server(&mut self) -> Json {
        self.server.remove(0)
    }

    fn at_ui(&mut self) -> Json {
        self.ui.remove(0)
    }

    fn answer(&mut self, request: &Json, result: &str) {
        self.from_server(rpc_result(request.at("id").clone(), json(result)));
    }

    fn close(mut self) {
        self.event(Event::UiClosed);
        assert_eq!(self.finish, Some(Ok(Exit::Disconnected)));
        assert_eq!(self.bridge.wait(), Wait::Nothing);
    }
}

const CONFIG: &str = "{\"config\":{\"cli_auth_credentials_store\":\"ephemeral\",\"chatgpt_base_url\":\"https://chatgpt.com/backend-api/\",\"model_providers\":{}}}";

fn start(login_succeeds: bool) -> Ends {
    let mut ends = Ends::new();
    assert_eq!(ends.bridge.wait(), Wait::Ui);
    ends.from_ui("{\"id\":1,\"method\":\"initialize\",\"params\":{\"clientInfo\":{\"name\":\"test-ui\",\"version\":\"1\"},\"capabilities\":{\"other\":true}}}");
    assert_eq!(ends.bridge.wait(), Wait::Coding);
    let initialize = ends.at_server();
    assert_eq!(method(&initialize), "initialize");
    assert!(initialize.at("params").at("clientInfo").at("name").is_text("test-ui"));
    let capabilities = initialize.at("params").at("capabilities");
    assert_eq!(capabilities.at("experimentalApi").as_bool(), Some(true));
    assert_eq!(capabilities.at("other").as_bool(), Some(true));
    ends.from_server(json("{\"method\":\"ready\",\"params\":{}}"));
    ends.answer(&initialize, "{\"userAgent\":\"test\"}");
    assert_eq!(method(&ends.at_server()), "initialized");
    let config = ends.at_server();
    assert_eq!(method(&config), "config/read");
    assert!(config.at("params").at("cwd").is_text("/work"));
    ends.answer(&config, CONFIG);
    let login = ends.at_server();
    assert_eq!(method(&login), "account/login/start");
    assert!(login.at("params").at("accessToken").is_text("private-token"));
    assert!(ends.ui.is_empty());
    if login_succeeds {
        ends.answer(&login, "{\"type\":\"chatgptAuthTokens\"}");
    } else {
        let error = json("{\"error\":{\"code\":-1,\"message\":\"private-token\"}}");
        ends.from_server(error.with("id", login.at("id").clone()));
    }
    let response = ends.at_ui();
    assert!(response.at("id").same_id(&Json::Unsigned(1)));
    if login_succeeds {
        assert!(response.at("result").at("userAgent").is_text("test"));
        assert_eq!(ends.bridge.wait(), Wait::Ui);
        ends.from_ui("{\"method\":\"initialized\"}");
        assert_eq!(method(&ends.at_ui()), "ready");
        assert_eq!(ends.bridge.wait(), Wait::Either);
    } else {
        assert!(response.has("error"));
        assert!(!shown(&response).contains("private-token"));
    }
    ends
}

#[test]
fn host_refresh_times_out_before_upstream_deadline() {
    let refresh = AuthRequest::Refresh { params: Json::object() };
    assert_eq!(host_request(&refresh), 8);
    assert_eq!(Error::HostTimedOut.message(), "authentication host timed out");
    assert_eq!(host_request(&login_params()), 8);
    assert_eq!(host_request(&AuthRequest::Logout), 30);
}

#[test]
fn blocks_auth_routing_overrides_but_allows_ordinary_settings() {
    for params in [
        "{\"config\":{\"model_providers\":{\"openai\":{\"base_url\":\"https://other.invalid\"}}}}",
        "{\"config\":{\"model_providers.openai.base_url\":\"https://other.invalid\"}}",
        "{\"modelProvider\":\"other\"}",
        "{\"config\":{\"profile\":\"custom\"}}",
        "{\"config\":{\"profiles\":{\"custom\":{\"model_provider\":\"other\"}}}}",
    ] {
        assert!(changes_auth_routing("thread/start", &json(params)));
    }
    assert!(changes_auth_routing(
        "config/batchWrite",
        &json("{\"edits\":[{\"keyPath\":\"model_reasoning_effort\",\"value\":\"high\"},{\"keyPath\":\"chatgpt_base_url\",\"value\":\"https://other.invalid\"}]}")
    ));
    assert!(changes_auth_routing(
        "config/value/write",
        &json("{\"keyPath\":\"cli_auth_credentials_store\",\"value\":\"file\"}")
    ));
    assert!(!changes_auth_routing(
        "config/value/write",
        &json("{\"keyPath\":\"model_reasoning_effort\",\"value\":\"high\"}")
    ));
    assert!(!changes_auth_routing(
        "thread/resume",
        &json("{\"modelProvider\":\"openai\",\"config\":{\"model_reasoning_effort\":\"high\"}}")
    ));
}

#[test]
fn continuation_tracks_only_successful_ui_thread_selections() {
    let mut ends = start(true);
    for name in ["thread/start", "thread/resume", "thread/fork"] {
        ends.from_ui(&format!(
            "{{\"id\":2,\"method\":\"{name}\",\"params\":{{\"threadId\":\"saved\"}}}}"
        ));
        if name != "thread/start" {
            let read = ends.at_server();
            assert_eq!(method(&read), "thread/read");
            ends.answer(&read, "{\"thread\":{\"modelProvider\":\"openai\",\"cwd\":\"/tmp\"}}");
            let config = ends.at_server();
            assert_eq!(method(&config), "config/read");
            ends.answer(&config, "{\"config\":{\"cli_auth_credentials_store\":\"ephemeral\",\"chatgpt_base_url\":\"https://chatgpt.com/backend-api/\"}}");
        }
        let request = ends.at_server();
        assert_eq!(method(&request), name);
        let selected = name.replace('/', "-");
        ends.answer(
            &request,
            &format!("{{\"thread\":{{\"id\":\"{selected}\",\"ephemeral\":false}}}}"),
        );
        assert!(ends.at_ui().at("id").same_id(&Json::Unsigned(2)));
        assert_eq!(ends.session.as_deref(), Some(selected.as_str()));
    }
    ends.from_server(json(
        "{\"method\":\"thread/started\",\"params\":{\"thread\":{\"id\":\"background-agent\"}}}",
    ));
    ends.at_ui();
    assert_eq!(ends.session.as_deref(), Some("thread-fork"));
    for response in [
        "{\"error\":{\"code\":-1,\"message\":\"failed\"}}",
        "{\"result\":{\"thread\":{\"id\":\"unsafe;command\",\"ephemeral\":false}}}",
        "{\"result\":{\"thread\":{\"id\":\"temporary-title\",\"ephemeral\":true,\"path\":null}}}",
        "{\"result\":{\"thread\":{\"id\":\"missing-persistence-marker\"}}}",
    ] {
        ends.from_ui("{\"id\":3,\"method\":\"thread/start\",\"params\":{}}");
        let request = ends.at_server();
        ends.from_server(json(response).with("id", request.at("id").clone()));
        ends.at_ui();
        assert_eq!(ends.session.as_deref(), Some("thread-fork"));
    }
    ends.close();
}

#[test]
fn ordinary_requests_can_run_longer_than_five_minutes() {
    let mut ends = start(true);
    ends.from_ui("{\"id\":2,\"method\":\"command/exec\",\"params\":{\"disableTimeout\":true}}");
    let request = ends.at_server();
    // no time limits what is awaited from either side.
    assert_eq!(ends.bridge.wait(), Wait::Either);
    assert!(ends.finish.is_none());
    ends.answer(&request, "{\"exitCode\":0}");
    assert!(ends.at_ui().at("id").same_id(&Json::Unsigned(2)));
    ends.close();
}

#[test]
fn missing_resume_target_returns_an_error_without_ending_the_session() {
    let mut ends = start(true);
    ends.from_ui("{\"id\":2,\"method\":\"thread/resume\",\"params\":{\"threadId\":\"deleted\"}}");
    assert_eq!(ends.bridge.wait(), Wait::Private);
    let read = ends.at_server();
    assert_eq!(method(&read), "thread/read");
    let error = json("{\"error\":{\"code\":-32602,\"message\":\"private upstream details\"}}");
    ends.from_server(error.with("id", read.at("id").clone()));
    let rejected = ends.at_ui();
    assert!(rejected.at("id").same_id(&Json::Unsigned(2)));
    assert!(rejected.at("error").at("message").as_text().unwrap().contains("unavailable"));
    assert!(!shown(&rejected).contains("private upstream details"));
    ends.from_ui("{\"id\":3,\"method\":\"account/read\",\"params\":{}}");
    let request = ends.at_server();
    assert_eq!(method(&request), "account/read");
    ends.answer(&request, "{\"account\":null}");
    assert!(same(&ends.at_ui(), &json("{\"id\":3,\"result\":{\"account\":null}}")));
    ends.close();
}

#[test]
fn resume_and_fork_validate_stored_directory_and_provider() {
    for (name, provider) in
        [("thread/resume", "openai"), ("thread/fork", "openai"), ("thread/resume", "other")]
    {
        let mut ends = start(true);
        ends.from_ui(&format!(
            "{{\"id\":2,\"method\":\"{name}\",\"params\":{{\"threadId\":\"saved-thread\"}}}}"
        ));
        let read = ends.at_server();
        assert_eq!(method(&read), "thread/read");
        assert!(same(
            read.at("params"),
            &json("{\"threadId\":\"saved-thread\",\"includeTurns\":false}")
        ));
        ends.answer(
            &read,
            &format!("{{\"thread\":{{\"cwd\":\"/saved-project\",\"modelProvider\":\"{provider}\"}}}}"),
        );
        if provider == "openai" {
            let config = ends.at_server();
            assert_eq!(method(&config), "config/read");
            assert!(config.at("params").at("cwd").is_text("/saved-project"));
            ends.answer(&config, "{\"config\":{\"model_provider\":\"other\"}}");
        }
        let response = ends.at_ui();
        assert!(response.at("id").same_id(&Json::Unsigned(2)));
        assert!(response.has("error"));
        ends.from_ui("{\"id\":3,\"method\":\"account/read\",\"params\":{}}");
        assert_eq!(method(&ends.at_server()), "account/read");
        ends.close();
    }
}

#[test]
fn routes_out_of_order_ids_and_server_requests_after_authentication() {
    let mut ends = start(true);
    ends.from_ui("{\"id\":1,\"method\":\"first\",\"params\":{}}");
    ends.from_ui("{\"id\":\"1\",\"method\":\"second\",\"params\":{}}");
    let first = ends.at_server();
    let second = ends.at_server();
    assert!(!first.at("id").same_id(second.at("id")));
    ends.answer(&second, "\"second\"");
    ends.answer(&first, "\"first\"");
    assert!(same(&ends.at_ui(), &json("{\"id\":\"1\",\"result\":\"second\"}")));
    assert!(same(&ends.at_ui(), &json("{\"id\":1,\"result\":\"first\"}")));
    ends.from_server(json("{\"id\":1,\"method\":\"approve\",\"params\":{}}"));
    let approval = ends.at_ui();
    let answer = rpc_result(approval.at("id").clone(), json("{\"approved\":true}"));
    ends.event(Event::Ui(answer));
    assert!(same(&ends.at_server(), &json("{\"id\":1,\"result\":{\"approved\":true}}")));
    ends.close();
}

#[test]
fn resolved_server_requests_keep_ui_ids_and_tolerate_late_answers() {
    let mut ends = start(true);
    ends.from_server(json("{\"id\":41,\"method\":\"approve\",\"params\":{}}"));
    let approval = ends.at_ui();
    ends.from_server(json("{\"method\":\"serverRequest/resolved\",\"params\":{\"threadId\":\"thread\",\"requestId\":41}}"));
    let resolved = ends.at_ui();
    assert!(resolved.at("params").at("requestId").same_id(approval.at("id")));
    ends.event(Event::Ui(rpc_result(approval.at("id").clone(), json("{\"approved\":true}"))));
    ends.from_ui("{\"id\":7,\"method\":\"account/read\",\"params\":{}}");
    assert_eq!(method(&ends.at_server()), "account/read");
    ends.from_server(json("{\"id\":42,\"method\":\"approve\",\"params\":{}}"));
    let approval = ends.at_ui();
    ends.event(Event::Ui(rpc_result(approval.at("id").clone(), Json::object())));
    assert!(ends.at_server().at("id").same_id(&Json::Unsigned(42)));
    ends.from_server(json("{\"method\":\"serverRequest/resolved\",\"params\":{\"threadId\":\"thread\",\"requestId\":42}}"));
    assert!(ends.at_ui().at("params").at("requestId").same_id(approval.at("id")));
    ends.close();
}

#[test]
fn private_config_read_services_token_refresh_and_preserves_other_events() {
    let mut ends = start(true);
    ends.from_ui("{\"id\":2,\"method\":\"thread/start\",\"params\":{\"cwd\":\"/tmp\"}}");
    let config = ends.at_server();
    assert_eq!(method(&config), "config/read");
    ends.from_server(json("{\"method\":\"updated\",\"params\":{}}"));
    ends.from_server(json("{\"id\":42,\"method\":\"account/chatgptAuthTokens/refresh\",\"params\":{\"reason\":\"unauthorized\"}}"));
    assert!(matches!(ends.host.remove(0), AuthRequest::Refresh { .. }));
    assert_eq!(ends.bridge.wait(), Wait::PrivateHost);
    ends.event(Event::Host(json(
        "{\"accessToken\":\"private-token\",\"chatgptAccountId\":\"account\"}",
    )));
    assert!(ends.at_server().at("id").same_id(&Json::Unsigned(42)));
    assert!(ends.ui.is_empty());
    ends.answer(&config, CONFIG);
    assert_eq!(method(&ends.at_server()), "thread/start");
    assert_eq!(method(&ends.at_ui()), "updated");
    ends.close();
}

#[test]
fn validates_effective_config_before_starting_thread_in_another_directory() {
    let mut ends = start(true);
    ends.from_ui("{\"id\":2,\"method\":\"thread/start\",\"params\":{\"cwd\":\"/tmp\"}}");
    let config = ends.at_server();
    assert_eq!(method(&config), "config/read");
    assert!(config.at("params").at("cwd").is_text("/tmp"));
    ends.answer(&config, "{\"config\":{\"model_provider\":\"other\"}}");
    let response = ends.at_ui();
    assert!(response.at("id").same_id(&Json::Unsigned(2)));
    assert!(response.has("error"));
    ends.from_ui("{\"id\":3,\"method\":\"account/read\",\"params\":{}}");
    assert_eq!(method(&ends.at_server()), "account/read");
    ends.close();
}

#[test]
fn refresh_and_logout_stay_with_host_and_token_methods_are_denied() {
    let mut ends = start(true);
    ends.from_server(json("{\"id\":4,\"method\":\"account/chatgptAuthTokens/refresh\",\"params\":{\"reason\":\"unauthorized\"}}"));
    match ends.host.remove(0) {
        AuthRequest::Refresh { params } => assert!(params.at("reason").is_text("unauthorized")),
        _ => panic!("expected refresh"),
    }
    ends.event(Event::Host(json(
        "{\"accessToken\":\"new-private-token\",\"chatgptAccountId\":\"account\"}",
    )));
    assert!(ends.at_server().at("result").at("accessToken").is_text("new-private-token"));
    for name in [
        "account/login/start",
        "loginAccount",
        "getAuthStatus",
        "account/chatgptAuthTokens/refresh",
    ] {
        ends.from_ui(&format!("{{\"id\":8,\"method\":\"{name}\",\"params\":{{}}}}"));
        let response = ends.at_ui();
        assert!(response.at("id").same_id(&Json::Unsigned(8)));
        assert!(response.has("error"));
        assert!(ends.server.is_empty());
    }
    ends.from_ui("{\"id\":9,\"method\":\"account/logout\",\"params\":{}}");
    assert!(matches!(ends.host.remove(0), AuthRequest::Logout));
    assert_eq!(ends.bridge.wait(), Wait::Host);
    ends.event(Event::Host(Json::object()));
    assert!(same(&ends.at_ui(), &json("{\"id\":9,\"result\":{}}")));
    assert_eq!(ends.finish, Some(Ok(Exit::LoggedOut)));
    assert!(ends.server.is_empty());
}

#[test]
fn auth_failure_never_releases_initialize_or_private_error() {
    let ends = start(false);
    let error = ends.finish.unwrap().unwrap_err().message();
    assert_eq!(error, "coding session initialization failed");
    assert!(!error.contains("private-token"));
}

#[test]
fn a_server_is_not_set_up_by_halves() {
    let introduce = |frame: &str| {
        let mut ends = Ends::new();
        ends.from_ui(frame);
        ends
    };
    let ends = introduce("{\"id\":1,\"method\":\"thread/list\"}");
    assert_eq!(ends.finish, Some(Err(Error::ExpectedInitialize)));
    let ends = introduce("{\"method\":\"initialize\",\"params\":{}}");
    assert_eq!(ends.finish, Some(Err(Error::MissingId)));
    for params in ["null", "[]", "{\"capabilities\":7}"] {
        let ends =
            introduce(&format!("{{\"id\":1,\"method\":\"initialize\",\"params\":{params}}}"));
        assert_eq!(ends.finish, Some(Err(Error::InitializationFailed)));
        assert!(ends.ui[0].at("error").at("message").is_text("coding session initialization failed"));
        assert!(ends.server.is_empty());
    }
    let mut ends = introduce("{\"id\":1,\"method\":\"initialize\",\"params\":{}}");
    ends.event(Event::Failed(Error::RequestTimedOut));
    assert_eq!(ends.finish, Some(Err(Error::InitializationFailed)));
    let mut ends = introduce("{\"id\":1,\"method\":\"initialize\",\"params\":{}}");
    let request = ends.at_server();
    ends.answer(&request, "{}");
    let config = ends.server.remove(1);
    ends.answer(&config, "{\"config\":{\"model_provider\":\"other\"}}");
    assert_eq!(ends.finish, Some(Err(Error::InitializationFailed)));
    assert_eq!(ends.server.len(), 1);
}

#[test]
fn a_terminal_that_goes_away_early_is_missed() {
    let mut ends = Ends::new();
    ends.event(Event::UiClosed);
    assert_eq!(ends.finish, Some(Err(Error::UiGoneBeforeInitialize)));
    let mut ends = Ends::new();
    ends.event(Event::Failed(Error::UiTimedOut));
    assert_eq!(ends.finish, Some(Err(Error::UiTimedOut)));
}

#[test]
fn routing_is_denied_in_words() {
    let mut ends = start(true);
    ends.from_ui("{\"id\":5,\"method\":\"thread/start\",\"params\":{\"modelProvider\":\"other\"}}");
    let denied = ends.at_ui();
    assert!(same(
        &denied,
        &json("{\"id\":5,\"error\":{\"code\":-32000,\"message\":\"configure authentication and providers outside coduck\"}}")
    ));
    ends.from_ui("{\"method\":\"config/value/write\",\"params\":{\"keyPath\":\"profile\"}}");
    ends.from_ui("{\"method\":\"initialize\"}");
    assert!(ends.ui.is_empty() && ends.server.is_empty() && ends.host.is_empty());
    ends.from_ui("{\"id\":6,\"method\":\"account/login/cancel\"}");
    assert!(ends.at_ui().at("error").at("message").is_text(
        "authentication is managed by coduck; use coduck login NAME"
    ));
    ends.close();
}

#[test]
fn stored_threads_are_named_by_their_identifier() {
    let mut ends = start(true);
    for params in [
        "{\"threadId\":\"x\",\"path\":\"/rollout\"}",
        "{\"threadId\":\"x\",\"history\":[]}",
        "{}",
        "{\"threadId\":7}",
    ] {
        ends.from_ui(&format!("{{\"id\":2,\"method\":\"thread/resume\",\"params\":{params}}}"));
        assert!(ends.at_ui().at("error").at("message").is_text(
            "thread or configuration unavailable or unsupported"
        ));
    }
    ends.from_ui("{\"id\":2,\"method\":\"thread/fork\",\"params\":{\"threadId\":\"x\",\"path\":\"\",\"cwd\":\"/asked\"}}");
    let read = ends.at_server();
    ends.answer(&read, "{\"thread\":{\"cwd\":\"/stored\",\"modelProvider\":\"openai\"}}");
    assert!(ends.at_server().at("params").at("cwd").is_text("/asked"));
}

#[test]
fn broken_answers_to_private_questions_end_the_connection() {
    for (answer, error) in [
        ("{}", Error::InvalidPrivateResponse),
        ("{\"error\":{}}", Error::InvalidPrivateError),
        ("{\"error\":{\"code\":1,\"message\":\"x\"},\"result\":1}", Error::InvalidPrivateError),
        ("{\"error\":{\"code\":1.5,\"message\":\"x\"}}", Error::InvalidPrivateError),
    ] {
        let mut ends = start(true);
        ends.from_ui("{\"id\":2,\"method\":\"thread/start\",\"params\":{\"cwd\":\"/tmp\"}}");
        let id = ends.at_server().at("id").clone();
        ends.from_server(json(answer).with("id", id));
        assert_eq!(ends.finish, Some(Err(error)));
    }
    let mut ends = start(true);
    ends.from_ui("{\"id\":2,\"method\":\"thread/start\",\"params\":{\"cwd\":\"/tmp\"}}");
    ends.event(Event::Failed(Error::PrivateTimedOut));
    assert_eq!(ends.finish, Some(Err(Error::PrivateTimedOut)));
}

#[test]
fn a_host_that_fails_ends_the_connection() {
    let mut ends = start(true);
    ends.from_server(json("{\"id\":4,\"method\":\"account/chatgptAuthTokens/refresh\"}"));
    ends.event(Event::HostFailed);
    assert!(same(
        &ends.at_server(),
        &json("{\"id\":4,\"error\":{\"code\":-32000,\"message\":\"host authentication request failed\"}}")
    ));
    assert_eq!(ends.finish, Some(Err(Error::HostRefreshFailed)));
    let mut ends = start(true);
    ends.from_ui("{\"id\":9,\"method\":\"account/logout\"}");
    ends.event(Event::HostFailed);
    assert!(ends.at_ui().has("error"));
    assert_eq!(ends.finish, Some(Err(Error::HostLogoutFailed)));
}

#[test]
fn identifiers_are_not_used_twice_at_once() {
    let mut ends = start(true);
    ends.from_ui("{\"id\":1,\"method\":\"first\"}");
    ends.from_ui("{\"id\":1,\"method\":\"second\"}");
    assert_eq!(ends.finish, Some(Err(Error::DuplicateUiRequest)));
    let mut ends = start(true);
    ends.from_server(json("{\"id\":1,\"method\":\"first\"}"));
    ends.from_server(json("{\"id\":1,\"method\":\"second\"}"));
    assert_eq!(ends.finish, Some(Err(Error::DuplicateServerRequest)));
    let mut ends = start(true);
    ends.from_server(json("{\"id\":\"coduck-9\",\"result\":{}}"));
    assert_eq!(ends.finish, Some(Err(Error::UnknownResponse)));
    let mut ends = start(true);
    ends.from_ui("{\"id\":1.5,\"method\":\"first\"}");
    assert_eq!(ends.finish, Some(Err(Error::InvalidId)));
}

#[test]
fn answers_are_delivered_once() {
    let mut ends = start(true);
    ends.from_ui("{\"id\":1,\"method\":\"first\"}");
    let request = ends.at_server();
    ends.answer(&request, "1");
    ends.answer(&request, "2");
    assert!(same(&ends.at_ui(), &json("{\"id\":1,\"result\":1}")));
    assert!(ends.ui.is_empty());
    assert_eq!(ends.finish, Some(Err(Error::UnknownResponse)));
}

#[test]
fn pending_requests_are_bounded() {
    let mut ends = start(true);
    for id in 0..MAX_PENDING {
        ends.from_ui(&format!("{{\"id\":{id},\"method\":\"wait\"}}"));
    }
    assert!(ends.finish.is_none());
    ends.from_ui("{\"id\":-1,\"method\":\"wait\"}");
    assert_eq!(ends.finish, Some(Err(Error::TooManyUiRequests)));
    let mut ends = start(true);
    for id in 0..MAX_PENDING {
        ends.from_server(json(&format!("{{\"id\":{id},\"method\":\"ask\"}}")));
    }
    assert!(ends.finish.is_none());
    ends.from_server(json("{\"id\":-1,\"method\":\"ask\"}"));
    assert_eq!(ends.finish, Some(Err(Error::TooManyServerRequests)));
}

#[test]
fn frames_of_the_bridge_have_a_fixed_form() {
    let id = || Json::Unsigned(7);
    assert!(same(
        &rpc_error(id(), "no"),
        &json("{\"id\":7,\"error\":{\"code\":-32000,\"message\":\"no\"}}")
    ));
    assert!(same(&rpc_result(id(), Json::Null), &json("{\"id\":7,\"result\":null}")));
    assert!(same(&auth_response(id(), Some(Json::Bool(true))), &json("{\"id\":7,\"result\":true}")));
    assert!(auth_response(id(), None).at("error").at("message").is_text(
        "host authentication request failed"
    ));
    assert_eq!(request_id(&json("{}")), Err(Error::MissingId));
    for wrong in ["null", "true", "1.0", "[]", "{}"] {
        assert_eq!(request_id(&json(&format!("{{\"id\":{wrong}}}"))), Err(Error::InvalidId));
    }
    assert_eq!(request_id(&json("{\"id\":-3}")), Ok(Json::Negative(-3)));
}

#[test]
fn coding_configurations_are_told_apart() {
    let config = "{\"cli_auth_credentials_store\":\"ephemeral\",\"chatgpt_base_url\":\"https://chatgpt.com/backend-api\"}";
    let changed = |key: &str, value: &str| validate_config(&json(config).with(key, json(value)));
    assert_eq!(validate_config(&json(config)), Ok(()));
    assert_eq!(validate_config(&json("7")), Err(Error::MissingConfiguration));
    assert_eq!(changed("model_provider", "\"openai\""), Ok(()));
    assert_eq!(changed("model_provider", "7"), Err(Error::UnsupportedProvider));
    assert_eq!(changed("cli_auth_credentials_store", "\"file\""), Err(Error::UnsupportedStore));
    assert_eq!(changed("model_providers", "{\"openai\":null}"), Err(Error::UnsupportedOverride));
    assert_eq!(changed("chatgpt_base_url", "null"), Err(Error::UnsupportedBaseUrl));
}

#[test]
fn methods_and_settings_are_told_apart() {
    for name in ["thread/start", "thread/resume", "thread/fork"] {
        assert!(thread_method(name));
        assert!(!managed_method(name));
    }
    assert!(!thread_method("thread/list"));
    for name in ["initialize", "account/bedrock/setup", "account/bedrock/discover"] {
        assert!(managed_method(name));
    }
    assert!(!managed_method("account/logout"));
    for key in ["profile", "profiles.x", "forced_login_method", "forced_chatgpt_workspace_id.0"] {
        assert!(sensitive_key(key));
    }
    for key in ["", "model", "profile_x", ".profile", "x.profile"] {
        assert!(!sensitive_key(key));
    }
}

#[test]
fn parameters_are_prepared_with_the_experimental_interface() {
    let prepared = |params: &str| prepare_params(&json(params));
    assert!(same(
        &prepared("{\"capabilities\":{\"experimentalApi\":false,\"x\":1}}").unwrap(),
        &json("{\"capabilities\":{\"experimentalApi\":true,\"x\":1}}")
    ));
    assert!(same(
        &prepared("{\"capabilities\":null}").unwrap(),
        &json("{\"capabilities\":{\"experimentalApi\":true}}")
    ));
    assert!(prepared("{\"capabilities\":[]}").is_none());
    assert!(prepared("null").is_none());
}

#[test]
fn threads_are_selected_by_harmless_identifiers() {
    assert!(safe_thread_id("Az09-_"));
    assert!(safe_thread_id(&"x".repeat(128)));
    for id in ["", "a b", "\u{e9}", &"x".repeat(129)] {
        assert!(!safe_thread_id(id));
    }
    let answer = json("{\"result\":{\"thread\":{\"id\":\"t\",\"ephemeral\":false}}}");
    assert_eq!(select_thread(&answer), Some("t".to_owned()));
    assert_eq!(select_thread(&answer.with("error", Json::Null)), None);
}

#[test]
fn messages_of_the_terminal_are_objects() {
    let text = |text: &str| read_ui(UiMessage::Text(text.to_owned()));
    match text("{\"b\":1,\"a\":2}") {
        UiReceived::Frame(frame) => assert_eq!(shown(&frame), "{\"a\":2,\"b\":1}"),
        _ => panic!("expected a frame"),
    }
    assert!(matches!(text("[]"), UiReceived::Failed(Error::InvalidUiMessage)));
    assert!(matches!(text("{"), UiReceived::Failed(Error::InvalidUiJson)));
    assert!(matches!(read_ui(UiMessage::Close), UiReceived::Closed));
    assert!(matches!(read_ui(UiMessage::Beat), UiReceived::Again));
    assert!(matches!(read_ui(UiMessage::Other), UiReceived::Failed(Error::UiReadFailed)));
}

#[test]
fn the_terminal_reads_what_was_sent() {
    for text in [
        "{}",
        "{\"id\":-7,\"result\":[18446744073709551615,null,\"\\n\u{e9}\"]}",
        "{\"method\":\"note\",\"params\":{\"deep\":[[{\"x\":false}]]}}",
    ] {
        let value = json(text);
        let written = write_ui(&value).unwrap();
        assert_eq!(Rpc::send(&value).unwrap(), format!("{written}\n").into_bytes());
        match read_ui(UiMessage::Text(written)) {
            UiReceived::Frame(frame) => assert_eq!(frame, value),
            _ => panic!("expected a frame"),
        }
    }
    let long = |length: usize| Json::object().with("x", Json::text(&"y".repeat(length)));
    assert!(write_ui(&long(MAX_FRAME - 8)).is_ok());
    assert_eq!(write_ui(&long(MAX_FRAME - 7)).err(), Some(Error::UiTooLarge));
}

#[test]
fn a_frame_that_is_not_sent_counts_unless_the_server_is_being_set_up() {
    let unsent = || Some(Error::WriteFailed);
    assert_eq!(ended(Ok(Exit::LoggedOut), None), Ok(Exit::LoggedOut));
    assert_eq!(ended(Err(Error::ReadFailed), None), Err(Error::ReadFailed));
    assert_eq!(ended(Err(Error::HostRefreshFailed), unsent()), Err(Error::WriteFailed));
    assert_eq!(ended(Ok(Exit::Disconnected), unsent()), Err(Error::WriteFailed));
    assert_eq!(
        ended(Err(Error::InitializationFailed), unsent()),
        Err(Error::InitializationFailed)
    );
}

#[test]
fn a_request_stays_pending_until_it_is_answered() {
    let mut ends = start(true);
    ends.from_ui("{\"id\":\"first\",\"method\":\"wait\"}");
    let first = ends.at_server();
    ends.from_ui("{\"id\":\"second\",\"method\":\"wait\"}");
    let second = ends.at_server();
    ends.from_server(json("{\"id\":9,\"method\":\"ask\"}"));
    assert_eq!(method(&ends.at_ui()), "ask");
    ends.from_ui("{\"id\":\"third\",\"method\":\"thread/start\",\"params\":{\"cwd\":\"/other\"}}");
    let question = ends.at_server();
    assert_eq!(method(&question), "config/read");
    // while the bridge asks for itself, answers wait; the first one does so here.
    ends.answer(&first, "1");
    assert!(ends.ui.is_empty());
    ends.from_server(json("{\"id\":10,\"method\":\"account/chatgptAuthTokens/refresh\",\"params\":{}}"));
    ends.event(Event::Host(Json::object()));
    assert!(ends.at_server().at("id").same_id(&Json::Unsigned(10)));
    ends.answer(&question, CONFIG);
    assert_eq!(method(&ends.at_server()), "thread/start");
    assert!(same(&ends.at_ui(), &json("{\"id\":\"first\",\"result\":1}")));
    ends.from_server(json("{\"method\":\"note\"}"));
    assert_eq!(method(&ends.at_ui()), "note");
    ends.answer(&second, "2");
    assert!(same(&ends.at_ui(), &json("{\"id\":\"second\",\"result\":2}")));
    ends.from_ui("{\"id\":9,\"result\":3}");
    assert!(same(&ends.at_server(), &json("{\"id\":9,\"result\":3}")));
    ends.close();
}

#[test]
fn a_fresh_token_does_not_prolong_a_private_question() {
    assert!(renews_deadline(Wait::Either, true));
    assert!(renews_deadline(Wait::Coding, true));
    assert!(!renews_deadline(Wait::Private, false));
    assert!(!renews_deadline(Wait::PrivateHost, true));
}
