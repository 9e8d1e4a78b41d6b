//! One connection between a terminal and its coding server, as a machine: it is told what
//! arrives and says what is to be sent.

use crate::bridge::{
    auth_response, changes_auth_routing, managed_method, prepare_params, request_id, rpc_error,
    rpc_result, select_thread, thread_method, validate_config, AuthRequest, Exit,
};
use crate::error::Error;
use crate::json::Json;
use crate::rpc::{is_answer, Rpc, MAX_PENDING};
use vstd::prelude::*;

use crate::bridge::{
    coding_config_fault, error_frame, host_frame, is_managed, is_rerouting, is_thread_method,
    prepared_params, request_id_of, result_frame, selected_thread, AuthRequestView,
};
use crate::json::JsonView;
use crate::profile::text_view;
use crate::rpc::{
    answers, frames_view, initialized_frame, law_request_names_differ, option_view, request_frame,
    request_name, RpcView,
};

verus! {

/// A request of the terminal that the server has yet to answer.
pub struct ClientRequest {
    /// The identifier that the server knows it by.
    pub upstream: Json,
    /// The identifier that the terminal gave it.
    pub original: Json,
    /// Whether its answer may select a thread.
    pub selects_thread: bool,
}

/// What a pending request says.
pub struct ClientRequestView {
    pub upstream: JsonView,
    pub original: JsonView,
    pub selects_thread: bool,
}

impl View for ClientRequest {
    type V = ClientRequestView;

    open spec fn view(&self) -> ClientRequestView {
        ClientRequestView {
            upstream: self.upstream@,
            original: self.original@,
            selects_thread: self.selects_thread,
        }
    }
}

/// What is being found out before a thread is begun.
#[derive(Clone, Copy, Debug, PartialEq, Eq, Structural)]
pub enum CheckStage {
    /// Which directory and provider a stored thread has.
    Thread,
    /// Which configuration is in effect in the thread's directory.
    Config,
}

/// A request for a thread that is held back while the server is asked about it.
pub struct Check {
    /// What the terminal sent.
    pub frame: Json,
    /// The identifier of the question to the server.
    pub request: Json,
    pub stage: CheckStage,
}

/// What a request that is held back says.
pub struct CheckView {
    pub frame: JsonView,
    pub request: JsonView,
    pub stage: CheckStage,
}

impl View for Check {
    type V = CheckView;

    open spec fn view(&self) -> CheckView {
        CheckView { frame: self.frame@, request: self.request@, stage: self.stage }
    }
}

/// What a check that may be absent says.
pub open spec fn check_view(check: Option<Check>) -> Option<CheckView> {
    match check {
        Some(held) => Some(held@),
        None => None,
    }
}

/// How far a connection has come.
pub enum Phase {
    /// The terminal has yet to introduce itself.
    AwaitInitialize,
    /// The server was introduced to the terminal; `ui` identifies the terminal's request.
    Initialize { ui: Json, request: Json },
    /// The server was asked for its configuration.
    ReadConfig { ui: Json, request: Json, initialized: Json },
    /// The server was given the credentials.
    LogIn { ui: Json, request: Json, initialized: Json },
    /// The terminal has yet to acknowledge.
    AwaitInitialized,
    /// Messages go both ways.
    Running,
    /// A thread is being checked.
    Checking(Check),
    /// The host was asked for a fresh token; `check` is taken up again afterwards.
    Refresh { id: Json, check: Option<Check> },
    /// The host was asked to log out.
    LogOut { id: Json },
    Ended,
}

/// What a phase says.
pub enum PhaseView {
    AwaitInitialize,
    Initialize { ui: JsonView, request: JsonView },
    ReadConfig { ui: JsonView, request: JsonView, initialized: JsonView },
    LogIn { ui: JsonView, request: JsonView, initialized: JsonView },
    AwaitInitialized,
    Running,
    Checking(CheckView),
    Refresh { id: JsonView, check: Option<CheckView> },
    LogOut { id: JsonView },
    Ended,
}

impl View for Phase {
    type V = PhaseView;

    open spec fn view(&self) -> PhaseView {
        match self {
            Phase::AwaitInitialize => PhaseView::AwaitInitialize,
            Phase::Initialize { ui, request } => PhaseView::Initialize {
                ui: ui@,
                request: request@,
            },
            Phase::ReadConfig { ui, request, initialized } => PhaseView::ReadConfig {
                ui: ui@,
                request: request@,
                initialized: initialized@,
            },
            Phase::LogIn { ui, request, initialized } => PhaseView::LogIn {
                ui: ui@,
                request: request@,
                initialized: initialized@,
            },
            Phase::AwaitInitialized => PhaseView::AwaitInitialized,
            Phase::Running => PhaseView::Running,
            Phase::Checking(check) => PhaseView::Checking(check@),
            Phase::Refresh { id, check } => PhaseView::Refresh {
                id: id@,
                check: check_view(*check),
            },
            Phase::LogOut { id } => PhaseView::LogOut { id: id@ },
            Phase::Ended => PhaseView::Ended,
        }
    }
}

/// What happened.
pub enum Event {
    /// The terminal sent a frame.
    Ui(Json),
    /// The terminal is gone.
    UiClosed,
    /// The server sent a frame.
    Coding(Json),
    /// The host answered.
    Host(Json),
    /// The host refused, or did not answer.
    HostFailed,
    /// What was awaited, or was being sent to the server, failed.
    Failed(Error),
}

/// What an event says.
pub enum EventView {
    Ui(JsonView),
    UiClosed,
    Coding(JsonView),
    Host(JsonView),
    HostFailed,
    Failed(Error),
}

impl View for Event {
    type V = EventView;

    open spec fn view(&self) -> EventView {
        match self {
            Event::Ui(frame) => EventView::Ui(frame@),
            Event::UiClosed => EventView::UiClosed,
            Event::Coding(frame) => EventView::Coding(frame@),
            Event::Host(reply) => EventView::Host(reply@),
            Event::HostFailed => EventView::HostFailed,
            Event::Failed(error) => EventView::Failed(*error),
        }
    }
}

/// What is to be done, in the order of the members.
pub struct Step {
    /// The thread that the session is now about.
    pub session: Option<String>,
    /// Frames for the server, in order.
    pub coding: Vec<Json>,
    /// A frame for the terminal.
    pub ui: Option<Json>,
    /// A request to the host.
    pub host: Option<AuthRequest>,
    /// The end of the connection.
    pub finish: Option<Result<Exit, Error>>,
}

/// What a step says.
#[verifier::ext_equal]
pub struct StepView {
    pub session: Option<Seq<char>>,
    pub coding: Seq<JsonView>,
    pub ui: Option<JsonView>,
    pub host: Option<AuthRequestView>,
    pub finish: Option<Result<Exit, Error>>,
}

impl View for Step {
    type V = StepView;

    open spec fn view(&self) -> StepView {
        StepView {
            session: text_view(self.session),
            coding: frames_view(self.coding@),
            ui: option_view(self.ui),
            host: match self.host {
                Some(request) => Some(request@),
                None => None,
            },
            finish: self.finish,
        }
    }
}

impl StepView {
    /// Nothing is to be done.
    pub open spec fn quiet() -> StepView {
        StepView { session: None, coding: Seq::empty(), ui: None, host: None, finish: None }
    }

    /// A frame is to be sent to the server.
    pub open spec fn to_coding(frame: JsonView) -> StepView {
        StepView { coding: seq![frame], ..StepView::quiet() }
    }

    /// A frame is to be sent to the terminal.
    pub open spec fn to_ui(frame: JsonView) -> StepView {
        StepView { ui: Some(frame), ..StepView::quiet() }
    }

    /// The host is to be asked.
    pub open spec fn to_host(request: AuthRequestView) -> StepView {
        StepView { host: Some(request), ..StepView::quiet() }
    }
}

impl Step {
    fn quiet() -> (step: Step)
        ensures
            step@ == StepView::quiet(),
    {
        let step = Step { session: None, coding: Vec::new(), ui: None, host: None, finish: None };
        assert(step@ =~= StepView::quiet());
        step
    }

    fn to_coding(frame: Json) -> (step: Step)
        ensures
            step@ == StepView::to_coding(frame@),
    {
        let mut coding: Vec<Json> = Vec::new();
        coding.push(frame);
        let step = Step { session: None, coding, ui: None, host: None, finish: None };
        assert(step@ =~= StepView::to_coding(frame@));
        step
    }

    fn to_ui(frame: Json) -> (step: Step)
        ensures
            step@ == StepView::to_ui(frame@),
    {
        let step = Step {
            session: None,
            coding: Vec::new(),
            ui: Some(frame),
            host: None,
            finish: None,
        };
        assert(step@ =~= StepView::to_ui(frame@));
        step
    }

    fn to_host(request: AuthRequest) -> (step: Step)
        ensures
            step@ == StepView::to_host(request@),
    {
        let step = Step {
            session: None,
            coding: Vec::new(),
            ui: None,
            host: Some(request),
            finish: None,
        };
        assert(step@ =~= StepView::to_host(request@));
        step
    }
}

/// The state of a connection.
pub struct Bridge {
    phase: Phase,
    client: Vec<ClientRequest>,
    server: Vec<Json>,
    initial_login: Json,
    cwd: Option<String>,
}

/// What the state of a connection says.
#[verifier::ext_equal]
pub struct BridgeView {
    pub phase: PhaseView,
    /// The terminal's requests that the server has yet to answer.
    pub client: Seq<ClientRequestView>,
    /// The server's requests that the terminal has yet to answer.
    pub server: Seq<JsonView>,
    /// The credentials that the server is given.
    pub initial_login: JsonView,
    /// The working directory, where it is known.
    pub cwd: Option<Seq<char>>,
}

/// What pending requests say.
pub open spec fn clients_view(client: Seq<ClientRequest>) -> Seq<ClientRequestView> {
    client.map_values(|request: ClientRequest| request@)
}

impl View for Bridge {
    type V = BridgeView;

    closed spec fn view(&self) -> BridgeView {
        BridgeView {
            phase: self.phase@,
            client: clients_view(self.client@),
            server: frames_view(self.server@),
            initial_login: self.initial_login@,
            cwd: text_view(self.cwd),
        }
    }
}

/// A state, what the server's conversation has become, and what is to be done.
#[verifier::ext_equal]
pub struct Turn {
    pub bridge: BridgeView,
    pub rpc: RpcView,
    pub step: StepView,
}

impl BridgeView {
    /// The same state in another phase.
    pub open spec fn in_phase(self, phase: PhaseView) -> BridgeView {
        BridgeView { phase, ..self }
    }

    /// The connection ends with an error.
    pub open spec fn failing(self, rpc: RpcView, error: Error) -> Turn {
        Turn {
            bridge: self.in_phase(PhaseView::Ended),
            rpc,
            step: StepView { finish: Some(Err(error)), ..StepView::quiet() },
        }
    }

    /// The connection goes on with nothing to be done.
    pub open spec fn idle(self, rpc: RpcView) -> Turn {
        Turn { bridge: self.in_phase(PhaseView::Running), rpc, step: StepView::quiet() }
    }

    /// A request of the terminal is answered with a refusal; one without an identifier ends
    /// the connection.
    pub open spec fn refusing(self, rpc: RpcView, frame: JsonView, message: Seq<char>) -> Turn {
        match request_id_of(frame) {
            Err(error) => self.failing(rpc, error),
            Ok(id) => Turn {
                bridge: self.in_phase(PhaseView::Running),
                rpc,
                step: StepView::to_ui(error_frame(id, message)),
            },
        }
    }

    /// A request is refused where it has an identifier, and a notification is dropped.
    pub open spec fn denying(self, rpc: RpcView, frame: JsonView, message: Seq<char>) -> Turn {
        if frame.has("id"@) {
            self.refusing(rpc, frame, message)
        } else {
            self.idle(rpc)
        }
    }

    /// A thread cannot be begun.
    pub open spec fn unavailable(self, rpc: RpcView, frame: JsonView) -> Turn {
        self.refusing(rpc, frame, "thread or configuration unavailable or unsupported"@)
    }

    /// Whether a request of the terminal with this identifier is pending.
    pub open spec fn has_original(self, id: JsonView) -> bool {
        exists|i: int| 0 <= i < self.client.len() && (#[trigger] self.client[i]).original == id
    }

    /// A frame of the terminal that is allowed: a logout goes to the host, a request to the
    /// server under an identifier of its own, and a notification to the server as it is.
    pub open spec fn forwarding(self, rpc: RpcView, frame: JsonView) -> Turn {
        if frame.at("method"@) == JsonView::Text("account/logout"@) {
            match request_id_of(frame) {
                Err(error) => self.failing(rpc, error),
                Ok(id) => Turn {
                    bridge: self.in_phase(PhaseView::LogOut { id }),
                    rpc,
                    step: StepView::to_host(AuthRequestView::Logout),
                },
            }
        } else if frame.has("id"@) {
            match request_id_of(frame) {
                Err(error) => self.failing(rpc, error),
                Ok(id) => if self.has_original(id) {
                    self.failing(rpc, Error::DuplicateUiRequest)
                } else if self.client.len() >= MAX_PENDING {
                    self.failing(rpc, Error::TooManyUiRequests)
                } else {
                    let upstream = rpc.next_name();
                    Turn {
                        bridge: BridgeView {
                            phase: PhaseView::Running,
                            client: self.client.push(
                                ClientRequestView {
                                    upstream,
                                    original: id,
                                    selects_thread: match frame.at("method"@).as_text() {
                                        Some(method) => is_thread_method(method),
                                        None => false,
                                    },
                                },
                            ),
                            ..self
                        },
                        rpc: rpc.advanced(),
                        step: StepView::to_coding(frame.with("id"@, upstream)),
                    }
                },
            }
        } else {
            Turn {
                bridge: self.in_phase(PhaseView::Running),
                rpc,
                step: StepView::to_coding(frame),
            }
        }
    }

    /// The server is asked a question of the bridge's own while a frame is held back.
    pub open spec fn asking(
        self,
        rpc: RpcView,
        frame: JsonView,
        stage: CheckStage,
        method: Seq<char>,
        params: JsonView,
    ) -> Turn {
        let request = rpc.next_name();
        Turn {
            bridge: self.in_phase(PhaseView::Checking(CheckView { frame, request, stage })),
            rpc: rpc.advanced(),
            step: StepView::to_coding(request_frame(request, method, params)),
        }
    }

    /// The server is asked for the configuration in a directory.
    pub open spec fn asking_config(self, rpc: RpcView, frame: JsonView, cwd: Seq<char>) -> Turn {
        self.asking(
            rpc,
            frame,
            CheckStage::Config,
            "config/read"@,
            JsonView::object().with("includeLayers"@, JsonView::Bool(false)).with(
                "cwd"@,
                JsonView::Text(cwd),
            ),
        )
    }

    /// A request for a thread: one in another directory, or one that is stored, is held back
    /// until the server has said what it would use.
    pub open spec fn checking(self, rpc: RpcView, frame: JsonView) -> Turn {
        let params = frame.at("params"@);
        if frame.at("method"@) == JsonView::Text("thread/start"@) {
            match params.at("cwd"@).as_text() {
                None => self.forwarding(rpc, frame),
                Some(cwd) => self.asking_config(rpc, frame, cwd),
            }
        } else if params.at("path"@).as_filled_text() is Some || !(params.at("history"@) is Null) {
            self.unavailable(rpc, frame)
        } else {
            match params.at("threadId"@).as_text() {
                None => self.unavailable(rpc, frame),
                Some(thread) => self.asking(
                    rpc,
                    frame,
                    CheckStage::Thread,
                    "thread/read"@,
                    JsonView::object().with("threadId"@, JsonView::Text(thread)).with(
                        "includeTurns"@,
                        JsonView::Bool(false),
                    ),
                ),
            }
        }
    }

    /// The terminal sent a frame while messages go both ways.
    pub open spec fn on_ui(self, rpc: RpcView, frame: JsonView) -> Turn {
        match frame.at("method"@).as_text() {
            Some(method) => if is_managed(method) {
                self.denying(
                    rpc,
                    frame,
                    "authentication is managed by coduck; use coduck login NAME"@,
                )
            } else if is_rerouting(method, frame.at("params"@)) {
                self.denying(rpc, frame, "configure authentication and providers outside coduck"@)
            } else if is_thread_method(method) {
                self.checking(rpc, frame)
            } else {
                self.forwarding(rpc, frame)
            },
            None => match request_id_of(frame) {
                Err(error) => self.failing(rpc, error),
                Ok(id) => match place_of(self.server, id) {
                    Some(i) => Turn {
                        bridge: BridgeView {
                            phase: PhaseView::Running,
                            server: self.server.remove(i),
                            ..self
                        },
                        rpc,
                        step: StepView::to_coding(frame),
                    },
                    None => self.idle(rpc),
                },
            },
        }
    }

    /// The server asked for a fresh token: the host is asked in turn.
    pub open spec fn refreshing(
        self,
        rpc: RpcView,
        frame: JsonView,
        check: Option<CheckView>,
    ) -> Turn {
        match request_id_of(frame) {
            Err(error) => self.failing(rpc, error),
            Ok(id) => Turn {
                bridge: self.in_phase(PhaseView::Refresh { id, check }),
                rpc,
                step: StepView::to_host(AuthRequestView::Refresh { params: frame.at("params"@) }),
            },
        }
    }

    /// The server's requests after a notification: a request that it says is resolved is no
    /// longer pending.
    pub open spec fn resolved(self, frame: JsonView) -> BridgeView {
        if frame.at("method"@) == JsonView::Text("serverRequest/resolved"@) {
            match place_of(self.server, frame.at("params"@).at("requestId"@)) {
                Some(i) => BridgeView { server: self.server.remove(i), ..self },
                None => self,
            }
        } else {
            self
        }
    }

    /// The server sent a frame while messages go both ways.
    pub open spec fn on_coding(self, rpc: RpcView, frame: JsonView) -> Turn {
        match frame.at("method"@).as_text() {
            Some(method) => if method == "account/chatgptAuthTokens/refresh"@ {
                self.refreshing(rpc, frame, None)
            } else if frame.has("id"@) {
                match request_id_of(frame) {
                    Err(error) => self.failing(rpc, error),
                    Ok(id) => if self.server.len() >= MAX_PENDING {
                        self.failing(rpc, Error::TooManyServerRequests)
                    } else if self.server.contains(id) {
                        self.failing(rpc, Error::DuplicateServerRequest)
                    } else {
                        let noted = BridgeView { server: self.server.push(id), ..self };
                        Turn {
                            bridge: noted.resolved(frame).in_phase(PhaseView::Running),
                            rpc,
                            step: StepView::to_ui(frame),
                        }
                    },
                }
            } else {
                Turn {
                    bridge: self.resolved(frame).in_phase(PhaseView::Running),
                    rpc,
                    step: StepView::to_ui(frame),
                }
            },
            None => match request_id_of(frame) {
                Err(error) => self.failing(rpc, error),
                Ok(id) => match place_of(upstreams(self.client), id) {
                    None => self.failing(rpc, Error::UnknownResponse),
                    Some(i) => Turn {
                        bridge: BridgeView {
                            phase: PhaseView::Running,
                            client: self.client.remove(i),
                            ..self
                        },
                        rpc,
                        step: StepView {
                            session: if self.client[i].selects_thread {
                                selected_thread(frame)
                            } else {
                                None
                            },
                            ..StepView::to_ui(frame.with("id"@, self.client[i].original))
                        },
                    },
                },
            },
        }
    }

    /// The server answered a question of the bridge's own with a result.
    pub open spec fn on_answer(self, rpc: RpcView, check: CheckView, result: JsonView) -> Turn {
        match check.stage {
            CheckStage::Thread => {
                let thread = result.at("thread"@);
                let asked = check.frame.at("params"@).at("cwd"@).as_text();
                let cwd = if asked is Some {
                    asked
                } else {
                    thread.at("cwd"@).as_text()
                };
                if thread.at("modelProvider"@) != JsonView::Text("openai"@) {
                    self.unavailable(rpc, check.frame)
                } else {
                    match cwd {
                        None => self.unavailable(rpc, check.frame),
                        Some(directory) => self.asking_config(rpc, check.frame, directory),
                    }
                }
            },
            CheckStage::Config => if coding_config_fault(result.at("config"@)) is None {
                self.forwarding(rpc, check.frame)
            } else {
                self.unavailable(rpc, check.frame)
            },
        }
    }

    /// The server sent a frame while it is asked a question of the bridge's own. A refusal is
    /// passed on without its reasons, and other frames wait.
    pub open spec fn on_checking(self, rpc: RpcView, check: CheckView, frame: JsonView) -> Turn {
        if frame.at("method"@) == JsonView::Text("account/chatgptAuthTokens/refresh"@) {
            self.refreshing(rpc, frame, Some(check))
        } else if answers(frame, check.request) {
            if frame.has("error"@) {
                let error = frame.at("error"@);
                if frame.has("result"@) || !error.at("code"@).is_signed() || !(error.at(
                    "message"@,
                ) is Text) {
                    self.failing(rpc, Error::InvalidPrivateError)
                } else {
                    self.unavailable(rpc, check.frame)
                }
            } else {
                match frame.get("result"@) {
                    None => self.failing(rpc, Error::InvalidPrivateResponse),
                    Some(result) => self.on_answer(rpc, check, result),
                }
            }
        } else if rpc.has_room() {
            Turn {
                bridge: self.in_phase(PhaseView::Checking(check)),
                rpc: rpc.deferring(frame),
                step: StepView::quiet(),
            }
        } else {
            self.failing(rpc, Error::TooManyBuffered)
        }
    }

    /// The host answered, or failed to.
    pub open spec fn on_host(self, rpc: RpcView, reply: Option<JsonView>) -> Turn {
        match self.phase {
            PhaseView::Refresh { id, check } => if reply is Some {
                Turn {
                    bridge: self.in_phase(
                        match check {
                            Some(held) => PhaseView::Checking(held),
                            None => PhaseView::Running,
                        },
                    ),
                    rpc,
                    step: StepView::to_coding(host_frame(id, reply)),
                }
            } else {
                Turn {
                    bridge: self.in_phase(PhaseView::Ended),
                    rpc,
                    step: StepView {
                        finish: Some(Err(Error::HostRefreshFailed)),
                        ..StepView::to_coding(host_frame(id, reply))
                    },
                }
            },
            PhaseView::LogOut { id } => Turn {
                bridge: self.in_phase(PhaseView::Ended),
                rpc,
                step: StepView {
                    finish: Some(
                        if reply is Some {
                            Ok(Exit::LoggedOut)
                        } else {
                            Err(Error::HostLogoutFailed)
                        },
                    ),
                    ..StepView::to_ui(host_frame(id, reply))
                },
            },
            _ => self.idle(rpc),
        }
    }

    /// The server cannot be set up for the terminal, which is told so without the reasons.
    pub open spec fn not_starting(self, rpc: RpcView, ui: JsonView) -> Turn {
        Turn {
            bridge: self.in_phase(PhaseView::Ended),
            rpc,
            step: StepView {
                finish: Some(Err(Error::InitializationFailed)),
                ..StepView::to_ui(error_frame(ui, "coding session initialization failed"@))
            },
        }
    }

    /// The terminal introduced itself.
    pub open spec fn on_initialize(self, rpc: RpcView, frame: JsonView) -> Turn {
        if frame.at("method"@) != JsonView::Text("initialize"@) {
            self.failing(rpc, Error::ExpectedInitialize)
        } else {
            match request_id_of(frame) {
                Err(error) => self.failing(rpc, error),
                Ok(ui) => match prepared_params(frame.at("params"@)) {
                    None => self.not_starting(rpc, ui),
                    Some(params) => Turn {
                        bridge: self.in_phase(
                            PhaseView::Initialize { ui, request: rpc.next_name() },
                        ),
                        rpc: rpc.advanced(),
                        step: StepView::to_coding(
                            request_frame(rpc.next_name(), "initialize"@, params),
                        ),
                    },
                },
            }
        }
    }

    /// The server sent a frame while it is set up: the answer that is awaited, or one that
    /// waits.
    pub open spec fn on_startup(self, rpc: RpcView, frame: JsonView) -> Turn {
        match self.phase {
            PhaseView::Initialize { ui, request } => match rpc.awaiting(request, frame) {
                (next, Err(_)) => self.not_starting(next, ui),
                (next, Ok(None)) => Turn { bridge: self, rpc: next, step: StepView::quiet() },
                (next, Ok(Some(initialized))) => match self.cwd {
                    None => {
                        let turn = self.not_starting(next, ui);
                        Turn {
                            step: StepView { coding: seq![initialized_frame()], ..turn.step },
                            ..turn
                        }
                    },
                    Some(cwd) => Turn {
                        bridge: self.in_phase(
                            PhaseView::ReadConfig { ui, request: next.next_name(), initialized },
                        ),
                        rpc: next.advanced(),
                        step: StepView {
                            coding: seq![
                                initialized_frame(),
                                request_frame(
                                    next.next_name(),
                                    "config/read"@,
                                    JsonView::object().with(
                                        "includeLayers"@,
                                        JsonView::Bool(false),
                                    ).with("cwd"@, JsonView::Text(cwd)),
                                ),
                            ],
                            ..StepView::quiet()
                        },
                    },
                },
            },
            PhaseView::ReadConfig { ui, request, initialized } => match rpc.awaiting(
                request,
                frame,
            ) {
                (next, Err(_)) => self.not_starting(next, ui),
                (next, Ok(None)) => Turn { bridge: self, rpc: next, step: StepView::quiet() },
                (next, Ok(Some(result))) => if coding_config_fault(result.at("config"@)) is Some {
                    self.not_starting(next, ui)
                } else {
                    Turn {
                        bridge: self.in_phase(
                            PhaseView::LogIn { ui, request: next.next_name(), initialized },
                        ),
                        rpc: next.advanced(),
                        step: StepView::to_coding(
                            request_frame(
                                next.next_name(),
                                "account/login/start"@,
                                self.initial_login,
                            ),
                        ),
                    }
                },
            },
            PhaseView::LogIn { ui, request, initialized } => match rpc.awaiting(request, frame) {
                (next, Err(_)) => self.not_starting(next, ui),
                (next, Ok(None)) => Turn { bridge: self, rpc: next, step: StepView::quiet() },
                (next, Ok(Some(result))) => if result.at("type"@) != JsonView::Text(
                    "chatgptAuthTokens"@,
                ) {
                    self.not_starting(next, ui)
                } else {
                    Turn {
                        bridge: self.in_phase(PhaseView::AwaitInitialized),
                        rpc: next,
                        step: StepView::to_ui(result_frame(ui, initialized)),
                    }
                },
            },
            _ => self.idle(rpc),
        }
    }

    /// The terminal acknowledged its introduction.
    pub open spec fn on_initialized(self, rpc: RpcView, frame: JsonView) -> Turn {
        if frame.at("method"@) != JsonView::Text("initialized"@) || frame.has("id"@) {
            self.failing(rpc, Error::ExpectedInitialized)
        } else {
            self.idle(rpc)
        }
    }

    /// What is awaited failed.
    pub open spec fn on_failure(self, rpc: RpcView, error: Error) -> Turn {
        match self.phase {
            PhaseView::Initialize { ui, .. } => self.not_starting(rpc, ui),
            PhaseView::ReadConfig { ui, .. } => self.not_starting(rpc, ui),
            PhaseView::LogIn { ui, .. } => self.not_starting(rpc, ui),
            _ => self.failing(rpc, error),
        }
    }

    /// The terminal is gone.
    pub open spec fn on_close(self, rpc: RpcView) -> Turn {
        match self.phase {
            PhaseView::AwaitInitialize => self.failing(rpc, Error::UiGoneBeforeInitialize),
            PhaseView::AwaitInitialized => self.failing(rpc, Error::UiGoneBeforeInitialized),
            _ => Turn {
                bridge: self.in_phase(PhaseView::Ended),
                rpc,
                step: StepView { finish: Some(Ok(Exit::Disconnected)), ..StepView::quiet() },
            },
        }
    }

    /// Whether an event can happen in the present phase: only what is awaited can.
    pub open spec fn expects(self, event: EventView) -> bool {
        match self.phase {
            PhaseView::AwaitInitialize => event is Ui || event is UiClosed || event is Failed,
            PhaseView::Initialize { .. } => event is Coding || event is Failed,
            PhaseView::ReadConfig { .. } => event is Coding || event is Failed,
            PhaseView::LogIn { .. } => event is Coding || event is Failed,
            PhaseView::AwaitInitialized => event is Ui || event is UiClosed || event is Failed,
            PhaseView::Running => event is Ui || event is UiClosed || event is Coding
                || event is Failed,
            PhaseView::Checking(_) => event is Coding || event is Failed,
            PhaseView::Refresh { .. } => event is Host || event is HostFailed || event is Failed,
            PhaseView::LogOut { .. } => event is Host || event is HostFailed || event is Failed,
            PhaseView::Ended => false,
        }
    }

    /// What an event does to a connection.
    pub open spec fn turn(self, rpc: RpcView, event: EventView) -> Turn {
        match event {
            EventView::Failed(error) => self.on_failure(rpc, error),
            EventView::UiClosed => self.on_close(rpc),
            EventView::Host(reply) => self.on_host(rpc, Some(reply)),
            EventView::HostFailed => self.on_host(rpc, None),
            EventView::Ui(frame) => match self.phase {
                PhaseView::AwaitInitialize => self.on_initialize(rpc, frame),
                PhaseView::AwaitInitialized => self.on_initialized(rpc, frame),
                _ => self.on_ui(rpc, frame),
            },
            EventView::Coding(frame) => match self.phase {
                PhaseView::Running => self.on_coding(rpc, frame),
                PhaseView::Checking(check) => self.on_checking(rpc, check, frame),
                _ => self.on_startup(rpc, frame),
            },
        }
    }
}

/// The first place at which an identifier stands in a list.
pub open spec fn place_of(ids: Seq<JsonView>, id: JsonView) -> Option<int>
    decreases ids.len(),
{
    if ids.len() == 0 {
        None
    } else if ids[0] == id {
        Some(0)
    } else {
        match place_of(ids.skip(1), id) {
            Some(i) => Some(i + 1),
            None => None,
        }
    }
}

/// The identifiers that the server knows pending requests by.
pub open spec fn upstreams(client: Seq<ClientRequestView>) -> Seq<JsonView> {
    client.map_values(|request: ClientRequestView| request.upstream)
}

/// Where an identifier stands, if anywhere.
pub proof fn lemma_place_of(ids: Seq<JsonView>, id: JsonView)
    ensures
        match place_of(ids, id) {
            Some(i) => 0 <= i < ids.len() && ids[i] == id && forall|j: int|
                0 <= j < i ==> ids[j] != id,
            None => !ids.contains(id),
        },
    decreases ids.len(),
{
    if ids.len() > 0 && ids[0] != id {
        lemma_place_of(ids.skip(1), id);
        match place_of(ids.skip(1), id) {
            Some(i) => {
                assert forall|j: int| 0 <= j < i + 1 implies ids[j] != id by {
                    if j > 0 {
                        assert(ids.skip(1)[j - 1] == ids[j]);
                    }
                }
            },
            None => {
                assert forall|j: int| 0 <= j < ids.len() implies ids[j] != id by {
                    if j > 0 {
                        assert(ids.skip(1)[j - 1] == ids[j]);
                        assert(ids.skip(1).contains(ids[j]));
                    }
                }
            },
        }
    }
}

/// Whether an identifier is one that was given out.
pub open spec fn issued(rpc: RpcView, id: JsonView) -> bool {
    exists|n: nat| n <= rpc.sequence && id == #[trigger] request_name(n)
}

/// Whether an identifier was given out for a question of the bridge's own: no request of the
/// terminal goes by it.
pub open spec fn is_own(bridge: BridgeView, rpc: RpcView, id: JsonView) -> bool {
    issued(rpc, id) && forall|i: int|
        0 <= i < bridge.client.len() ==> (#[trigger] bridge.client[i]).upstream != id
}

/// Whether a frame of the terminal may be held back: a request for a thread that neither
/// deals with credentials nor changes whom the server talks to.
pub open spec fn may_be_held(frame: JsonView) -> bool {
    match frame.at("method"@).as_text() {
        Some(method) => is_thread_method(method) && !is_managed(method) && !is_rerouting(
            method,
            frame.at("params"@),
        ),
        None => false,
    }
}

/// What holds of a request that is held back.
pub open spec fn check_wf(bridge: BridgeView, rpc: RpcView, check: CheckView) -> bool {
    is_own(bridge, rpc, check.request) && may_be_held(check.frame)
}

/// What holds of the requests that a phase is about.
pub open spec fn phase_wf(bridge: BridgeView, rpc: RpcView) -> bool {
    match bridge.phase {
        PhaseView::Initialize { ui, request } => ui.is_id() && is_own(bridge, rpc, request),
        PhaseView::ReadConfig { ui, request, .. } => ui.is_id() && is_own(bridge, rpc, request),
        PhaseView::LogIn { ui, request, .. } => ui.is_id() && is_own(bridge, rpc, request),
        PhaseView::Checking(check) => check_wf(bridge, rpc, check),
        PhaseView::Refresh { id, check } => id.is_id() && match check {
            Some(held) => check_wf(bridge, rpc, held),
            None => true,
        },
        PhaseView::LogOut { id } => id.is_id(),
        _ => true,
    }
}

/// What holds of the terminal's requests: there are not too many, each has an identifier of
/// its own on either side, and the server's were given out by the bridge.
pub open spec fn client_wf(bridge: BridgeView, rpc: RpcView) -> bool {
    &&& bridge.client.len() <= MAX_PENDING
    &&& forall|i: int|
        0 <= i < bridge.client.len() ==> issued(rpc, (#[trigger] bridge.client[i]).upstream)
            && bridge.client[i].original.is_id()
    &&& forall|i: int, j: int|
        0 <= i < j < bridge.client.len() ==> (#[trigger] bridge.client[i]).upstream != (
        #[trigger] bridge.client[j]).upstream && bridge.client[i].original
            != bridge.client[j].original
}

/// What holds of the server's requests: there are not too many, and no two have the same
/// identifier.
pub open spec fn server_wf(bridge: BridgeView) -> bool {
    &&& bridge.server.len() <= MAX_PENDING
    &&& forall|i: int| 0 <= i < bridge.server.len() ==> (#[trigger] bridge.server[i]).is_id()
    &&& forall|i: int, j: int|
        0 <= i < j < bridge.server.len() ==> #[trigger] bridge.server[i]
            != #[trigger] bridge.server[j]
}

/// What holds of a connection at all times.
pub open spec fn bridge_wf(bridge: BridgeView, rpc: RpcView) -> bool {
    client_wf(bridge, rpc) && server_wf(bridge) && phase_wf(bridge, rpc) && rpc.bounded()
}

proof fn lemma_issued_is_id(rpc: RpcView, id: JsonView)
    requires
        issued(rpc, id),
    ensures
        id.is_id(),
{
}

fn find_id(ids: &Vec<Json>, id: &Json) -> (place: Option<usize>)
    requires
        forall|i: int| 0 <= i < ids.len() ==> (#[trigger] ids@[i])@.is_id(),
    ensures
        match place {
            Some(i) => place_of(frames_view(ids@), id@) == Some(i as int) && i < ids.len(),
            None => place_of(frames_view(ids@), id@) is None,
        },
{
    let mut i: usize = 0;
    let ghost views = frames_view(ids@);
    assert(views.skip(0) =~= views);
    while i < ids.len()
        invariant
            i <= ids.len(),
            views == frames_view(ids@),
            forall|j: int| 0 <= j < ids.len() ==> (#[trigger] ids@[j])@.is_id(),
            place_of(views, id@) == (match place_of(views.skip(i as int), id@) {
                Some(p) => Some(p + i),
                None => None,
            }),
        decreases ids.len() - i,
    {
        assert(views[i as int] == ids@[i as int]@);
        if ids[i].same_id(id) {
            return Some(i);
        }
        assert(views.skip(i as int).skip(1) =~= views.skip(i + 1));
        i += 1;
    }
    None
}

fn find_upstream(client: &Vec<ClientRequest>, id: &Json) -> (place: Option<usize>)
    requires
        id@.is_id(),
    ensures
        match place {
            Some(i) => place_of(upstreams(clients_view(client@)), id@) == Some(i as int) && i
                < client.len(),
            None => place_of(upstreams(clients_view(client@)), id@) is None,
        },
{
    let mut i: usize = 0;
    let ghost views = upstreams(clients_view(client@));
    assert(views.skip(0) =~= views);
    while i < client.len()
        invariant
            i <= client.len(),
            id@.is_id(),
            views == upstreams(clients_view(client@)),
            place_of(views, id@) == (match place_of(views.skip(i as int), id@) {
                Some(p) => Some(p + i),
                None => None,
            }),
        decreases client.len() - i,
    {
        assert(views[i as int] == client@[i as int].upstream@);
        if id.same_id(&client[i].upstream) {
            return Some(i);
        }
        assert(views.skip(i as int).skip(1) =~= views.skip(i + 1));
        i += 1;
    }
    None
}

impl Bridge {
    /// A connection at its beginning: the credentials for the server, and the working
    /// directory, where it is known.
    pub fn new(initial_login: Json, cwd: Option<String>) -> (bridge: Bridge)
        ensures
            bridge@ == (BridgeView {
                phase: PhaseView::AwaitInitialize,
                client: Seq::empty(),
                server: Seq::empty(),
                initial_login: initial_login@,
                cwd: text_view(cwd),
            }),
            forall|rpc: RpcView| rpc.bounded() ==> #[trigger] bridge_wf(bridge@, rpc),
    {
        let bridge = Bridge {
            phase: Phase::AwaitInitialize,
            client: Vec::new(),
            server: Vec::new(),
            initial_login,
            cwd,
        };
        assert(bridge@.client =~= Seq::empty());
        assert(bridge@.server =~= Seq::empty());
        bridge
    }

    fn fail(&mut self, error: Error) -> (step: Step)
        ensures
            final(self)@ == old(self)@.in_phase(PhaseView::Ended),
            step@ == (StepView { finish: Some(Err(error)), ..StepView::quiet() }),
    {
        self.phase = Phase::Ended;
        let mut step = Step::quiet();
        step.finish = Some(Err(error));
        step
    }

    fn refuse(&mut self, frame: &Json, message: &str) -> (step: Step)
        ensures
            forall|rpc: RpcView|
                (Turn { bridge: final(self)@, rpc, step: step@ })
                    == #[trigger] old(self)@.refusing(rpc, frame@, message@),
    {
        match request_id(frame) {
            Err(error) => self.fail(error),
            Ok(id) => {
                self.phase = Phase::Running;
                Step::to_ui(rpc_error(id, message))
            },
        }
    }

    fn deny(&mut self, frame: &Json, message: &str) -> (step: Step)
        ensures
            forall|rpc: RpcView|
                (Turn { bridge: final(self)@, rpc, step: step@ })
                    == #[trigger] old(self)@.denying(rpc, frame@, message@),
    {
        if frame.has("id") {
            let ghost before = self@;
            let step = self.refuse(frame, message);
            proof {
                assert forall|rpc: RpcView|
                    (Turn { bridge: self@, rpc, step: step@ }) == #[trigger] before.denying(
                        rpc,
                        frame@,
                        message@,
                    ) by {
                    assert(before.denying(rpc, frame@, message@) == before.refusing(
                        rpc,
                        frame@,
                        message@,
                    ));
                }
            }
            step
        } else {
            self.phase = Phase::Running;
            Step::quiet()
        }
    }

    fn unavailable(&mut self, frame: &Json) -> (step: Step)
        ensures
            forall|rpc: RpcView|
                (Turn { bridge: final(self)@, rpc, step: step@ })
                    == #[trigger] old(self)@.unavailable(rpc, frame@),
    {
        let ghost before = self@;
        let step = self.refuse(frame, "thread or configuration unavailable or unsupported");
        proof {
            assert forall|rpc: RpcView|
                (Turn { bridge: self@, rpc, step: step@ }) == #[trigger] before.unavailable(
                    rpc,
                    frame@,
                ) by {
                assert(before.unavailable(rpc, frame@) == before.refusing(
                    rpc,
                    frame@,
                    "thread or configuration unavailable or unsupported"@,
                ));
            }
        }
        step
    }

    fn has_original(&self, id: &Json) -> (yes: bool)
        requires
            id@.is_id(),
        ensures
            yes == self@.has_original(id@),
    {
        let mut i: usize = 0;
        while i < self.client.len()
            invariant
                i <= self.client.len(),
                id@.is_id(),
                forall|j: int| 0 <= j < i ==> (#[trigger] self@.client[j]).original != id@,
            decreases self.client.len() - i,
        {
            assert(self@.client[i as int].original == self.client@[i as int].original@);
            if id.same_id(&self.client[i].original) {
                return true;
            }
            i += 1;
        }
        assert(self.client@.len() == self@.client.len());
        false
    }

    fn forward(&mut self, coding: &mut Rpc, frame: Json) -> (step: Step)
        requires
            old(coding)@.sequence < u64::MAX,
        ensures
            (Turn { bridge: final(self)@, rpc: final(coding)@, step: step@ })
                == old(self)@.forwarding(old(coding)@, frame@),
    {
        if frame.at("method").is_text("account/logout") {
            return match request_id(&frame) {
                Err(error) => self.fail(error),
                Ok(id) => {
                    self.phase = Phase::LogOut { id };
                    Step::to_host(AuthRequest::Logout)
                },
            };
        }
        if !frame.has("id") {
            self.phase = Phase::Running;
            return Step::to_coding(frame);
        }
        let original = match request_id(&frame) {
            Err(error) => return self.fail(error),
            Ok(id) => id,
        };
        if self.has_original(&original) {
            return self.fail(Error::DuplicateUiRequest);
        }
        if self.client.len() >= MAX_PENDING {
            return self.fail(Error::TooManyUiRequests);
        }
        let selects_thread = match frame.at("method").as_text() {
            Some(method) => thread_method(method),
            None => false,
        };
        let upstream = coding.next_id();
        let ghost before = self.client@;
        let sent = frame.with("id", upstream.clone());
        self.client.push(ClientRequest { upstream, original, selects_thread });
        self.phase = Phase::Running;
        proof {
            assert(clients_view(self.client@) =~= clients_view(before).push(
                self.client@.last()@,
            ));
        }
        Step::to_coding(sent)
    }

    fn ask(
        &mut self,
        coding: &mut Rpc,
        frame: Json,
        stage: CheckStage,
        method: &str,
        params: Json,
    ) -> (step: Step)
        requires
            old(coding)@.sequence < u64::MAX,
        ensures
            (Turn { bridge: final(self)@, rpc: final(coding)@, step: step@ })
                == old(self)@.asking(old(coding)@, frame@, stage, method@, params@),
    {
        let (request, question) = coding.request(method, params);
        self.phase = Phase::Checking(Check { frame, request, stage });
        Step::to_coding(question)
    }

    fn ask_config(&mut self, coding: &mut Rpc, frame: Json, cwd: String) -> (step: Step)
        requires
            old(coding)@.sequence < u64::MAX,
        ensures
            (Turn { bridge: final(self)@, rpc: final(coding)@, step: step@ })
                == old(self)@.asking_config(old(coding)@, frame@, cwd@),
    {
        let params = Json::object().with("includeLayers", Json::Bool(false)).with(
            "cwd",
            Json::Text(cwd),
        );
        self.ask(coding, frame, CheckStage::Config, "config/read", params)
    }

    fn check_thread(&mut self, coding: &mut Rpc, frame: Json) -> (step: Step)
        requires
            old(coding)@.sequence < u64::MAX,
        ensures
            (Turn { bridge: final(self)@, rpc: final(coding)@, step: step@ })
                == old(self)@.checking(old(coding)@, frame@),
    {
        let params = frame.at("params");
        if frame.at("method").is_text("thread/start") {
            let cwd = match params.at("cwd").as_text() {
                Some(cwd) => Some(cwd.to_owned()),
                None => None,
            };
            return match cwd {
                None => self.forward(coding, frame),
                Some(cwd) => self.ask_config(coding, frame, cwd),
            };
        }
        if params.at("path").as_filled_text().is_some() || !params.at("history").is_null() {
            return self.unavailable(&frame);
        }
        let thread = match params.at("threadId").as_text() {
            Some(thread) => thread.to_owned(),
            None => return self.unavailable(&frame),
        };
        let question = Json::object().with("threadId", Json::Text(thread)).with(
            "includeTurns",
            Json::Bool(false),
        );
        self.ask(coding, frame, CheckStage::Thread, "thread/read", question)
    }

    fn take_ui(&mut self, coding: &mut Rpc, frame: Json) -> (step: Step)
        requires
            old(coding)@.sequence < u64::MAX,
            server_wf(old(self)@),
        ensures
            (Turn { bridge: final(self)@, rpc: final(coding)@, step: step@ })
                == old(self)@.on_ui(old(coding)@, frame@),
    {
        match frame.at("method").as_text() {
            Some(method) => {
                if managed_method(method) {
                    return self.deny(
                        &frame,
                        "authentication is managed by coduck; use coduck login NAME",
                    );
                }
                if changes_auth_routing(method, frame.at("params")) {
                    return self.deny(
                        &frame,
                        "configure authentication and providers outside coduck",
                    );
                }
                if thread_method(method) {
                    return self.check_thread(coding, frame);
                }
                self.forward(coding, frame)
            },
            None => match request_id(&frame) {
                Err(error) => self.fail(error),
                Ok(id) => {
                    self.phase = Phase::Running;
                    if self.remove_server(&id) {
                        Step::to_coding(frame)
                    } else {
                        Step::quiet()
                    }
                },
            },
        }
    }

    fn remove_server(&mut self, id: &Json) -> (removed: bool)
        requires
            server_wf(old(self)@),
        ensures
            match place_of(old(self)@.server, id@) {
                Some(i) => removed && final(self)@ == (BridgeView {
                    server: old(self)@.server.remove(i),
                    ..old(self)@
                }),
                None => !removed && final(self)@ == old(self)@,
            },
    {
        proof {
            assert forall|i: int| 0 <= i < self.server.len() implies (
            #[trigger] self.server@[i])@.is_id() by {
                assert(self@.server[i] == self.server@[i]@);
            }
        }
        match find_id(&self.server, id) {
            Some(i) => {
                let ghost before = self.server@;
                let _ = self.server.remove(i);
                proof {
                    assert(frames_view(self.server@) =~= frames_view(before).remove(i as int));
                }
                true
            },
            None => false,
        }
    }

    fn begin_refresh(&mut self, frame: &Json, check: Option<Check>) -> (step: Step)
        ensures
            forall|rpc: RpcView|
                (Turn { bridge: final(self)@, rpc, step: step@ })
                    == #[trigger] old(self)@.refreshing(rpc, frame@, check_view(check)),
    {
        match request_id(frame) {
            Err(error) => self.fail(error),
            Ok(id) => {
                self.phase = Phase::Refresh { id, check };
                Step::to_host(AuthRequest::Refresh { params: frame.at("params").clone() })
            },
        }
    }

    fn take_coding(&mut self, frame: Json) -> (step: Step)
        requires
            server_wf(old(self)@),
        ensures
            forall|rpc: RpcView|
                (Turn { bridge: final(self)@, rpc, step: step@ })
                    == #[trigger] old(self)@.on_coding(rpc, frame@),
    {
        let ghost start = self@;
        match frame.at("method").as_text() {
            Some(method) => {
                if frame.at("method").is_text("account/chatgptAuthTokens/refresh") {
                    let step = self.begin_refresh(&frame, None);
                    proof {
                        assert forall|rpc: RpcView|
                            (Turn { bridge: self@, rpc, step: step@ })
                                == #[trigger] start.on_coding(rpc, frame@) by {
                            assert(start.on_coding(rpc, frame@) == start.refreshing(
                                rpc,
                                frame@,
                                None,
                            ));
                        }
                    }
                    return step;
                }
                if frame.has("id") {
                    let id = match request_id(&frame) {
                        Err(error) => return self.fail(error),
                        Ok(id) => id,
                    };
                    if self.server.len() >= MAX_PENDING {
                        return self.fail(Error::TooManyServerRequests);
                    }
                    proof {
                        lemma_place_of(self@.server, id@);
                        assert forall|i: int| 0 <= i < self.server.len() implies (
                        #[trigger] self.server@[i])@.is_id() by {
                            assert(self@.server[i] == self.server@[i]@);
                        }
                    }
                    if find_id(&self.server, &id).is_some() {
                        proof {
                            let p = place_of(self@.server, id@)->0;
                            assert(self@.server.contains(self@.server[p]));
                        }
                        return self.fail(Error::DuplicateServerRequest);
                    }
                    let ghost before = self.server@;
                    self.server.push(id);
                    proof {
                        assert(frames_view(self.server@) =~= frames_view(before).push(id@));
                        assert forall|i: int| 0 <= i < self@.server.len() implies (
                        #[trigger] self@.server[i]).is_id() by {
                            if i < start.server.len() {
                                assert(self@.server[i] == start.server[i]);
                            }
                        }
                        assert forall|i: int, j: int| 0 <= i < j < self@.server.len() implies
                            #[trigger] self@.server[i] != #[trigger] self@.server[j] by {
                            assert(self@.server[i] == start.server[i]);
                            if j < start.server.len() {
                                assert(self@.server[j] == start.server[j]);
                            } else {
                                assert(start.server.contains(start.server[i]));
                            }
                        }
                    }
                }
                if frame.at("method").is_text("serverRequest/resolved") {
                    let _ = self.remove_server(frame.at("params").at("requestId"));
                }
                self.phase = Phase::Running;
                Step::to_ui(frame)
            },
            None => {
                let id = match request_id(&frame) {
                    Err(error) => return self.fail(error),
                    Ok(id) => id,
                };
                match find_upstream(&self.client, &id) {
                    None => self.fail(Error::UnknownResponse),
                    Some(i) => {
                        let ghost before = self.client@;
                        let request = self.client.remove(i);
                        self.phase = Phase::Running;
                        proof {
                            assert(clients_view(self.client@) =~= clients_view(before).remove(
                                i as int,
                            ));
                            assert(start.client[i as int] == request@);
                        }
                        let session = if request.selects_thread {
                            select_thread(&frame)
                        } else {
                            None
                        };
                        let mut step = Step::to_ui(frame.with("id", request.original));
                        step.session = session;
                        step
                    },
                }
            },
        }
    }

    fn take_answer(&mut self, coding: &mut Rpc, check: Check, result: &Json) -> (step: Step)
        requires
            old(coding)@.sequence < u64::MAX,
        ensures
            (Turn { bridge: final(self)@, rpc: final(coding)@, step: step@ })
                == old(self)@.on_answer(old(coding)@, check@, result@),
    {
        let frame = check.frame;
        match check.stage {
            CheckStage::Thread => {
                let thread = result.at("thread");
                if !thread.at("modelProvider").is_text("openai") {
                    return self.unavailable(&frame);
                }
                let cwd = match frame.at("params").at("cwd").as_text() {
                    Some(cwd) => Some(cwd.to_owned()),
                    None => match thread.at("cwd").as_text() {
                        Some(cwd) => Some(cwd.to_owned()),
                        None => None,
                    },
                };
                match cwd {
                    None => self.unavailable(&frame),
                    Some(cwd) => self.ask_config(coding, frame, cwd),
                }
            },
            CheckStage::Config => match validate_config(result.at("config")) {
                Ok(()) => self.forward(coding, frame),
                Err(_) => self.unavailable(&frame),
            },
        }
    }

    fn take_checking(&mut self, coding: &mut Rpc, check: Check, frame: Json) -> (step: Step)
        requires
            old(coding)@.sequence < u64::MAX,
            check@.request.is_id(),
        ensures
            (Turn { bridge: final(self)@, rpc: final(coding)@, step: step@ })
                == old(self)@.on_checking(old(coding)@, check@, frame@),
    {
        if frame.at("method").is_text("account/chatgptAuthTokens/refresh") {
            return self.begin_refresh(&frame, Some(check));
        }
        if is_answer(&frame, &check.request) {
            if frame.has("error") {
                let error = frame.at("error");
                if frame.has("result") || !error.at("code").is_signed() || error.at(
                    "message",
                ).as_text().is_none() {
                    return self.fail(Error::InvalidPrivateError);
                }
                return self.unavailable(&check.frame);
            }
            return match frame.get("result") {
                None => self.fail(Error::InvalidPrivateResponse),
                Some(result) => self.take_answer(coding, check, result),
            };
        }
        match coding.defer(frame) {
            Ok(()) => {
                self.phase = Phase::Checking(check);
                Step::quiet()
            },
            Err(error) => self.fail(error),
        }
    }

    fn take_refreshed(&mut self, id: Json, check: Option<Check>, reply: Option<Json>) -> (step:
        Step)
        ensures
            forall|rpc: RpcView|
                (Turn { bridge: final(self)@, rpc, step: step@ }) == #[trigger] old(
                    self,
                )@.in_phase(PhaseView::Refresh { id: id@, check: check_view(check) }).on_host(
                    rpc,
                    option_view(reply),
                ),
    {
        if reply.is_some() {
            self.phase = match check {
                Some(held) => Phase::Checking(held),
                None => Phase::Running,
            };
            Step::to_coding(auth_response(id, reply))
        } else {
            self.phase = Phase::Ended;
            let mut step = Step::to_coding(auth_response(id, reply));
            step.finish = Some(Err(Error::HostRefreshFailed));
            step
        }
    }

    fn take_logged_out(&mut self, id: Json, reply: Option<Json>) -> (step: Step)
        ensures
            forall|rpc: RpcView|
                (Turn { bridge: final(self)@, rpc, step: step@ }) == #[trigger] old(
                    self,
                )@.in_phase(PhaseView::LogOut { id: id@ }).on_host(rpc, option_view(reply)),
    {
        self.phase = Phase::Ended;
        let finish = if reply.is_some() {
            Ok(Exit::LoggedOut)
        } else {
            Err(Error::HostLogoutFailed)
        };
        let mut step = Step::to_ui(auth_response(id, reply));
        step.finish = Some(finish);
        step
    }

    fn not_starting(&mut self, ui: Json) -> (step: Step)
        ensures
            final(self)@ == old(self)@.in_phase(PhaseView::Ended),
            step@ == (StepView {
                finish: Some(Err(Error::InitializationFailed)),
                ..StepView::to_ui(error_frame(ui@, "coding session initialization failed"@))
            }),
    {
        self.phase = Phase::Ended;
        let mut step = Step::to_ui(rpc_error(ui, "coding session initialization failed"));
        step.finish = Some(Err(Error::InitializationFailed));
        step
    }

    fn take_initialize(&mut self, coding: &mut Rpc, frame: Json) -> (step: Step)
        requires
            old(coding)@.sequence < u64::MAX,
        ensures
            (Turn { bridge: final(self)@, rpc: final(coding)@, step: step@ })
                == old(self)@.on_initialize(old(coding)@, frame@),
    {
        if !frame.at("method").is_text("initialize") {
            return self.fail(Error::ExpectedInitialize);
        }
        let ui = match request_id(&frame) {
            Err(error) => return self.fail(error),
            Ok(id) => id,
        };
        match prepare_params(frame.at("params")) {
            None => self.not_starting(ui),
            Some(params) => {
                let (request, question) = coding.initialize(params);
                self.phase = Phase::Initialize { ui, request };
                Step::to_coding(question)
            },
        }
    }

    fn take_initialize_answer(
        &mut self,
        coding: &mut Rpc,
        ui: Json,
        request: Json,
        frame: Json,
    ) -> (step: Step)
        requires
            old(coding)@.sequence < u64::MAX,
            request@.is_id(),
        ensures
            (Turn { bridge: final(self)@, rpc: final(coding)@, step: step@ }) == old(
                self,
            )@.in_phase(PhaseView::Initialize { ui: ui@, request: request@ }).on_startup(
                old(coding)@,
                frame@,
            ),
    {
        match coding.await_answer(&request, frame) {
            Err(_) => self.not_starting(ui),
            Ok(None) => {
                self.phase = Phase::Initialize { ui, request };
                Step::quiet()
            },
            Ok(Some(initialized)) => {
                let cwd = match &self.cwd {
                    Some(cwd) => Some(cwd.clone()),
                    None => None,
                };
                match cwd {
                    None => {
                        let mut step = self.not_starting(ui);
                        let notice = Rpc::initialized();
                        let mut sent: Vec<Json> = Vec::new();
                        sent.push(notice);
                        step.coding = sent;
                        assert(frames_view(step.coding@) =~= seq![initialized_frame()]);
                        step
                    },
                    Some(cwd) => {
                        let params = Json::object().with("includeLayers", Json::Bool(false)).with(
                            "cwd",
                            Json::Text(cwd),
                        );
                        let (next, question) = coding.request("config/read", params);
                        let ghost asked = question@;
                        self.phase = Phase::ReadConfig { ui, request: next, initialized };
                        let mut step = Step::quiet();
                        let mut sent: Vec<Json> = Vec::new();
                        sent.push(Rpc::initialized());
                        sent.push(question);
                        step.coding = sent;
                        assert(frames_view(step.coding@) =~= seq![initialized_frame(), asked]);
                        step
                    },
                }
            },
        }
    }

    fn take_config_answer(
        &mut self,
        coding: &mut Rpc,
        ui: Json,
        request: Json,
        initialized: Json,
        frame: Json,
    ) -> (step: Step)
        requires
            old(coding)@.sequence < u64::MAX,
            request@.is_id(),
        ensures
            (Turn { bridge: final(self)@, rpc: final(coding)@, step: step@ }) == old(
                self,
            )@.in_phase(
                PhaseView::ReadConfig { ui: ui@, request: request@, initialized: initialized@ },
            ).on_startup(old(coding)@, frame@),
    {
        match coding.await_answer(&request, frame) {
            Err(_) => self.not_starting(ui),
            Ok(None) => {
                self.phase = Phase::ReadConfig { ui, request, initialized };
                Step::quiet()
            },
            Ok(Some(result)) => match validate_config(result.at("config")) {
                Err(_) => self.not_starting(ui),
                Ok(()) => {
                    let (next, question) = coding.request(
                        "account/login/start",
                        self.initial_login.clone(),
                    );
                    self.phase = Phase::LogIn { ui, request: next, initialized };
                    Step::to_coding(question)
                },
            },
        }
    }

    fn take_login_answer(
        &mut self,
        coding: &mut Rpc,
        ui: Json,
        request: Json,
        initialized: Json,
        frame: Json,
    ) -> (step: Step)
        requires
            request@.is_id(),
        ensures
            (Turn { bridge: final(self)@, rpc: final(coding)@, step: step@ }) == old(
                self,
            )@.in_phase(
                PhaseView::LogIn { ui: ui@, request: request@, initialized: initialized@ },
            ).on_startup(old(coding)@, frame@),
    {
        match coding.await_answer(&request, frame) {
            Err(_) => self.not_starting(ui),
            Ok(None) => {
                self.phase = Phase::LogIn { ui, request, initialized };
                Step::quiet()
            },
            Ok(Some(result)) => {
                if !result.at("type").is_text("chatgptAuthTokens") {
                    return self.not_starting(ui);
                }
                self.phase = Phase::AwaitInitialized;
                Step::to_ui(rpc_result(ui, initialized))
            },
        }
    }

    fn take_initialized(&mut self, frame: &Json) -> (step: Step)
        ensures
            forall|rpc: RpcView|
                (Turn { bridge: final(self)@, rpc, step: step@ })
                    == #[trigger] old(self)@.on_initialized(rpc, frame@),
    {
        if !frame.at("method").is_text("initialized") || frame.has("id") {
            return self.fail(Error::ExpectedInitialized);
        }
        self.phase = Phase::Running;
        Step::quiet()
    }

    fn take_failure(&mut self, phase: Phase, error: Error) -> (step: Step)
        ensures
            forall|rpc: RpcView|
                (Turn { bridge: final(self)@, rpc, step: step@ }) == #[trigger] old(
                    self,
                )@.in_phase(phase@).on_failure(rpc, error),
    {
        match phase {
            Phase::Initialize { ui, .. } => self.not_starting(ui),
            Phase::ReadConfig { ui, .. } => self.not_starting(ui),
            Phase::LogIn { ui, .. } => self.not_starting(ui),
            _ => self.fail(error),
        }
    }

    fn take_close(&mut self, phase: &Phase) -> (step: Step)
        ensures
            forall|rpc: RpcView|
                (Turn { bridge: final(self)@, rpc, step: step@ }) == #[trigger] old(
                    self,
                )@.in_phase(phase@).on_close(rpc),
    {
        match phase {
            Phase::AwaitInitialize => self.fail(Error::UiGoneBeforeInitialize),
            Phase::AwaitInitialized => self.fail(Error::UiGoneBeforeInitialized),
            _ => {
                self.phase = Phase::Ended;
                let mut step = Step::quiet();
                step.finish = Some(Ok(Exit::Disconnected));
                step
            },
        }
    }

    /// Takes an event and says what is to be done.
    pub fn run(&mut self, coding: &mut Rpc, event: Event) -> (step: Step)
        requires
            bridge_wf(old(self)@, old(coding)@),
            old(self)@.expects(event@),
            old(coding)@.sequence < u64::MAX,
        ensures
            (Turn { bridge: final(self)@, rpc: final(coding)@, step: step@ })
                == old(self)@.turn(old(coding)@, event@),
            bridge_wf(final(self)@, final(coding)@),
    {
        let ghost start = self@;
        let ghost rpc = coding@;
        let ghost what = event@;
        proof {
            law_connection_stays_sound(start, rpc, what);
        }
        let mut phase = Phase::Ended;
        std::mem::swap(&mut phase, &mut self.phase);
        proof {
            assert(self@ =~= start.in_phase(PhaseView::Ended));
            assert(self@.in_phase(start.phase) =~= start);
        }
        match event {
            Event::Failed(error) => self.take_failure(phase, error),
            Event::UiClosed => self.take_close(&phase),
            Event::Host(reply) => match phase {
                Phase::Refresh { id, check } => self.take_refreshed(id, check, Some(reply)),
                Phase::LogOut { id } => self.take_logged_out(id, Some(reply)),
                _ => Step::quiet(),
            },
            Event::HostFailed => match phase {
                Phase::Refresh { id, check } => self.take_refreshed(id, check, None),
                Phase::LogOut { id } => self.take_logged_out(id, None),
                _ => Step::quiet(),
            },
            Event::Ui(frame) => {
                proof {
                    lemma_phase_is_replaced(start, rpc, frame@);
                }
                match phase {
                    Phase::AwaitInitialize => self.take_initialize(coding, frame),
                    Phase::AwaitInitialized => self.take_initialized(&frame),
                    _ => self.take_ui(coding, frame),
                }
            },
            Event::Coding(frame) => {
                proof {
                    lemma_phase_is_replaced(start, rpc, frame@);
                }
                match phase {
                    Phase::Running => self.take_coding(frame),
                    Phase::Checking(check) => {
                        proof {
                            lemma_issued_is_id(rpc, check@.request);
                            lemma_phase_is_replaced_while_checking(start, rpc, check@, frame@);
                        }
                        self.take_checking(coding, check, frame)
                    },
                    Phase::Initialize { ui, request } => {
                        proof {
                            lemma_issued_is_id(rpc, request@);
                        }
                        self.take_initialize_answer(coding, ui, request, frame)
                    },
                    Phase::ReadConfig { ui, request, initialized } => {
                        proof {
                            lemma_issued_is_id(rpc, request@);
                        }
                        self.take_config_answer(coding, ui, request, initialized, frame)
                    },
                    Phase::LogIn { ui, request, initialized } => {
                        proof {
                            lemma_issued_is_id(rpc, request@);
                        }
                        self.take_login_answer(coding, ui, request, initialized, frame)
                    },
                    _ => Step::quiet(),
                }
            },
        }
    }

    /// What has to happen next.
    pub fn wait(&self) -> (wait: Wait)
        ensures
            wait == awaited(self@.phase),
    {
        match &self.phase {
            Phase::AwaitInitialize => Wait::Ui,
            Phase::Initialize { .. } => Wait::Coding,
            Phase::ReadConfig { .. } => Wait::Coding,
            Phase::LogIn { .. } => Wait::Coding,
            Phase::AwaitInitialized => Wait::Ui,
            Phase::Running => Wait::Either,
            Phase::Checking(_) => Wait::Private,
            Phase::Refresh { check, .. } => match check {
                Some(_) => Wait::PrivateHost,
                None => Wait::Host,
            },
            Phase::LogOut { .. } => Wait::Host,
            Phase::Ended => Wait::Nothing,
        }
    }
}

/// Whom the connection waits for.
#[derive(Clone, Copy, Debug, PartialEq, Eq, Structural)]
pub enum Wait {
    /// For the terminal, for a limited time.
    Ui,
    /// For the server's answer to a request, for a limited time; frames that wait stay.
    Coding,
    /// For the terminal or the server; frames that wait come first.
    Either,
    /// For the server's answer to a question of the bridge's own, for a time that is limited
    /// for the question as a whole; frames that wait stay.
    Private,
    /// For the host, within the time of a question of the bridge's own.
    PrivateHost,
    /// For the host.
    Host,
    /// For nobody: the connection has ended.
    Nothing,
}

/// Decides whether the time for an answer begins anew: it does when the server was sent
/// something, unless that was a fresh token in the middle of a question of the bridge's own.
pub fn renews_deadline(waited: Wait, sent: bool) -> (renews: bool)
    ensures
        renews == (sent && waited != Wait::PrivateHost),
{
    sent && waited != Wait::PrivateHost
}

/// Whom a phase waits for.
pub open spec fn awaited(phase: PhaseView) -> Wait {
    match phase {
        PhaseView::AwaitInitialize => Wait::Ui,
        PhaseView::Initialize { .. } => Wait::Coding,
        PhaseView::ReadConfig { .. } => Wait::Coding,
        PhaseView::LogIn { .. } => Wait::Coding,
        PhaseView::AwaitInitialized => Wait::Ui,
        PhaseView::Running => Wait::Either,
        PhaseView::Checking(_) => Wait::Private,
        PhaseView::Refresh { check, .. } => if check is Some {
            Wait::PrivateHost
        } else {
            Wait::Host
        },
        PhaseView::LogOut { .. } => Wait::Host,
        PhaseView::Ended => Wait::Nothing,
    }
}

/// What a connection came to whose last step ends it, where a frame of that step could not be
/// sent to the server: that counts, except while the server is being set up, when the terminal
/// is told nothing of the reasons.
pub fn ended(finish: Result<Exit, Error>, unsent: Option<Error>) -> (result: Result<Exit, Error>)
    ensures
        result == (match unsent {
            None => finish,
            Some(error) => if finish == Err::<Exit, Error>(Error::InitializationFailed) {
                finish
            } else {
                Err(error)
            },
        }),
{
    match (finish, unsent) {
        (finish, None) => finish,
        (Err(Error::InitializationFailed), Some(_)) => Err(Error::InitializationFailed),
        (_, Some(error)) => Err(error),
    }
}

proof fn lemma_phase_is_replaced(b: BridgeView, rpc: RpcView, frame: JsonView)
    ensures
        b.in_phase(PhaseView::Ended).on_ui(rpc, frame) == b.on_ui(rpc, frame),
        b.in_phase(PhaseView::Ended).on_coding(rpc, frame) == b.on_coding(rpc, frame),
        b.in_phase(PhaseView::Ended).on_initialize(rpc, frame) == b.on_initialize(rpc, frame),
        b.in_phase(PhaseView::Ended).on_initialized(rpc, frame) == b.on_initialized(rpc, frame),
{
}

proof fn lemma_phase_is_replaced_while_checking(
    b: BridgeView,
    rpc: RpcView,
    check: CheckView,
    frame: JsonView,
)
    ensures
        b.in_phase(PhaseView::Ended).on_checking(rpc, check, frame) == b.on_checking(
            rpc,
            check,
            frame,
        ),
{
}

proof fn lemma_fresh(b: BridgeView, rpc: RpcView)
    requires
        client_wf(b, rpc),
        rpc.sequence < u64::MAX,
    ensures
        is_own(b, rpc.advanced(), rpc.next_name()),
        forall|id: JsonView| issued(rpc, id) ==> #[trigger] issued(rpc.advanced(), id),
        forall|id: JsonView| #[trigger] is_own(b, rpc, id) ==> is_own(b, rpc.advanced(), id),
        client_wf(b, rpc.advanced()),
{
    let n = (rpc.sequence + 1) as nat;
    assert(n <= rpc.advanced().sequence && rpc.next_name() == request_name(n));
    assert forall|id: JsonView| issued(rpc, id) implies #[trigger] issued(rpc.advanced(), id) by {
        let k = choose|k: nat| k <= rpc.sequence && id == #[trigger] request_name(k);
        assert(k <= rpc.advanced().sequence && id == request_name(k));
    }
    assert forall|i: int| 0 <= i < b.client.len() implies (#[trigger] b.client[i]).upstream
        != rpc.next_name() by {
        let id = b.client[i].upstream;
        assert(issued(rpc, id));
        let k = choose|k: nat| k <= rpc.sequence && id == #[trigger] request_name(k);
        law_request_names_differ(k, n);
    }
}

/// What holds of a connection whatever its phase.
spec fn base_wf(b: BridgeView, rpc: RpcView) -> bool {
    client_wf(b, rpc) && server_wf(b) && rpc.bounded()
}

spec fn turn_wf(turn: Turn) -> bool {
    bridge_wf(turn.bridge, turn.rpc)
}

proof fn lemma_server_remove(b: BridgeView, rpc: RpcView, id: JsonView)
    requires
        base_wf(b, rpc),
    ensures
        match place_of(b.server, id) {
            Some(i) => base_wf(BridgeView { server: b.server.remove(i), ..b }, rpc),
            None => true,
        },
{
    lemma_place_of(b.server, id);
    if let Some(i) = place_of(b.server, id) {
        let rest = b.server.remove(i);
        let next = BridgeView { server: rest, ..b };
        assert forall|k: int| 0 <= k < rest.len() implies (#[trigger] rest[k]).is_id() by {
            if k < i {
                assert(rest[k] == b.server[k]);
            } else {
                assert(rest[k] == b.server[k + 1]);
            }
        }
        assert forall|k: int, m: int| 0 <= k < m < rest.len() implies #[trigger] rest[k]
            != #[trigger] rest[m] by {
            let k0 = if k < i {
                k
            } else {
                k + 1
            };
            let m0 = if m < i {
                m
            } else {
                m + 1
            };
            assert(rest[k] == b.server[k0]);
            assert(rest[m] == b.server[m0]);
        }
        assert(server_wf(next));
        assert forall|k: int| 0 <= k < next.client.len() implies issued(
            rpc,
            (#[trigger] next.client[k]).upstream,
        ) && next.client[k].original.is_id() by {
            assert(next.client[k] == b.client[k]);
        }
    }
}

proof fn lemma_server_push(b: BridgeView, rpc: RpcView, id: JsonView)
    requires
        base_wf(b, rpc),
        id.is_id(),
        !b.server.contains(id),
        b.server.len() < MAX_PENDING,
    ensures
        base_wf(BridgeView { server: b.server.push(id), ..b }, rpc),
{
    let more = b.server.push(id);
    assert forall|k: int, m: int| 0 <= k < m < more.len() implies #[trigger] more[k]
        != #[trigger] more[m] by {
        assert(more[k] == b.server[k]);
        assert(b.server.contains(b.server[k]));
        if m < b.server.len() {
            assert(more[m] == b.server[m]);
        }
    }
}

proof fn lemma_client_remove(b: BridgeView, rpc: RpcView, i: int)
    requires
        base_wf(b, rpc),
        0 <= i < b.client.len(),
    ensures
        base_wf(BridgeView { client: b.client.remove(i), ..b }, rpc),
{
    let rest = b.client.remove(i);
    assert forall|k: int| 0 <= k < rest.len() implies issued(rpc, (#[trigger] rest[k]).upstream)
        && rest[k].original.is_id() by {
        if k < i {
            assert(rest[k] == b.client[k]);
        } else {
            assert(rest[k] == b.client[k + 1]);
        }
    }
    assert forall|k: int, m: int| 0 <= k < m < rest.len() implies (#[trigger] rest[k]).upstream
        != (#[trigger] rest[m]).upstream && rest[k].original != rest[m].original by {
        let k0 = if k < i {
            k
        } else {
            k + 1
        };
        let m0 = if m < i {
            m
        } else {
            m + 1
        };
        assert(rest[k] == b.client[k0]);
        assert(rest[m] == b.client[m0]);
    }
}

proof fn lemma_forwarding(b: BridgeView, rpc: RpcView, frame: JsonView)
    requires
        base_wf(b, rpc),
        rpc.sequence < u64::MAX,
    ensures
        turn_wf(b.forwarding(rpc, frame)),
{
    let turn = b.forwarding(rpc, frame);
    lemma_fresh(b, rpc);
    if let Ok(id) = request_id_of(frame) {
        if turn.bridge.client.len() > b.client.len() {
            let more = turn.bridge.client;
            let next = rpc.advanced();
            assert(!b.has_original(id));
            assert forall|k: int| 0 <= k < more.len() implies issued(
                next,
                (#[trigger] more[k]).upstream,
            ) && more[k].original.is_id() by {
                if k < b.client.len() {
                    assert(more[k] == b.client[k]);
                }
            }
            assert forall|k: int, m: int| 0 <= k < m < more.len() implies (
            #[trigger] more[k]).upstream != (#[trigger] more[m]).upstream && more[k].original
                != more[m].original by {
                assert(more[k] == b.client[k]);
                if m < b.client.len() {
                    assert(more[m] == b.client[m]);
                }
            }
        }
    }
}

proof fn lemma_asking(
    b: BridgeView,
    rpc: RpcView,
    frame: JsonView,
    stage: CheckStage,
    method: Seq<char>,
    params: JsonView,
)
    requires
        base_wf(b, rpc),
        rpc.sequence < u64::MAX,
        may_be_held(frame),
    ensures
        turn_wf(b.asking(rpc, frame, stage, method, params)),
{
    lemma_fresh(b, rpc);
    let turn = b.asking(rpc, frame, stage, method, params);
    assert(is_own(turn.bridge, turn.rpc, rpc.next_name()));
}

proof fn lemma_on_ui(b: BridgeView, rpc: RpcView, frame: JsonView)
    requires
        base_wf(b, rpc),
        rpc.sequence < u64::MAX,
    ensures
        turn_wf(b.on_ui(rpc, frame)),
{
    lemma_forwarding(b, rpc, frame);
    let params = frame.at("params"@);
    if may_be_held(frame) {
        match params.at("cwd"@).as_text() {
            Some(cwd) => lemma_asking(
                b,
                rpc,
                frame,
                CheckStage::Config,
                "config/read"@,
                JsonView::object().with("includeLayers"@, JsonView::Bool(false)).with(
                    "cwd"@,
                    JsonView::Text(cwd),
                ),
            ),
            None => {},
        }
        match params.at("threadId"@).as_text() {
            Some(thread) => lemma_asking(
                b,
                rpc,
                frame,
                CheckStage::Thread,
                "thread/read"@,
                JsonView::object().with("threadId"@, JsonView::Text(thread)).with(
                    "includeTurns"@,
                    JsonView::Bool(false),
                ),
            ),
            None => {},
        }
    }
    if let Ok(id) = request_id_of(frame) {
        lemma_server_remove(b, rpc, id);
    }
}

proof fn lemma_on_coding(b: BridgeView, rpc: RpcView, frame: JsonView)
    requires
        base_wf(b, rpc),
    ensures
        turn_wf(b.on_coding(rpc, frame)),
{
    let gone = frame.at("params"@).at("requestId"@);
    lemma_server_remove(b, rpc, gone);
    if let Ok(id) = request_id_of(frame) {
        if !b.server.contains(id) && b.server.len() < MAX_PENDING {
            lemma_server_push(b, rpc, id);
            lemma_server_remove(BridgeView { server: b.server.push(id), ..b }, rpc, gone);
        }
        lemma_place_of(upstreams(b.client), id);
        if let Some(i) = place_of(upstreams(b.client), id) {
            lemma_client_remove(b, rpc, i);
        }
    }
}

proof fn lemma_on_checking(b: BridgeView, rpc: RpcView, check: CheckView, frame: JsonView)
    requires
        base_wf(b, rpc),
        check_wf(b, rpc, check),
        rpc.sequence < u64::MAX,
    ensures
        turn_wf(b.on_checking(rpc, check, frame)),
{
    lemma_forwarding(b, rpc, check.frame);
    let turn = b.on_checking(rpc, check, frame);
    if let Some(result) = frame.get("result"@) {
        let asked = check.frame.at("params"@).at("cwd"@).as_text();
        let cwd = if asked is Some {
            asked
        } else {
            result.at("thread"@).at("cwd"@).as_text()
        };
        if let Some(directory) = cwd {
            lemma_asking(
                b,
                rpc,
                check.frame,
                CheckStage::Config,
                "config/read"@,
                JsonView::object().with("includeLayers"@, JsonView::Bool(false)).with(
                    "cwd"@,
                    JsonView::Text(directory),
                ),
            );
        }
    }
    if rpc.has_room() {
        let waiting = b.in_phase(PhaseView::Checking(check));
        assert(issued(rpc.deferring(frame), check.request));
        assert(is_own(waiting, rpc.deferring(frame), check.request));
        lemma_same_sequence(b, rpc, rpc.deferring(frame));
    }
}

proof fn lemma_same_sequence(b: BridgeView, rpc: RpcView, other: RpcView)
    requires
        client_wf(b, rpc),
        rpc.sequence == other.sequence,
    ensures
        client_wf(b, other),
        forall|id: JsonView| #[trigger] is_own(b, rpc, id) ==> is_own(b, other, id),
{
    assert forall|id: JsonView| issued(rpc, id) implies #[trigger] issued(other, id) by {
        let k = choose|k: nat| k <= rpc.sequence && id == #[trigger] request_name(k);
        assert(k <= other.sequence && id == request_name(k));
    }
}

proof fn lemma_on_startup(b: BridgeView, rpc: RpcView, frame: JsonView)
    requires
        bridge_wf(b, rpc),
        rpc.sequence < u64::MAX,
        b.phase is Initialize || b.phase is ReadConfig || b.phase is LogIn,
    ensures
        turn_wf(b.on_startup(rpc, frame)),
{
    let request = match b.phase {
        PhaseView::Initialize { ui, request } => request,
        PhaseView::ReadConfig { ui, request, initialized } => request,
        PhaseView::LogIn { ui, request, initialized } => request,
        _ => JsonView::Null,
    };
    let next = rpc.awaiting(request, frame).0;
    lemma_same_sequence(b, rpc, next);
    lemma_fresh(b, next);
    let turn = b.on_startup(rpc, frame);
    assert(is_own(b, next, request));
    assert(is_own(turn.bridge, next.advanced(), next.next_name()));
    lemma_same_sequence(turn.bridge, next, next);
}

/// Everything that holds of a connection goes on to hold: whatever happens, there are never
/// more pending requests or waiting frames than the limit, no two requests share an
/// identifier, and no question of the bridge's own shares one with a request.
pub proof fn law_connection_stays_sound(b: BridgeView, rpc: RpcView, event: EventView)
    requires
        bridge_wf(b, rpc),
        b.expects(event),
        rpc.sequence < u64::MAX,
    ensures
        bridge_wf(b.turn(rpc, event).bridge, b.turn(rpc, event).rpc),
{
    match event {
        EventView::Ui(frame) => match b.phase {
            PhaseView::AwaitInitialize => {
                lemma_fresh(b, rpc);
                let turn = b.on_initialize(rpc, frame);
                assert(is_own(turn.bridge, rpc.advanced(), rpc.next_name()));
            },
            PhaseView::AwaitInitialized => {},
            _ => lemma_on_ui(b, rpc, frame),
        },
        EventView::Coding(frame) => match b.phase {
            PhaseView::Running => lemma_on_coding(b, rpc, frame),
            PhaseView::Checking(check) => lemma_on_checking(b, rpc, check, frame),
            _ => lemma_on_startup(b, rpc, frame),
        },
        _ => {
            if let PhaseView::Refresh { id, check } = b.phase {
                if let Some(held) = check {
                    let turn = b.turn(rpc, event);
                    assert(is_own(turn.bridge, rpc, held.request));
                }
            }
        },
    }
}

} // verus!
