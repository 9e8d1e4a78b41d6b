//! What the bridge promises to the terminal, the server and the owner of the credentials.

use crate::bridge::{
    coding_config_fault, error_frame, host_frame, is_managed, is_rerouting, is_thread_id,
    is_thread_method, request_id_of, result_frame, selected_thread, AuthRequestView, Exit,
};
use crate::error::Error;
use crate::json::JsonView;
use crate::relay::{
    bridge_wf, issued, lemma_place_of, place_of, upstreams, BridgeView, CheckStage, CheckView,
    ClientRequestView, EventView, PhaseView, StepView, Turn,
};
use crate::rpc::{answers, initialized_frame, request_frame, request_name, RpcView};
use vstd::prelude::*;

verus! {

/// Whether the server has been set up and the connection goes on.
pub open spec fn is_set_up(b: BridgeView) -> bool {
    b.phase is Running || b.phase is Checking || b.phase is Refresh || b.phase is LogOut
}

/// Whether a frame is harmless to the credentials: it names no method that deals with them,
/// and does not change whom the server talks to.
pub open spec fn is_harmless(frame: JsonView) -> bool {
    match frame.at("method"@).as_text() {
        Some(method) => !is_managed(method) && !is_rerouting(method, frame.at("params"@)),
        None => true,
    }
}

proof fn lemma_keys()
    ensures
        "id"@ != "method"@,
        "id"@ != "params"@,
        "method"@ != "params"@,
        "result"@ != "method"@,
        "error"@ != "method"@,
        "id"@ != "error"@,
        "id"@ != "result"@,
{
    reveal_strlit("id");
    reveal_strlit("method");
    reveal_strlit("params");
    reveal_strlit("result");
    reveal_strlit("error");
    assert("id"@.len() == 2);
    assert("method"@.len() == 6);
    assert("params"@.len() == 6);
    assert("result"@.len() == 6);
    assert("error"@.len() == 5);
    assert("method"@[0] == 'm');
    assert("params"@[0] == 'p');
    assert("result"@[0] == 'r');
}

proof fn lemma_questions_are_harmless()
    ensures
        !is_managed("thread/read"@),
        !is_managed("config/read"@),
        forall|params: JsonView| !#[trigger] is_rerouting("thread/read"@, params),
        forall|params: JsonView| !#[trigger] is_rerouting("config/read"@, params),
        !is_thread_method("thread/read"@),
        !is_thread_method("config/read"@),
{
    reveal_strlit("thread/read");
    reveal_strlit("config/read");
    reveal_strlit("account/login/start");
    reveal_strlit("account/login/cancel");
    reveal_strlit("account/bedrock/setup");
    reveal_strlit("account/bedrock/discover");
    reveal_strlit("loginAccount");
    reveal_strlit("getAuthStatus");
    reveal_strlit("account/chatgptAuthTokens/refresh");
    reveal_strlit("initialize");
    reveal_strlit("config/value/write");
    reveal_strlit("config/batchWrite");
    reveal_strlit("thread/start");
    reveal_strlit("thread/resume");
    reveal_strlit("thread/fork");
    assert("thread/read"@.len() == 11);
    assert("config/read"@.len() == 11);
    assert("thread/fork"@.len() == 11);
    assert("thread/fork"@[7] == 'f');
    assert("thread/read"@[7] == 'r');
    assert("config/read"@[0] == 'c');
    assert("thread/fork"@[0] == 't');
    assert("account/login/start"@.len() == 19);
    assert("account/login/cancel"@.len() == 20);
    assert("account/bedrock/setup"@.len() == 21);
    assert("account/bedrock/discover"@.len() == 24);
    assert("loginAccount"@.len() == 12);
    assert("getAuthStatus"@.len() == 13);
    assert("account/chatgptAuthTokens/refresh"@.len() == 33);
    assert("initialize"@.len() == 10);
    assert("config/value/write"@.len() == 18);
    assert("config/batchWrite"@.len() == 17);
    assert("thread/start"@.len() == 12);
    assert("thread/resume"@.len() == 13);
}

/// A question of the bridge's own is harmless.
proof fn lemma_question(id: JsonView, method: Seq<char>, params: JsonView)
    ensures
        request_frame(id, method, params).at("method"@) == JsonView::Text(method),
        request_frame(id, method, params).at("params"@) == params,
{
    lemma_keys();
}

proof fn lemma_renamed(frame: JsonView, id: JsonView)
    requires
        frame.has("id"@),
    ensures
        frame.with("id"@, id).at("method"@) == frame.at("method"@),
        frame.with("id"@, id).at("params"@) == frame.at("params"@),
        frame.with("id"@, id).get("id"@) == Some(id),
{
    lemma_keys();
}

proof fn lemma_forwarded_is_harmless(b: BridgeView, rpc: RpcView, frame: JsonView)
    requires
        is_harmless(frame),
    ensures
        forall|i: int|
            0 <= i < b.forwarding(rpc, frame).step.coding.len() ==> is_harmless(
                #[trigger] b.forwarding(rpc, frame).step.coding[i],
            ),
{
    if frame.has("id"@) {
        lemma_renamed(frame, rpc.next_name());
    }
}

proof fn lemma_asked_is_harmless(
    b: BridgeView,
    rpc: RpcView,
    frame: JsonView,
    stage: CheckStage,
    method: Seq<char>,
    params: JsonView,
)
    requires
        method == "thread/read"@ || method == "config/read"@,
    ensures
        ({
            let step = b.asking(rpc, frame, stage, method, params).step;
            step.coding.len() == 1 && is_harmless(step.coding[0]) && step.coding[0].at("method"@)
                == JsonView::Text(method)
        }),
{
    lemma_question(rpc.next_name(), method, params);
    lemma_questions_are_harmless();
}

/// Once the server is set up, nothing that reaches it deals with credentials or changes whom
/// it talks to: not what the terminal sends, not what was held back, and not what the bridge
/// itself asks.
pub proof fn law_only_harmless_frames_reach_the_server(
    b: BridgeView,
    rpc: RpcView,
    event: EventView,
)
    requires
        bridge_wf(b, rpc),
        is_set_up(b),
        b.expects(event),
    ensures
        forall|i: int|
            0 <= i < b.turn(rpc, event).step.coding.len() ==> is_harmless(
                #[trigger] b.turn(rpc, event).step.coding[i],
            ),
{
    lemma_keys();
    let turn = b.turn(rpc, event);
    match event {
        EventView::Ui(frame) => {
            if is_harmless(frame) {
                lemma_forwarded_is_harmless(b, rpc, frame);
            }
            lemma_ui_questions(b, rpc, frame);
        },
        EventView::Coding(frame) => match b.phase {
            PhaseView::Checking(check) => {
                assert(is_harmless(check.frame));
                lemma_forwarded_is_harmless(b, rpc, check.frame);
                lemma_answer_questions(b, rpc, check, frame);
            },
            _ => {},
        },
        EventView::Host(reply) => {
            if let PhaseView::Refresh { id, check } = b.phase {
                assert(host_frame(id, Some(reply)).at("method"@) is Null);
            }
        },
        EventView::HostFailed => {
            if let PhaseView::Refresh { id, check } = b.phase {
                assert(host_frame(id, None).at("method"@) is Null);
            }
        },
        _ => {},
    }
}

proof fn lemma_ui_questions(b: BridgeView, rpc: RpcView, frame: JsonView)
    ensures
        b.checking(rpc, frame).bridge.phase is Checking ==> ({
            let step = b.checking(rpc, frame).step;
            step.coding.len() == 1 && is_harmless(step.coding[0]) && (step.coding[0].at("method"@)
                == JsonView::Text("thread/read"@) || step.coding[0].at("method"@)
                == JsonView::Text("config/read"@))
        }),
        !(b.checking(rpc, frame).bridge.phase is Checking) ==> b.checking(rpc, frame).step
            == b.forwarding(rpc, frame).step || b.checking(rpc, frame).step.coding.len() == 0,
{
    let params = frame.at("params"@);
    match params.at("cwd"@).as_text() {
        Some(cwd) => lemma_asked_is_harmless(
            b,
            rpc,
            frame,
            CheckStage::Config,
            "config/read"@,
            JsonView::object().with("includeLayers"@, JsonView::Bool(false)).with(
                "cwd"@,
                JsonView::Text(cwd),
            ),
        ),
        None => {},
    }
    match params.at("threadId"@).as_text() {
        Some(thread) => lemma_asked_is_harmless(
            b,
            rpc,
            frame,
            CheckStage::Thread,
            "thread/read"@,
            JsonView::object().with("threadId"@, JsonView::Text(thread)).with(
                "includeTurns"@,
                JsonView::Bool(false),
            ),
        ),
        None => {},
    }
}

proof fn lemma_answer_questions(b: BridgeView, rpc: RpcView, check: CheckView, frame: JsonView)
    ensures
        ({
            let turn = b.on_checking(rpc, check, frame);
            ||| turn.step.coding.len() == 0
            ||| turn.step == b.forwarding(rpc, check.frame).step && check.stage
                == CheckStage::Config && answers(frame, check.request) && !frame.has("error"@)
                && coding_config_fault(frame.at("result"@).at("config"@)) is None
            ||| turn.step.coding.len() == 1 && is_harmless(turn.step.coding[0])
                && turn.step.coding[0].at("method"@) == JsonView::Text("config/read"@)
        }),
{
    if let Some(result) = frame.get("result"@) {
        let asked = check.frame.at("params"@).at("cwd"@).as_text();
        let cwd = if asked is Some {
            asked
        } else {
            result.at("thread"@).at("cwd"@).as_text()
        };
        if let Some(directory) = cwd {
            lemma_asked_is_harmless(
                b,
                rpc,
                check.frame,
                CheckStage::Config,
                "config/read"@,
                JsonView::object().with("includeLayers"@, JsonView::Bool(false)).with(
                    "cwd"@,
                    JsonView::Text(directory),
                ),
            );
        }
    }
}

/// A frame of the terminal that deals with credentials, or would change whom the server talks
/// to, goes nowhere and changes nothing; where it can be answered it is answered with an
/// error.
pub proof fn law_denied_requests_go_nowhere(b: BridgeView, rpc: RpcView, frame: JsonView)
    requires
        b.phase is Running,
        !is_harmless(frame),
        frame.has("id"@) ==> request_id_of(frame) is Ok,
    ensures
        ({
            let turn = b.turn(rpc, EventView::Ui(frame));
            &&& turn.bridge == b
            &&& turn.rpc == rpc
            &&& turn.step.coding.len() == 0 && turn.step.host is None && turn.step.finish is None
            &&& turn.step.session is None
            &&& frame.has("id"@) ==> exists|message: Seq<char>|
                turn.step.ui == Some(#[trigger] error_frame(request_id_of(frame)->Ok_0, message))
            &&& !frame.has("id"@) ==> turn.step.ui is None
        }),
{
    assert(b.in_phase(PhaseView::Running) =~= b);
}

/// A request for a thread reaches the server only when it begins a thread where the server
/// was set up, or when the server has just said that an accepted configuration is in effect
/// where the thread will run.
pub proof fn law_threads_need_an_accepted_configuration(
    b: BridgeView,
    rpc: RpcView,
    event: EventView,
    i: int,
)
    requires
        bridge_wf(b, rpc),
        is_set_up(b),
        b.expects(event),
        0 <= i < b.turn(rpc, event).step.coding.len(),
        b.turn(rpc, event).step.coding[i].at("method"@).as_text() matches Some(method)
            && is_thread_method(method),
    ensures
        ({
            ||| {
                &&& b.phase is Running
                &&& event matches EventView::Ui(frame) && frame.at("method"@) == JsonView::Text(
                    "thread/start"@,
                ) && frame.at("params"@).at("cwd"@).as_text() is None
            }
            ||| {
                &&& b.phase matches PhaseView::Checking(check) && check.stage == CheckStage::Config
                    && (event matches EventView::Coding(frame) && answers(frame, check.request)
                    && !frame.has("error"@) && coding_config_fault(
                    frame.at("result"@).at("config"@),
                ) is None)
            }
        }),
{
    lemma_keys();
    lemma_questions_are_harmless();
    match event {
        EventView::Ui(frame) => {
            if frame.has("id"@) {
                lemma_renamed(frame, rpc.next_name());
            }
            lemma_ui_questions(b, rpc, frame);
        },
        EventView::Coding(frame) => match b.phase {
            PhaseView::Checking(check) => {
                lemma_answer_questions(b, rpc, check, frame);
            },
            _ => {},
        },
        EventView::Host(reply) => {
            if let PhaseView::Refresh { id, check } = b.phase {
                assert(host_frame(id, Some(reply)).at("method"@) is Null);
            }
        },
        EventView::HostFailed => {
            if let PhaseView::Refresh { id, check } = b.phase {
                assert(host_frame(id, None).at("method"@) is Null);
            }
        },
        _ => {},
    }
}

/// A request that is sent on is answered under the identifier that the terminal gave it,
/// whatever other requests are pending, and with nothing else in the answer changed. The
/// answer is delivered once: a second one is a breach of protocol.
pub proof fn law_answers_return_to_their_request(
    b: BridgeView,
    rpc: RpcView,
    i: int,
    answer: JsonView,
)
    requires
        bridge_wf(b, rpc),
        b.phase is Running,
        0 <= i < b.client.len(),
        answer.at("method"@).as_text() is None,
        answer.get("id"@) == Some(b.client[i].upstream),
    ensures
        ({
            let turn = b.turn(rpc, EventView::Coding(answer));
            &&& turn.step.ui == Some(answer.with("id"@, b.client[i].original))
            &&& turn.step.finish is None
            &&& turn.bridge == (BridgeView { client: b.client.remove(i), ..b })
            &&& turn.bridge.turn(rpc, EventView::Coding(answer)).step.finish == Some(
                Err::<Exit, Error>(Error::UnknownResponse),
            )
        }),
{
    let id = b.client[i].upstream;
    let ids = upstreams(b.client);
    assert(b.client[i].upstream.is_id());
    lemma_place_of(ids, id);
    assert(ids[i] == id);
    assert(ids.contains(id)) by {
        assert(ids[i] == id);
    }
    let p = place_of(ids, id)->0;
    assert(b.client[p].upstream == id) by {
        assert(ids[p] == id);
    }
    assert(p == i) by {
        if p < i {
            assert(b.client[p].upstream != b.client[i].upstream);
        } else if i < p {
            assert(b.client[i].upstream != b.client[p].upstream);
        }
    }
    let rest = b.client.remove(i);
    let left = upstreams(rest);
    lemma_place_of(left, id);
    assert(!left.contains(id)) by {
        assert forall|k: int| 0 <= k < left.len() implies left[k] != id by {
            if k < i {
                assert(rest[k] == b.client[k]);
                assert(b.client[k].upstream != b.client[i].upstream);
            } else {
                assert(rest[k] == b.client[k + 1]);
                assert(b.client[i].upstream != b.client[k + 1].upstream);
            }
        }
    }
    assert(b.in_phase(PhaseView::Running) =~= b);
}

/// What the terminal asks goes to the server under an identifier of the bridge's own, and the
/// answer to that identifier is the answer to what was asked.
pub proof fn law_request_and_answer(
    b: BridgeView,
    rpc: RpcView,
    frame: JsonView,
    answer: JsonView,
)
    requires
        bridge_wf(b, rpc),
        rpc.sequence < u64::MAX,
        b.phase is Running,
        is_harmless(frame),
        frame.at("method"@).as_text() matches Some(method) && !is_thread_method(method) && method
            != "account/logout"@,
        request_id_of(frame) is Ok,
        !b.has_original(request_id_of(frame)->Ok_0),
        b.client.len() < crate::rpc::MAX_PENDING,
        answer.at("method"@).as_text() is None,
        answer.get("id"@) == Some(rpc.next_name()),
    ensures
        ({
            let sent = b.turn(rpc, EventView::Ui(frame));
            let back = sent.bridge.turn(sent.rpc, EventView::Coding(answer));
            &&& sent.step == StepView::to_coding(frame.with("id"@, rpc.next_name()))
            &&& back.step.ui == Some(answer.with("id"@, request_id_of(frame)->Ok_0))
            &&& back.bridge == b
        }),
{
    let sent = b.turn(rpc, EventView::Ui(frame));
    crate::relay::law_connection_stays_sound(b, rpc, EventView::Ui(frame));
    let i = b.client.len() as int;
    law_answers_return_to_their_request(sent.bridge, sent.rpc, i, answer);
    assert(sent.bridge.client.remove(i) =~= b.client);
    let back = sent.bridge.turn(sent.rpc, EventView::Coding(answer));
    assert(back.bridge =~= b);
}

/// A connection and its link to the server.
pub struct Connection {
    pub bridge: BridgeView,
    pub rpc: RpcView,
}

/// What can happen next on a connection.
pub enum Moment {
    /// Something arrives, or fails to.
    Arrives(EventView),
    /// The first of the frames that wait is taken up again.
    TakenUp,
}

impl Connection {
    /// What the connection is told.
    pub open spec fn event(self, moment: Moment) -> EventView {
        match moment {
            Moment::Arrives(event) => event,
            Moment::TakenUp => EventView::Coding(self.rpc.pending[0]),
        }
    }

    /// The link to the server when the connection is told.
    pub open spec fn link(self, moment: Moment) -> RpcView {
        match moment {
            Moment::Arrives(_) => self.rpc,
            Moment::TakenUp => RpcView { pending: self.rpc.pending.skip(1), ..self.rpc },
        }
    }

    /// Whether a moment can come: what arrives is awaited, and waiting frames are taken up
    /// only while messages go both ways.
    pub open spec fn allows(self, moment: Moment) -> bool {
        &&& self.bridge.expects(self.event(moment))
        &&& self.rpc.sequence < u64::MAX
        &&& moment is TakenUp ==> self.bridge.phase is Running && self.rpc.pending.len() > 0
    }

    /// What a moment does to the connection.
    pub open spec fn turn(self, moment: Moment) -> Turn {
        self.bridge.turn(self.link(moment), self.event(moment))
    }

    /// Whether a moment brings the answer to a request, and the terminal gets it under the
    /// identifier that it gave, otherwise unchanged.
    pub open spec fn answers_to(self, moment: Moment, request: ClientRequestView) -> bool {
        &&& self.bridge.phase is Running
        &&& self.event(moment) matches EventView::Coding(frame) && {
            &&& frame.at("method"@).as_text() is None
            &&& frame.get("id"@) == Some(request.upstream)
            &&& self.turn(moment).step.ui == Some(frame.with("id"@, request.original))
        }
    }

    /// Whether a moment settles a request of the server: the terminal answers it, and the
    /// answer is sent on as it is, or the server says that it is resolved.
    pub open spec fn settles(self, moment: Moment, id: JsonView) -> bool {
        &&& self.bridge.phase is Running
        &&& match self.event(moment) {
            EventView::Ui(frame) => {
                &&& frame.at("method"@).as_text() is None
                &&& request_id_of(frame) == Ok::<JsonView, Error>(id)
                &&& self.turn(moment).step == StepView::to_coding(frame)
            },
            EventView::Coding(frame) => {
                &&& frame.at("method"@) == JsonView::Text("serverRequest/resolved"@)
                &&& frame.at("params"@).at("requestId"@) == id
            },
            _ => false,
        }
    }

    /// The connection when these moments have followed one another.
    pub open spec fn after(self, moments: Seq<Moment>) -> Connection
        decreases moments.len(),
    {
        if moments.len() == 0 {
            self
        } else {
            let turn = self.after(moments.drop_last()).turn(moments.last());
            Connection { bridge: turn.bridge, rpc: turn.rpc }
        }
    }

    /// Whether each of these moments can come when its turn is.
    pub open spec fn allows_all(self, moments: Seq<Moment>) -> bool
        decreases moments.len(),
    {
        moments.len() == 0 || {
            &&& self.allows_all(moments.drop_last())
            &&& self.after(moments.drop_last()).allows(moments.last())
        }
    }
}

/// A request of the terminal that was sent on stays pending through whatever happens until
/// its answer comes, which goes to the terminal under the identifier that it gave; only the
/// end of the connection takes it away otherwise.
pub proof fn law_requests_stay_pending_until_answered(
    start: Connection,
    moments: Seq<Moment>,
    request: ClientRequestView,
)
    requires
        bridge_wf(start.bridge, start.rpc),
        start.bridge.client.contains(request),
        start.allows_all(moments),
    ensures
        ({
            let end = start.after(moments);
            ||| end.bridge.phase is Ended
            ||| end.bridge.client.contains(request)
            ||| exists|k: int|
                0 <= k < moments.len() && #[trigger] start.after(moments.take(k)).answers_to(
                    moments[k],
                    request,
                )
        }),
{
    lemma_stays_pending(start, moments, request);
}

/// A request of the server stays pending through whatever happens until the terminal answers
/// it or the server says that it is resolved; only the end of the connection takes it away
/// otherwise.
pub proof fn law_server_requests_stay_pending_until_settled(
    start: Connection,
    moments: Seq<Moment>,
    id: JsonView,
)
    requires
        bridge_wf(start.bridge, start.rpc),
        start.bridge.server.contains(id),
        start.allows_all(moments),
    ensures
        ({
            let end = start.after(moments);
            ||| end.bridge.phase is Ended
            ||| end.bridge.server.contains(id)
            ||| exists|k: int|
                0 <= k < moments.len() && #[trigger] start.after(moments.take(k)).settles(
                    moments[k],
                    id,
                )
        }),
    decreases moments.len(),
{
    if moments.len() > 0 {
        let earlier = moments.drop_last();
        let last = moments.last();
        let n = moments.len() - 1;
        let before = start.after(earlier);
        law_server_requests_stay_pending_until_settled(start, earlier, id);
        assert(moments.take(n) =~= earlier);
        if before.bridge.server.contains(id) {
            lemma_server_stays_pending_at_once(before, last, id);
            if before.settles(last, id) {
                assert(start.after(moments.take(n)).settles(moments[n], id));
            }
        } else {
            let k = choose|k: int|
                0 <= k < earlier.len() && #[trigger] start.after(earlier.take(k)).settles(
                    earlier[k],
                    id,
                );
            assert(earlier.take(k) =~= moments.take(k));
            assert(start.after(moments.take(k)).settles(moments[k], id));
        }
    }
}

proof fn lemma_server_stays_pending_at_once(before: Connection, moment: Moment, id: JsonView)
    requires
        before.allows(moment),
        before.bridge.server.contains(id),
    ensures
        ({
            let turn = before.turn(moment);
            ||| turn.bridge.phase is Ended
            ||| turn.bridge.server.contains(id)
            ||| before.settles(moment, id)
        }),
{
    let b = before.bridge;
    let i = choose|i: int| 0 <= i < b.server.len() && b.server[i] == id;
    match before.event(moment) {
        EventView::Ui(frame) => {
            if b.phase is Running && frame.at("method"@).as_text() is None {
                if let Ok(settled) = request_id_of(frame) {
                    lemma_place_of(b.server, settled);
                    if settled != id {
                        lemma_others_stay(b.server, settled, i);
                    }
                }
            }
        },
        EventView::Coding(frame) => {
            if b.phase is Running {
                let settled = frame.at("params"@).at("requestId"@);
                let noted = b.server.push(request_id_of(frame)->Ok_0);
                assert(noted[i] == id);
                assert(noted.contains(id));
                if settled != id {
                    lemma_others_stay(b.server, settled, i);
                    lemma_others_stay(noted, settled, i);
                }
            }
        },
        _ => {},
    }
}

proof fn lemma_others_stay(ids: Seq<JsonView>, id: JsonView, i: int)
    requires
        0 <= i < ids.len(),
        ids[i] != id,
    ensures
        place_of(ids, id) matches Some(p) ==> ids.remove(p).contains(ids[i]),
{
    lemma_place_of(ids, id);
    if let Some(p) = place_of(ids, id) {
        let rest = ids.remove(p);
        if i < p {
            assert(rest[i] == ids[i]);
        } else {
            assert(rest[i - 1] == ids[i]);
        }
    }
}

proof fn lemma_stays_pending(
    start: Connection,
    moments: Seq<Moment>,
    request: ClientRequestView,
)
    requires
        bridge_wf(start.bridge, start.rpc),
        start.bridge.client.contains(request),
        start.allows_all(moments),
    ensures
        bridge_wf(start.after(moments).bridge, start.after(moments).rpc),
        ({
            let end = start.after(moments);
            ||| end.bridge.phase is Ended
            ||| end.bridge.client.contains(request)
            ||| exists|k: int|
                0 <= k < moments.len() && #[trigger] start.after(moments.take(k)).answers_to(
                    moments[k],
                    request,
                )
        }),
    decreases moments.len(),
{
    if moments.len() > 0 {
        let earlier = moments.drop_last();
        let last = moments.last();
        let n = moments.len() - 1;
        let before = start.after(earlier);
        lemma_stays_pending(start, earlier, request);
        assert(moments.take(n) =~= earlier);
        let link = before.link(last);
        assert(bridge_wf(before.bridge, link)) by {
            lemma_same_link(before.bridge, before.rpc, link);
        }
        crate::relay::law_connection_stays_sound(before.bridge, link, before.event(last));
        if before.bridge.client.contains(request) {
            lemma_stays_pending_at_once(before.bridge, link, before.event(last), request);
            if before.answers_to(last, request) {
                assert(start.after(moments.take(n)).answers_to(moments[n], request));
            }
        } else {
            let k = choose|k: int|
                0 <= k < earlier.len() && #[trigger] start.after(earlier.take(k)).answers_to(
                    earlier[k],
                    request,
                );
            assert(earlier.take(k) =~= moments.take(k));
            assert(start.after(moments.take(k)).answers_to(moments[k], request));
        }
    }
}

proof fn lemma_same_link(b: BridgeView, rpc: RpcView, link: RpcView)
    requires
        bridge_wf(b, rpc),
        link.sequence == rpc.sequence,
        link.bounded(),
    ensures
        bridge_wf(b, link),
{
    assert forall|id: JsonView| issued(rpc, id) implies #[trigger] issued(link, id) by {
        let n = choose|n: nat| n <= rpc.sequence && id == #[trigger] request_name(n);
        assert(n <= link.sequence && id == request_name(n));
    }
}

proof fn lemma_forwarding_keeps(
    b: BridgeView,
    rpc: RpcView,
    frame: JsonView,
    request: ClientRequestView,
)
    requires
        b.client.contains(request),
    ensures
        b.forwarding(rpc, frame).bridge.client.contains(request),
{
    let i = choose|i: int| 0 <= i < b.client.len() && b.client[i] == request;
    assert(b.forwarding(rpc, frame).bridge.client[i] == request);
}

proof fn lemma_stays_pending_at_once(
    b: BridgeView,
    rpc: RpcView,
    event: EventView,
    request: ClientRequestView,
)
    requires
        bridge_wf(b, rpc),
        b.expects(event),
        b.client.contains(request),
    ensures
        ({
            let turn = b.turn(rpc, event);
            ||| turn.bridge.phase is Ended
            ||| turn.bridge.client.contains(request)
            ||| {
                &&& b.phase is Running
                &&& event matches EventView::Coding(frame) && {
                    &&& frame.at("method"@).as_text() is None
                    &&& frame.get("id"@) == Some(request.upstream)
                    &&& turn.step.ui == Some(frame.with("id"@, request.original))
                }
            }
        }),
{
    let i = choose|i: int| 0 <= i < b.client.len() && b.client[i] == request;
    let turn = b.turn(rpc, event);
    match event {
        EventView::Ui(frame) => {
            lemma_forwarding_keeps(b, rpc, frame, request);
        },
        EventView::Coding(frame) => {
            if let PhaseView::Checking(check) = b.phase {
                lemma_forwarding_keeps(b, rpc, check.frame, request);
            }
        },
        _ => {},
    }
    if b.phase is Running && event is Coding && !turn.bridge.client.contains(request)
        && !(turn.bridge.phase is Ended) {
        let frame = event->Coding_0;
        let id = request_id_of(frame)->Ok_0;
        let ids = upstreams(b.client);
        lemma_place_of(ids, id);
        let p = place_of(ids, id)->0;
        assert(ids[p] == b.client[p].upstream);
        if p < i {
            assert(turn.bridge.client[i - 1] == request);
        } else if i < p {
            assert(turn.bridge.client[i] == request);
        }
    }
}

/// The terminal's answer to a request of the server is sent on once and unchanged. A second
/// answer, or one to a request that is not pending, is dropped without ending the connection.
pub proof fn law_late_answers_are_dropped(b: BridgeView, rpc: RpcView, answer: JsonView)
    requires
        bridge_wf(b, rpc),
        b.phase is Running,
        answer.at("method"@).as_text() is None,
        request_id_of(answer) is Ok,
    ensures
        ({
            let id = request_id_of(answer)->Ok_0;
            let turn = b.turn(rpc, EventView::Ui(answer));
            let again = turn.bridge.turn(turn.rpc, EventView::Ui(answer));
            &&& b.server.contains(id) ==> turn.step == StepView::to_coding(answer)
            &&& !b.server.contains(id) ==> turn.step == StepView::quiet() && turn.bridge == b
            &&& !turn.bridge.server.contains(id)
            &&& again.step == StepView::quiet()
        }),
{
    let id = request_id_of(answer)->Ok_0;
    lemma_place_of(b.server, id);
    lemma_removed(b.server, id);
    let turn = b.turn(rpc, EventView::Ui(answer));
    lemma_place_of(turn.bridge.server, id);
    assert(b.in_phase(PhaseView::Running) =~= b);
    if let Some(p) = place_of(b.server, id) {
        assert(b.server.contains(b.server[p]));
    }
}

proof fn lemma_removed(ids: Seq<JsonView>, id: JsonView)
    requires
        forall|i: int, j: int|
            0 <= i < j < ids.len() ==> #[trigger] ids[i] != #[trigger] ids[j],
    ensures
        place_of(ids, id) matches Some(p) ==> !ids.remove(p).contains(id),
{
    lemma_place_of(ids, id);
    if let Some(p) = place_of(ids, id) {
        let rest = ids.remove(p);
        assert forall|k: int| 0 <= k < rest.len() implies rest[k] != id by {
            if k < p {
                assert(rest[k] == ids[k]);
            } else {
                assert(rest[k] == ids[k + 1]);
                assert(ids[p] != ids[k + 1]);
            }
        }
    }
}

/// A request that the server says is resolved is no longer pending, and the terminal is told
/// in the server's own words.
pub proof fn law_resolved_requests_are_forgotten(b: BridgeView, rpc: RpcView, notice: JsonView)
    requires
        bridge_wf(b, rpc),
        b.phase is Running,
        notice.at("method"@) == JsonView::Text("serverRequest/resolved"@),
        !notice.has("id"@),
    ensures
        ({
            let turn = b.turn(rpc, EventView::Coding(notice));
            &&& turn.step == StepView::to_ui(notice)
            &&& !turn.bridge.server.contains(notice.at("params"@).at("requestId"@))
            &&& turn.bridge.client == b.client
        }),
{
    reveal_strlit("serverRequest/resolved");
    reveal_strlit("account/chatgptAuthTokens/refresh");
    assert("serverRequest/resolved"@.len() == 22);
    assert("account/chatgptAuthTokens/refresh"@.len() == 33);
    let id = notice.at("params"@).at("requestId"@);
    lemma_place_of(b.server, id);
    lemma_removed(b.server, id);
}

/// A logout never reaches the server: the host is asked, the terminal gets the host's answer,
/// and then the connection ends.
pub proof fn law_logout_stays_with_the_host(
    b: BridgeView,
    rpc: RpcView,
    frame: JsonView,
    reply: JsonView,
)
    requires
        b.phase is Running,
        frame.at("method"@) == JsonView::Text("account/logout"@),
        is_harmless(frame),
        request_id_of(frame) is Ok,
    ensures
        ({
            let id = request_id_of(frame)->Ok_0;
            let asked = b.turn(rpc, EventView::Ui(frame));
            let done = asked.bridge.turn(asked.rpc, EventView::Host(reply));
            let failed = asked.bridge.turn(asked.rpc, EventView::HostFailed);
            &&& asked.step == StepView::to_host(AuthRequestView::Logout)
            &&& done.step.coding.len() == 0 && done.step.ui == Some(result_frame(id, reply))
            &&& done.step.finish == Some(Ok::<Exit, Error>(Exit::LoggedOut))
            &&& failed.step.coding.len() == 0 && failed.step.ui == Some(host_frame(id, None))
            &&& failed.step.finish == Some(Err::<Exit, Error>(Error::HostLogoutFailed))
        }),
{
    reveal_strlit("account/logout");
    reveal_strlit("thread/start");
    reveal_strlit("thread/resume");
    reveal_strlit("thread/fork");
    assert("account/logout"@.len() == 14);
    assert("thread/start"@.len() == 12);
    assert("thread/resume"@.len() == 13);
    assert("thread/fork"@.len() == 11);
}

/// Logging out is not among the methods that are denied.
pub proof fn law_logout_is_not_denied(params: JsonView)
    ensures
        !is_managed("account/logout"@),
        !is_rerouting("account/logout"@, params),
{
    reveal_strlit("account/logout");
    reveal_strlit("account/login/start");
    reveal_strlit("account/login/cancel");
    reveal_strlit("account/bedrock/setup");
    reveal_strlit("account/bedrock/discover");
    reveal_strlit("loginAccount");
    reveal_strlit("getAuthStatus");
    reveal_strlit("account/chatgptAuthTokens/refresh");
    reveal_strlit("initialize");
    reveal_strlit("config/value/write");
    reveal_strlit("config/batchWrite");
    reveal_strlit("thread/start");
    reveal_strlit("thread/resume");
    reveal_strlit("thread/fork");
    assert("account/logout"@.len() == 14);
    assert("account/login/start"@.len() == 19);
    assert("account/login/cancel"@.len() == 20);
    assert("account/bedrock/setup"@.len() == 21);
    assert("account/bedrock/discover"@.len() == 24);
    assert("loginAccount"@.len() == 12);
    assert("getAuthStatus"@.len() == 13);
    assert("account/chatgptAuthTokens/refresh"@.len() == 33);
    assert("initialize"@.len() == 10);
    assert("config/value/write"@.len() == 18);
    assert("config/batchWrite"@.len() == 17);
    assert("thread/start"@.len() == 12);
    assert("thread/resume"@.len() == 13);
    assert("thread/fork"@.len() == 11);
}

/// When the server refuses a question of the bridge's own, the terminal learns that the thread
/// is unavailable and nothing of the server's reasons, and the connection goes on.
pub proof fn law_private_refusals_stay_private(
    b: BridgeView,
    rpc: RpcView,
    check: CheckView,
    refusal: JsonView,
)
    requires
        b.phase == PhaseView::Checking(check),
        answers(refusal, check.request),
        refusal.has("error"@),
        !refusal.has("result"@),
        refusal.at("error"@).at("code"@).is_signed(),
        refusal.at("error"@).at("message"@) is Text,
        request_id_of(check.frame) is Ok,
    ensures
        ({
            let turn = b.turn(rpc, EventView::Coding(refusal));
            &&& turn.step == StepView::to_ui(
                error_frame(
                    request_id_of(check.frame)->Ok_0,
                    "thread or configuration unavailable or unsupported"@,
                ),
            )
            &&& turn.bridge == b.in_phase(PhaseView::Running)
        }),
{
}

/// Whatever goes wrong while the server is set up, the terminal is told the same, and nothing
/// of the reasons; what the server said of itself is released only when it has accepted the
/// credentials.
pub proof fn law_setup_failures_reveal_nothing(b: BridgeView, rpc: RpcView, event: EventView)
    requires
        b.phase is Initialize || b.phase is ReadConfig || b.phase is LogIn,
        b.expects(event),
    ensures
        ({
            let ui = match b.phase {
                PhaseView::Initialize { ui, .. } => ui,
                PhaseView::ReadConfig { ui, .. } => ui,
                PhaseView::LogIn { ui, .. } => ui,
                _ => JsonView::Null,
            };
            let step = b.turn(rpc, event).step;
            &&& step.finish is Some ==> step.finish == Some(
                Err::<Exit, Error>(Error::InitializationFailed),
            ) && step.ui == Some(error_frame(ui, "coding session initialization failed"@))
            &&& step.finish is None && step.ui is Some ==> (b.phase matches PhaseView::LogIn {
                request,
                initialized,
                ..
            } && step.ui == Some(result_frame(ui, initialized)) && (
            event matches EventView::Coding(frame) && answers(frame, request) && !frame.has(
                "error"@,
            ) && frame.at("result"@).at("type"@) == JsonView::Text("chatgptAuthTokens"@)))
        }),
{
}

/// The credentials are given to the server only after it has said that an accepted
/// configuration is in effect.
pub proof fn law_credentials_need_an_accepted_configuration(
    b: BridgeView,
    rpc: RpcView,
    event: EventView,
    i: int,
)
    requires
        b.phase is Initialize || b.phase is ReadConfig || b.phase is LogIn || b.phase
            is AwaitInitialize || b.phase is AwaitInitialized,
        b.expects(event),
        0 <= i < b.turn(rpc, event).step.coding.len(),
        b.turn(rpc, event).step.coding[i].at("method"@) == JsonView::Text("account/login/start"@),
    ensures
        b.phase matches PhaseView::ReadConfig { request, .. } && (
        event matches EventView::Coding(frame) && answers(frame, request) && !frame.has("error"@)
            && coding_config_fault(frame.at("result"@).at("config"@)) is None),
{
    lemma_keys();
    reveal_strlit("account/login/start");
    reveal_strlit("initialize");
    reveal_strlit("initialized");
    reveal_strlit("config/read");
    assert("account/login/start"@.len() == 19);
    assert("initialize"@.len() == 10);
    assert("initialized"@.len() == 11);
    assert("config/read"@.len() == 11);
    assert(initialized_frame().at("method"@) == JsonView::Text("initialized"@));
}

/// A request for a fresh token that arrives while a thread is being checked is served at once,
/// and the check is taken up where it was.
pub proof fn law_refresh_does_not_wait_for_a_check(
    b: BridgeView,
    rpc: RpcView,
    check: CheckView,
    frame: JsonView,
    reply: JsonView,
)
    requires
        b.phase == PhaseView::Checking(check),
        frame.at("method"@) == JsonView::Text("account/chatgptAuthTokens/refresh"@),
        request_id_of(frame) is Ok,
    ensures
        ({
            let asked = b.turn(rpc, EventView::Coding(frame));
            let back = asked.bridge.turn(asked.rpc, EventView::Host(reply));
            &&& asked.step == StepView::to_host(
                AuthRequestView::Refresh { params: frame.at("params"@) },
            )
            &&& back.step == StepView::to_coding(
                result_frame(request_id_of(frame)->Ok_0, reply),
            )
            &&& back.bridge == b && back.rpc == rpc
        }),
{
}

/// The session follows only threads that the terminal asked for, that were begun without an
/// error, that are kept, and whose identifier is harmless in a shell.
pub proof fn law_session_follows_kept_threads(b: BridgeView, rpc: RpcView, event: EventView)
    requires
        bridge_wf(b, rpc),
        b.expects(event),
        b.turn(rpc, event).step.session is Some,
    ensures
        ({
            let thread = b.turn(rpc, event).step.session->0;
            &&& is_thread_id(thread)
            &&& event matches EventView::Coding(answer) && !answer.has("error"@)
                && selected_thread(answer) == Some(thread) && exists|i: int|
                0 <= i < b.client.len() && (#[trigger] b.client[i]).selects_thread
                    && answer.get("id"@) == Some(b.client[i].upstream)
        }),
{
    if let EventView::Coding(answer) = event {
        if let Ok(id) = request_id_of(answer) {
            lemma_place_of(upstreams(b.client), id);
            if let Some(p) = place_of(upstreams(b.client), id) {
                assert(upstreams(b.client)[p] == b.client[p].upstream);
            }
        }
    }
}

} // verus!
