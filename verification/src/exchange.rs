//! What passes between the terminal, its coding server and the host: for each kind of message,
//! what is sent, to whom, and what of it is kept.

use crate::bridge::{validate_config, Exit};
use crate::error::Error;
use crate::json::{Json, JsonView};
use crate::relay::{Bridge, Event, Step};
use crate::rpc::Rpc;
use vstd::prelude::*;

use crate::bridge::{
    coding_config_fault, has_sensitive_edit, has_sensitive_key, is_sensitive_edit,
    is_sensitive_key, is_thread_char, is_thread_id, AuthRequestView,
};
use crate::relay::{
    bridge_wf, lemma_place_of, place_of, upstreams, BridgeView, CheckStage, CheckView,
    ClientRequestView, EventView, PhaseView, StepView, Turn,
};
use crate::rpc::RpcView;
use crate::text::{decimal_text, law_first_part_ends_at_the_first_mark};

verus! {

/// Only a frame for the terminal.
pub open spec fn only_ui(step: StepView, frame: JsonView) -> bool {
    &&& step.ui == Some(frame)
    &&& step.coding.len() == 0
    &&& step.host is None
    &&& step.session is None
    &&& step.finish is None
}

/// Only a frame for the server.
pub open spec fn only_coding(step: StepView, frame: JsonView) -> bool {
    &&& step.coding == seq![frame]
    &&& step.ui is None
    &&& step.host is None
    &&& step.session is None
    &&& step.finish is None
}

/// Nothing at all.
pub open spec fn nothing(step: StepView) -> bool {
    &&& step.coding.len() == 0
    &&& step.ui is None
    &&& step.host is None
    &&& step.session is None
    &&& step.finish is None
}

/// Only the end, with an error.
pub open spec fn only_error(step: StepView, error: Error) -> bool {
    &&& step.finish == Some(Err::<Exit, Error>(error))
    &&& step.coding.len() == 0
    &&& step.ui is None
    &&& step.host is None
    &&& step.session is None
}

/// Whether a value can identify a request: a text, or a 64-bit integer.
pub open spec fn names_request(id: JsonView) -> bool {
    id is Text || id is Unsigned || id is Negative
}

/// The answer that tells the terminal of a failure.
pub open spec fn failure(id: JsonView, message: Seq<char>) -> JsonView {
    JsonView::Object(
        map![
            "id"@ => id,
            "error"@ => JsonView::Object(
                map![
                    "code"@ => JsonView::Negative(-32000i64),
                    "message"@ => JsonView::Text(message),
                ],
            ),
        ],
    )
}

/// The answer that carries a result.
pub open spec fn success(id: JsonView, result: JsonView) -> JsonView {
    JsonView::Object(map!["id"@ => id, "result"@ => result])
}

/// A request of the bridge's own, numbered behind all before it.
pub open spec fn question(rpc: RpcView, method: Seq<char>, params: JsonView) -> JsonView {
    JsonView::Object(
        map![
            "id"@ => own_name(rpc),
            "method"@ => JsonView::Text(method),
            "params"@ => params,
        ],
    )
}

/// The identifier that the bridge gives to the next request.
pub open spec fn own_name(rpc: RpcView) -> JsonView {
    JsonView::Text("coduck-"@ + decimal_text((rpc.sequence + 1) as nat))
}

/// The state of the link when one more identifier was given out.
pub open spec fn numbered(rpc: RpcView) -> RpcView {
    RpcView { sequence: (rpc.sequence + 1) as u64, ..rpc }
}

/// Whether a frame of the terminal was sent on: a notification as it is, and a request under an
/// identifier of the bridge's own, with a note of the one that the terminal gave. A request with
/// a bad identifier, one whose identifier is pending, and one too many end the connection.
pub open spec fn is_sent_on(
    b: BridgeView,
    rpc: RpcView,
    frame: JsonView,
    selects_thread: bool,
    turn: Turn,
) -> bool {
    match frame.get("id"@) {
        None => only_coding(turn.step, frame) && turn.bridge == b.in_phase(PhaseView::Running)
            && turn.rpc == rpc,
        Some(id) => if !names_request(id) {
            only_error(turn.step, Error::InvalidId)
        } else if exists|i: int| 0 <= i < b.client.len() && (#[trigger] b.client[i]).original == id {
            only_error(turn.step, Error::DuplicateUiRequest)
        } else if b.client.len() >= 128 {
            only_error(turn.step, Error::TooManyUiRequests)
        } else {
            &&& only_coding(turn.step, frame.with("id"@, own_name(rpc)))
            &&& turn.bridge.client == b.client.push(
                ClientRequestView { upstream: own_name(rpc), original: id, selects_thread },
            )
            &&& turn.bridge.server == b.server
            &&& turn.bridge.phase is Running
            &&& turn.rpc == numbered(rpc)
        },
    }
}

/// Whether a frame of the terminal was refused: nothing of it reached anyone, and where it can
/// be answered the terminal is told why.
pub open spec fn is_refused(
    b: BridgeView,
    rpc: RpcView,
    frame: JsonView,
    message: Seq<char>,
    turn: Turn,
) -> bool {
    match frame.get("id"@) {
        None => nothing(turn.step) && turn.bridge == b && turn.rpc == rpc,
        Some(id) => if names_request(id) {
            only_ui(turn.step, failure(id, message)) && turn.bridge == b && turn.rpc == rpc
        } else {
            only_error(turn.step, Error::InvalidId)
        },
    }
}

/// Whether a thread was turned down: the terminal is told why, where it can be, and the
/// connection ends where it cannot.
pub open spec fn is_turned_down(
    b: BridgeView,
    rpc: RpcView,
    frame: JsonView,
    message: Seq<char>,
    turn: Turn,
) -> bool {
    match frame.get("id"@) {
        None => only_error(turn.step, Error::MissingId),
        Some(id) => is_refused(b, rpc, frame, message, turn),
    }
}

/// What the server sends without asking for an answer reaches the terminal as it was sent, and
/// so does a request of the server: its text, its parameters and its identifier are untouched.
/// The terminal's own pending requests are not concerned. Only requests for fresh tokens stay
/// away from the terminal.
pub proof fn law_messages_of_the_server_reach_the_terminal_unchanged(
    b: BridgeView,
    rpc: RpcView,
    frame: JsonView,
    method: Seq<char>,
)
    requires
        b.phase is Running,
        frame.at("method"@) == JsonView::Text(method),
        method != "account/chatgptAuthTokens/refresh"@,
    ensures
        ({
            let turn = b.turn(rpc, EventView::Coding(frame));
            match frame.get("id"@) {
                None => {
                    &&& only_ui(turn.step, frame)
                    &&& turn.bridge.client == b.client
                    &&& turn.bridge.phase is Running
                    &&& turn.rpc == rpc
                    &&& method != "serverRequest/resolved"@ ==> turn.bridge == b
                },
                Some(id) => if !names_request(id) {
                    only_error(turn.step, Error::InvalidId)
                } else if b.server.len() >= 128 {
                    only_error(turn.step, Error::TooManyServerRequests)
                } else if b.server.contains(id) {
                    only_error(turn.step, Error::DuplicateServerRequest)
                } else {
                    &&& only_ui(turn.step, frame)
                    &&& turn.bridge.client == b.client
                    &&& turn.bridge.phase is Running
                    &&& turn.rpc == rpc
                    &&& method != "serverRequest/resolved"@ ==> turn.bridge.server
                        == b.server.push(id)
                },
            }
        }),
{
    assert(b.in_phase(PhaseView::Running) =~= b);
}

/// What the terminal sends reaches the server as it was sent, except that a request goes by an
/// identifier of the bridge's own: methods that neither deal with credentials nor settings nor
/// threads are none of the bridge's business.
pub proof fn law_messages_of_the_terminal_reach_the_server(
    b: BridgeView,
    rpc: RpcView,
    frame: JsonView,
    method: Seq<char>,
)
    requires
        b.phase is Running,
        frame.at("method"@) == JsonView::Text(method),
        method != "account/login/start"@,
        method != "account/login/cancel"@,
        method != "account/bedrock/setup"@,
        method != "account/bedrock/discover"@,
        method != "loginAccount"@,
        method != "getAuthStatus"@,
        method != "account/chatgptAuthTokens/refresh"@,
        method != "initialize"@,
        method != "config/value/write"@,
        method != "config/batchWrite"@,
        method != "thread/start"@,
        method != "thread/resume"@,
        method != "thread/fork"@,
        method != "account/logout"@,
    ensures
        is_sent_on(b, rpc, frame, false, b.turn(rpc, EventView::Ui(frame))),
{
    assert(b.in_phase(PhaseView::Running) =~= b);
}

/// The terminal's answer to a pending request of the server reaches the server as it was sent,
/// and that request is pending no longer; any other answer reaches nobody.
pub proof fn law_answers_of_the_terminal_reach_the_server(
    b: BridgeView,
    rpc: RpcView,
    frame: JsonView,
    id: JsonView,
)
    requires
        bridge_wf(b, rpc),
        b.phase is Running,
        !(frame.at("method"@) is Text),
        frame.get("id"@) == Some(id),
        names_request(id),
    ensures
        ({
            let turn = b.turn(rpc, EventView::Ui(frame));
            &&& b.server.contains(id) ==> only_coding(turn.step, frame)
            &&& !b.server.contains(id) ==> nothing(turn.step) && turn.bridge == b
            &&& !turn.bridge.server.contains(id)
            &&& forall|other: JsonView|
                other != id ==> (turn.bridge.server.contains(other) <==> b.server.contains(other))
            &&& turn.bridge.client == b.client
            &&& turn.bridge.phase is Running
            &&& turn.rpc == rpc
        }),
{
    assert(b.in_phase(PhaseView::Running) =~= b);
    lemma_place_of(b.server, id);
    if let Some(p) = place_of(b.server, id) {
        let rest = b.server.remove(p);
        assert(b.server.contains(b.server[p]));
        assert(!rest.contains(id)) by {
            assert forall|k: int| 0 <= k < rest.len() implies rest[k] != id by {
                if k < p {
                    assert(rest[k] == b.server[k]);
                } else {
                    assert(rest[k] == b.server[k + 1]);
                    assert(b.server[p] != b.server[k + 1]);
                }
            }
        }
        assert forall|other: JsonView| other != id implies (rest.contains(other)
            <==> b.server.contains(other)) by {
            if rest.contains(other) {
                let k = choose|k: int| 0 <= k < rest.len() && rest[k] == other;
                assert(b.server.contains(other)) by {
                    if k < p {
                        assert(b.server[k] == other);
                    } else {
                        assert(b.server[k + 1] == other);
                    }
                }
            }
            if b.server.contains(other) {
                let k = choose|k: int| 0 <= k < b.server.len() && b.server[k] == other;
                assert(rest.contains(other)) by {
                    if k < p {
                        assert(rest[k] == other);
                    } else {
                        assert(rest[k - 1] == other);
                    }
                }
            }
        }
    }
}

/// The terminal cannot deal with credentials itself: none of the methods for that reaches the
/// server or the host.
pub proof fn law_credential_methods_are_refused(
    b: BridgeView,
    rpc: RpcView,
    frame: JsonView,
    method: Seq<char>,
)
    requires
        b.phase is Running,
        frame.at("method"@) == JsonView::Text(method),
        ({
            ||| method == "account/login/start"@
            ||| method == "account/login/cancel"@
            ||| method == "account/bedrock/setup"@
            ||| method == "account/bedrock/discover"@
            ||| method == "loginAccount"@
            ||| method == "getAuthStatus"@
            ||| method == "account/chatgptAuthTokens/refresh"@
            ||| method == "initialize"@
        }),
    ensures
        is_refused(
            b,
            rpc,
            frame,
            "authentication is managed by coduck; use coduck login NAME"@,
            b.turn(rpc, EventView::Ui(frame)),
        ),
{
    assert(b.in_phase(PhaseView::Running) =~= b);
}

/// Whether a path of keys is a setting, or leads into it.
pub open spec fn leads_to(key: Seq<char>, setting: Seq<char>) -> bool {
    key == setting || (setting.len() < key.len() && key.take(setting.len() as int) == setting
        && key[setting.len() as int] == '.')
}

/// Whether a path of keys leads to one of the settings that decide whom the server talks to, and
/// with whose credentials.
pub open spec fn leads_to_routing(key: Seq<char>) -> bool {
    ||| leads_to(key, "profile"@)
    ||| leads_to(key, "profiles"@)
    ||| leads_to(key, "model_provider"@)
    ||| leads_to(key, "model_providers"@)
    ||| leads_to(key, "chatgpt_base_url"@)
    ||| leads_to(key, "cli_auth_credentials_store"@)
    ||| leads_to(key, "forced_login_method"@)
    ||| leads_to(key, "forced_chatgpt_workspace_id"@)
}

/// The path of keys that an edit is about; none is the same as an empty one.
pub open spec fn key_path(edit: JsonView) -> Seq<char> {
    match edit.at("keyPath"@) {
        JsonView::Text(key) => key,
        _ => Seq::empty(),
    }
}

proof fn lemma_first_dot(key: Seq<char>) -> (n: int)
    ensures
        0 <= n <= key.len(),
        forall|i: int| 0 <= i < n ==> key[i] != '.',
        n < key.len() ==> key[n] == '.',
    decreases key.len(),
{
    if key.len() == 0 {
        0
    } else {
        let n = lemma_first_dot(key.drop_last());
        if n < key.len() - 1 {
            assert(key.drop_last()[n] == key[n]);
        }
        let m = if n == key.len() - 1 && key.last() != '.' {
            n + 1
        } else {
            n
        };
        assert forall|i: int| 0 <= i < m implies key[i] != '.' by {
            if i < n {
                assert(key.drop_last()[i] == key[i]);
            }
        }
        m
    }
}

proof fn lemma_leads_to(key: Seq<char>, n: int, setting: Seq<char>)
    requires
        0 <= n <= key.len(),
        forall|i: int| 0 <= i < n ==> key[i] != '.',
        n < key.len() ==> key[n] == '.',
        forall|i: int| 0 <= i < setting.len() ==> setting[i] != '.',
    ensures
        leads_to(key, setting) <==> key.take(n) == setting,
{
    let m = setting.len() as int;
    if leads_to(key, setting) {
        if n < m {
            assert(setting[n] != '.');
            assert(key.take(m)[n] == key[n]);
        }
        if m < n {
            assert(key[m] != '.');
        }
        assert(n == m);
        assert(key.take(n) =~= setting);
    }
    if key.take(n) == setting {
        if n == key.len() {
            assert(key =~= setting);
        }
    }
}

proof fn lemma_routing(key: Seq<char>)
    ensures
        is_sensitive_key(key) == leads_to_routing(key),
{
    reveal_strlit("profile");
    reveal_strlit("profiles");
    reveal_strlit("model_provider");
    reveal_strlit("model_providers");
    reveal_strlit("chatgpt_base_url");
    reveal_strlit("cli_auth_credentials_store");
    reveal_strlit("forced_login_method");
    reveal_strlit("forced_chatgpt_workspace_id");
    assert("profile"@.len() == 7);
    assert("profiles"@.len() == 8);
    assert("model_provider"@.len() == 14);
    assert("model_providers"@.len() == 15);
    assert("chatgpt_base_url"@.len() == 16);
    assert("cli_auth_credentials_store"@.len() == 26);
    assert("forced_login_method"@.len() == 19);
    assert("forced_chatgpt_workspace_id"@.len() == 27);
    let n = lemma_first_dot(key);
    law_first_part_ends_at_the_first_mark(key, '.', n);
    lemma_leads_to(key, n, "profile"@);
    lemma_leads_to(key, n, "profiles"@);
    lemma_leads_to(key, n, "model_provider"@);
    lemma_leads_to(key, n, "model_providers"@);
    lemma_leads_to(key, n, "chatgpt_base_url"@);
    lemma_leads_to(key, n, "cli_auth_credentials_store"@);
    lemma_leads_to(key, n, "forced_login_method"@);
    lemma_leads_to(key, n, "forced_chatgpt_workspace_id"@);
}

proof fn lemma_routing_everywhere()
    ensures
        forall|key: Seq<char>| #[trigger] is_sensitive_key(key) == leads_to_routing(key),
        !is_sensitive_key(""@),
        forall|edit: JsonView|
            is_sensitive_edit(edit) == leads_to_routing(#[trigger] key_path(edit)),
{
    assert forall|key: Seq<char>| #[trigger] is_sensitive_key(key) == leads_to_routing(key) by {
        lemma_routing(key);
    }
    reveal_strlit("");
    assert(""@ =~= Seq::empty());
    reveal_strlit("profile");
    reveal_strlit("profiles");
    reveal_strlit("model_provider");
    reveal_strlit("model_providers");
    reveal_strlit("chatgpt_base_url");
    reveal_strlit("cli_auth_credentials_store");
    reveal_strlit("forced_login_method");
    reveal_strlit("forced_chatgpt_workspace_id");
    assert("profile"@.len() == 7);
    assert("profiles"@.len() == 8);
    assert("model_provider"@.len() == 14);
    assert("model_providers"@.len() == 15);
    assert("chatgpt_base_url"@.len() == 16);
    assert("cli_auth_credentials_store"@.len() == 26);
    assert("forced_login_method"@.len() == 19);
    assert("forced_chatgpt_workspace_id"@.len() == 27);
    assert(!leads_to_routing(""@));
}

proof fn lemma_methods()
    ensures
        "account/login/start"@ != "account/login/cancel"@,
        "account/login/start"@ != "account/bedrock/setup"@,
        "account/login/start"@ != "account/bedrock/discover"@,
        "account/login/start"@ != "loginAccount"@,
        "account/login/start"@ != "getAuthStatus"@,
        "account/login/start"@ != "account/chatgptAuthTokens/refresh"@,
        "account/login/start"@ != "initialize"@,
        "account/login/start"@ != "config/value/write"@,
        "account/login/start"@ != "config/batchWrite"@,
        "account/login/start"@ != "thread/start"@,
        "account/login/start"@ != "thread/resume"@,
        "account/login/start"@ != "thread/fork"@,
        "account/login/start"@ != "account/logout"@,
        "account/login/start"@ != "serverRequest/resolved"@,
        "account/login/start"@ != "thread/read"@,
        "account/login/start"@ != "config/read"@,
        "account/login/start"@ != "initialized"@,
        "account/login/cancel"@ != "account/bedrock/setup"@,
        "account/login/cancel"@ != "account/bedrock/discover"@,
        "account/login/cancel"@ != "loginAccount"@,
        "account/login/cancel"@ != "getAuthStatus"@,
        "account/login/cancel"@ != "account/chatgptAuthTokens/refresh"@,
        "account/login/cancel"@ != "initialize"@,
        "account/login/cancel"@ != "config/value/write"@,
        "account/login/cancel"@ != "config/batchWrite"@,
        "account/login/cancel"@ != "thread/start"@,
        "account/login/cancel"@ != "thread/resume"@,
        "account/login/cancel"@ != "thread/fork"@,
        "account/login/cancel"@ != "account/logout"@,
        "account/login/cancel"@ != "serverRequest/resolved"@,
        "account/login/cancel"@ != "thread/read"@,
        "account/login/cancel"@ != "config/read"@,
        "account/login/cancel"@ != "initialized"@,
        "account/bedrock/setup"@ != "account/bedrock/discover"@,
        "account/bedrock/setup"@ != "loginAccount"@,
        "account/bedrock/setup"@ != "getAuthStatus"@,
        "account/bedrock/setup"@ != "account/chatgptAuthTokens/refresh"@,
        "account/bedrock/setup"@ != "initialize"@,
        "account/bedrock/setup"@ != "config/value/write"@,
        "account/bedrock/setup"@ != "config/batchWrite"@,
        "account/bedrock/setup"@ != "thread/start"@,
        "account/bedrock/setup"@ != "thread/resume"@,
        "account/bedrock/setup"@ != "thread/fork"@,
        "account/bedrock/setup"@ != "account/logout"@,
        "account/bedrock/setup"@ != "serverRequest/resolved"@,
        "account/bedrock/setup"@ != "thread/read"@,
        "account/bedrock/setup"@ != "config/read"@,
        "account/bedrock/setup"@ != "initialized"@,
        "account/bedrock/discover"@ != "loginAccount"@,
        "account/bedrock/discover"@ != "getAuthStatus"@,
        "account/bedrock/discover"@ != "account/chatgptAuthTokens/refresh"@,
        "account/bedrock/discover"@ != "initialize"@,
        "account/bedrock/discover"@ != "config/value/write"@,
        "account/bedrock/discover"@ != "config/batchWrite"@,
        "account/bedrock/discover"@ != "thread/start"@,
        "account/bedrock/discover"@ != "thread/resume"@,
        "account/bedrock/discover"@ != "thread/fork"@,
        "account/bedrock/discover"@ != "account/logout"@,
        "account/bedrock/discover"@ != "serverRequest/resolved"@,
        "account/bedrock/discover"@ != "thread/read"@,
        "account/bedrock/discover"@ != "config/read"@,
        "account/bedrock/discover"@ != "initialized"@,
        "loginAccount"@ != "getAuthStatus"@,
        "loginAccount"@ != "account/chatgptAuthTokens/refresh"@,
        "loginAccount"@ != "initialize"@,
        "loginAccount"@ != "config/value/write"@,
        "loginAccount"@ != "config/batchWrite"@,
        "loginAccount"@ != "thread/start"@,
        "loginAccount"@ != "thread/resume"@,
        "loginAccount"@ != "thread/fork"@,
        "loginAccount"@ != "account/logout"@,
        "loginAccount"@ != "serverRequest/resolved"@,
        "loginAccount"@ != "thread/read"@,
        "loginAccount"@ != "config/read"@,
        "loginAccount"@ != "initialized"@,
        "getAuthStatus"@ != "account/chatgptAuthTokens/refresh"@,
        "getAuthStatus"@ != "initialize"@,
        "getAuthStatus"@ != "config/value/write"@,
        "getAuthStatus"@ != "config/batchWrite"@,
        "getAuthStatus"@ != "thread/start"@,
        "getAuthStatus"@ != "thread/resume"@,
        "getAuthStatus"@ != "thread/fork"@,
        "getAuthStatus"@ != "account/logout"@,
        "getAuthStatus"@ != "serverRequest/resolved"@,
        "getAuthStatus"@ != "thread/read"@,
        "getAuthStatus"@ != "config/read"@,
        "getAuthStatus"@ != "initialized"@,
        "account/chatgptAuthTokens/refresh"@ != "initialize"@,
        "account/chatgptAuthTokens/refresh"@ != "config/value/write"@,
        "account/chatgptAuthTokens/refresh"@ != "config/batchWrite"@,
        "account/chatgptAuthTokens/refresh"@ != "thread/start"@,
        "account/chatgptAuthTokens/refresh"@ != "thread/resume"@,
        "account/chatgptAuthTokens/refresh"@ != "thread/fork"@,
        "account/chatgptAuthTokens/refresh"@ != "account/logout"@,
        "account/chatgptAuthTokens/refresh"@ != "serverRequest/resolved"@,
        "account/chatgptAuthTokens/refresh"@ != "thread/read"@,
        "account/chatgptAuthTokens/refresh"@ != "config/read"@,
        "account/chatgptAuthTokens/refresh"@ != "initialized"@,
        "initialize"@ != "config/value/write"@,
        "initialize"@ != "config/batchWrite"@,
        "initialize"@ != "thread/start"@,
        "initialize"@ != "thread/resume"@,
        "initialize"@ != "thread/fork"@,
        "initialize"@ != "account/logout"@,
        "initialize"@ != "serverRequest/resolved"@,
        "initialize"@ != "thread/read"@,
        "initialize"@ != "config/read"@,
        "initialize"@ != "initialized"@,
        "config/value/write"@ != "config/batchWrite"@,
        "config/value/write"@ != "thread/start"@,
        "config/value/write"@ != "thread/resume"@,
        "config/value/write"@ != "thread/fork"@,
        "config/value/write"@ != "account/logout"@,
        "config/value/write"@ != "serverRequest/resolved"@,
        "config/value/write"@ != "thread/read"@,
        "config/value/write"@ != "config/read"@,
        "config/value/write"@ != "initialized"@,
        "config/batchWrite"@ != "thread/start"@,
        "config/batchWrite"@ != "thread/resume"@,
        "config/batchWrite"@ != "thread/fork"@,
        "config/batchWrite"@ != "account/logout"@,
        "config/batchWrite"@ != "serverRequest/resolved"@,
        "config/batchWrite"@ != "thread/read"@,
        "config/batchWrite"@ != "config/read"@,
        "config/batchWrite"@ != "initialized"@,
        "thread/start"@ != "thread/resume"@,
        "thread/start"@ != "thread/fork"@,
        "thread/start"@ != "account/logout"@,
        "thread/start"@ != "serverRequest/resolved"@,
        "thread/start"@ != "thread/read"@,
        "thread/start"@ != "config/read"@,
        "thread/start"@ != "initialized"@,
        "thread/resume"@ != "thread/fork"@,
        "thread/resume"@ != "account/logout"@,
        "thread/resume"@ != "serverRequest/resolved"@,
        "thread/resume"@ != "thread/read"@,
        "thread/resume"@ != "config/read"@,
        "thread/resume"@ != "initialized"@,
        "thread/fork"@ != "account/logout"@,
        "thread/fork"@ != "serverRequest/resolved"@,
        "thread/fork"@ != "thread/read"@,
        "thread/fork"@ != "config/read"@,
        "thread/fork"@ != "initialized"@,
        "account/logout"@ != "serverRequest/resolved"@,
        "account/logout"@ != "thread/read"@,
        "account/logout"@ != "config/read"@,
        "account/logout"@ != "initialized"@,
        "serverRequest/resolved"@ != "thread/read"@,
        "serverRequest/resolved"@ != "config/read"@,
        "serverRequest/resolved"@ != "initialized"@,
        "thread/read"@ != "config/read"@,
        "thread/read"@ != "initialized"@,
        "config/read"@ != "initialized"@,
{
    reveal_strlit("account/login/start");
    reveal_strlit("account/login/cancel");
    reveal_strlit("account/bedrock/setup");
    reveal_strlit("account/bedrock/discover");
    reveal_strlit("loginAccount");
    reveal_strlit("getAuthStatus");
    reveal_strlit("account/chatgptAuthTokens/refresh");
    reveal_strlit("initialize");
    reveal_strlit("config/value/write");
    reveal_strlit("config/batchWrite");
    reveal_strlit("thread/start");
    reveal_strlit("thread/resume");
    reveal_strlit("thread/fork");
    reveal_strlit("account/logout");
    reveal_strlit("serverRequest/resolved");
    reveal_strlit("thread/read");
    reveal_strlit("config/read");
    reveal_strlit("initialized");
    assert("account/login/start"@.len() == 19);
    assert("account/login/cancel"@.len() == 20);
    assert("account/bedrock/setup"@.len() == 21);
    assert("account/bedrock/discover"@.len() == 24);
    assert("loginAccount"@.len() == 12);
    assert("getAuthStatus"@.len() == 13);
    assert("account/chatgptAuthTokens/refresh"@.len() == 33);
    assert("initialize"@.len() == 10);
    assert("config/value/write"@.len() == 18);
    assert("config/batchWrite"@.len() == 17);
    assert("thread/start"@.len() == 12);
    assert("thread/resume"@.len() == 13);
    assert("thread/fork"@.len() == 11);
    assert("account/logout"@.len() == 14);
    assert("serverRequest/resolved"@.len() == 22);
    assert("thread/read"@.len() == 11);
    assert("config/read"@.len() == 11);
    assert("initialized"@.len() == 11);
    assert("loginAccount"@[0] == 'l');
    assert("thread/start"@[0] == 't');
    assert("getAuthStatus"@[0] == 'g');
    assert("thread/resume"@[0] == 't');
    assert("thread/fork"@[7] == 'f');
    assert("thread/read"@[7] == 'r');
    assert("thread/fork"@[0] == 't');
    assert("config/read"@[0] == 'c');
    assert("initialized"@[0] == 'i');
    assert("thread/read"@[0] == 't');
}

/// The terminal cannot change whom the server talks to, or with whose credentials, by writing a
/// setting: a path of keys to one of eight settings, or into one, is refused and reaches nobody.
/// Every other setting is the server's business.
pub proof fn law_routing_settings_are_not_written(b: BridgeView, rpc: RpcView, frame: JsonView)
    requires
        b.phase is Running,
        frame.at("method"@) == JsonView::Text("config/value/write"@),
    ensures
        ({
            let turn = b.turn(rpc, EventView::Ui(frame));
            &&& leads_to_routing(key_path(frame.at("params"@))) ==> is_refused(
                b,
                rpc,
                frame,
                "configure authentication and providers outside coduck"@,
                turn,
            )
            &&& !leads_to_routing(key_path(frame.at("params"@))) ==> is_sent_on(
                b,
                rpc,
                frame,
                false,
                turn,
            )
        }),
{
    lemma_methods();
    lemma_routing_everywhere();
    assert(b.in_phase(PhaseView::Running) =~= b);
}

/// Nor can it do so in a batch: one such path among the edits has the whole batch refused.
pub proof fn law_routing_settings_are_not_written_in_a_batch(
    b: BridgeView,
    rpc: RpcView,
    frame: JsonView,
    edits: Seq<JsonView>,
)
    requires
        b.phase is Running,
        frame.at("method"@) == JsonView::Text("config/batchWrite"@),
        frame.at("params"@).at("edits"@) == JsonView::Array(edits),
    ensures
        ({
            let turn = b.turn(rpc, EventView::Ui(frame));
            let reroutes = exists|i: int|
                0 <= i < edits.len() && leads_to_routing(key_path(#[trigger] edits[i]));
            &&& reroutes ==> is_refused(
                b,
                rpc,
                frame,
                "configure authentication and providers outside coduck"@,
                turn,
            )
            &&& !reroutes ==> is_sent_on(b, rpc, frame, false, turn)
        }),
{
    lemma_methods();
    lemma_routing_everywhere();
    assert(b.in_phase(PhaseView::Running) =~= b);
    let reroutes = exists|i: int|
        0 <= i < edits.len() && leads_to_routing(key_path(#[trigger] edits[i]));
    if reroutes {
        let i = choose|i: int|
            0 <= i < edits.len() && leads_to_routing(key_path(#[trigger] edits[i]));
        assert(is_sensitive_edit(edits[i]));
    }
    if has_sensitive_edit(edits) {
        let i = choose|i: int| 0 <= i < edits.len() && is_sensitive_edit(#[trigger] edits[i]);
        assert(leads_to_routing(key_path(edits[i])));
    }
    assert(has_sensitive_edit(edits) == reroutes);
}

/// Nor with a thread: another provider than the official one, or one of the eight settings among
/// those that the thread is to have, has the request refused.
pub proof fn law_threads_do_not_change_the_routing(b: BridgeView, rpc: RpcView, frame: JsonView)
    requires
        b.phase is Running,
        ({
            ||| frame.at("method"@) == JsonView::Text("thread/start"@)
            ||| frame.at("method"@) == JsonView::Text("thread/resume"@)
            ||| frame.at("method"@) == JsonView::Text("thread/fork"@)
        }),
    ensures
        ({
            let turn = b.turn(rpc, EventView::Ui(frame));
            let params = frame.at("params"@);
            let provider = params.at("modelProvider"@);
            let reroutes = !(provider is Null) && provider != JsonView::Text("openai"@) || exists|
                key: Seq<char>,
            | #[trigger] params.at("config"@).has(key) && leads_to_routing(key);
            &&& reroutes ==> is_refused(
                b,
                rpc,
                frame,
                "configure authentication and providers outside coduck"@,
                turn,
            )
            &&& !reroutes && frame.at("method"@) == JsonView::Text("thread/start"@) && !(params.at(
                "cwd"@,
            ) is Text) ==> is_sent_on(b, rpc, frame, true, turn)
        }),
{
    lemma_methods();
    lemma_routing_everywhere();
    assert(b.in_phase(PhaseView::Running) =~= b);
    let params = frame.at("params"@);
    if let JsonView::Object(settings) = params.at("config"@) {
        if exists|key: Seq<char>| #[trigger]
            params.at("config"@).has(key) && leads_to_routing(key) {
            let key = choose|key: Seq<char>| #[trigger]
                params.at("config"@).has(key) && leads_to_routing(key);
            assert(settings.contains_key(key) && is_sensitive_key(key));
        }
        if has_sensitive_key(settings) {
            let key = choose|key: Seq<char>| #[trigger]
                settings.contains_key(key) && is_sensitive_key(key);
            assert(params.at("config"@).has(key) && leads_to_routing(key));
        }
    }
}

/// Whether a character is a letter or digit of ASCII, a hyphen or an underscore.
pub open spec fn is_plain_char(c: char) -> bool {
    'a' <= c <= 'z' || 'A' <= c <= 'Z' || '0' <= c <= '9' || c == '-' || c == '_'
}

/// When the server answers a request for a thread that is kept, the session is about that thread:
/// whatever its identifier is made of, as long as it has 1 to 128 letters, digits, hyphens and
/// underscores. The answer itself goes to the terminal under its own identifier. Nothing else
/// changes the session.
pub proof fn law_session_is_the_thread_that_was_begun(
    b: BridgeView,
    rpc: RpcView,
    i: int,
    answer: JsonView,
    id: Seq<char>,
)
    requires
        bridge_wf(b, rpc),
        b.phase is Running,
        0 <= i < b.client.len(),
        !(answer.at("method"@) is Text),
        answer.get("id"@) == Some(b.client[i].upstream),
        answer.at("result"@).at("thread"@).at("id"@) == JsonView::Text(id),
    ensures
        ({
            let step = b.turn(rpc, EventView::Coding(answer)).step;
            let kept = answer.at("result"@).at("thread"@).at("ephemeral"@) == JsonView::Bool(false);
            let resumable = 1 <= id.len() <= 128 && forall|k: int|
                0 <= k < id.len() ==> is_plain_char(#[trigger] id[k]);
            &&& step.session == (if b.client[i].selects_thread && !answer.has("error"@) && kept
                && resumable {
                Some(id)
            } else {
                None
            })
            &&& step.ui == Some(answer.with("id"@, b.client[i].original))
            &&& step.coding.len() == 0 && step.host is None && step.finish is None
        }),
{
    crate::promises::law_answers_return_to_their_request(b, rpc, i, answer);
    let request = b.client[i].upstream;
    lemma_place_of(upstreams(b.client), request);
    assert(upstreams(b.client)[i] == request);
    assert(upstreams(b.client).contains(request));
    let p = place_of(upstreams(b.client), request)->0;
    assert(upstreams(b.client)[p] == b.client[p].upstream);
    assert(p == i) by {
        if p < i {
            assert(b.client[p].upstream != b.client[i].upstream);
        } else if i < p {
            assert(b.client[i].upstream != b.client[p].upstream);
        }
    }
    if is_thread_id(id) {
        assert forall|k: int| 0 <= k < id.len() implies is_plain_char(#[trigger] id[k]) by {
            assert(is_thread_char(id[k]));
        }
    }
    if forall|k: int| 0 <= k < id.len() ==> is_plain_char(#[trigger] id[k]) {
        assert forall|k: int| 0 <= k < id.len() implies is_thread_char(#[trigger] id[k]) by {
            assert(is_plain_char(id[k]));
        }
    }
}

/// An answer of the server to a request that is not pending ends the connection.
pub proof fn law_answers_to_nothing_end_the_connection(
    b: BridgeView,
    rpc: RpcView,
    answer: JsonView,
)
    requires
        b.phase is Running,
        !(answer.at("method"@) is Text),
        forall|i: int|
            0 <= i < b.client.len() ==> answer.get("id"@) != Some((#[trigger] b.client[i]).upstream),
    ensures
        only_error(
            b.turn(rpc, EventView::Coding(answer)).step,
            match answer.get("id"@) {
                None => Error::MissingId,
                Some(id) => if names_request(id) {
                    Error::UnknownResponse
                } else {
                    Error::InvalidId
                },
            },
        ),
{
    if let Some(id) = answer.get("id"@) {
        lemma_place_of(upstreams(b.client), id);
        if let Some(p) = place_of(upstreams(b.client), id) {
            assert(upstreams(b.client)[p] == b.client[p].upstream);
        }
    }
}

/// A thread that is begun in a directory of its own is held back while the server is asked what
/// configuration is in effect there.
pub proof fn law_threads_elsewhere_are_held_back(
    b: BridgeView,
    rpc: RpcView,
    frame: JsonView,
    cwd: Seq<char>,
)
    requires
        b.phase is Running,
        frame.at("method"@) == JsonView::Text("thread/start"@),
        frame.at("params"@).at("cwd"@) == JsonView::Text(cwd),
        frame.at("params"@).at("modelProvider"@) is Null || frame.at("params"@).at(
            "modelProvider"@,
        ) == JsonView::Text("openai"@),
        forall|key: Seq<char>| #[trigger]
            frame.at("params"@).at("config"@).has(key) ==> !leads_to_routing(key),
    ensures
        ({
            let turn = b.turn(rpc, EventView::Ui(frame));
            &&& only_coding(turn.step, config_question(rpc, cwd))
            &&& turn.bridge.phase == PhaseView::Checking(
                CheckView { frame, request: own_name(rpc), stage: CheckStage::Config },
            )
            &&& turn.bridge.client == b.client && turn.bridge.server == b.server
            &&& turn.rpc == numbered(rpc)
        }),
{
    lemma_methods();
    lemma_harmless_settings(frame.at("params"@));
}

/// Settings of a thread that do not change the routing are none of the bridge's business.
proof fn lemma_harmless_settings(params: JsonView)
    requires
        forall|key: Seq<char>| #[trigger]
            params.at("config"@).has(key) ==> !leads_to_routing(key),
    ensures
        params.at("config"@) matches JsonView::Object(settings) ==> !has_sensitive_key(settings),
{
    lemma_routing_everywhere();
    if let JsonView::Object(settings) = params.at("config"@) {
        if has_sensitive_key(settings) {
            let key = choose|key: Seq<char>| #[trigger]
                settings.contains_key(key) && is_sensitive_key(key);
            assert(params.at("config"@).has(key) && leads_to_routing(key));
        }
    }
}

/// The question for the configuration that is in effect in a directory.
pub open spec fn config_question(rpc: RpcView, cwd: Seq<char>) -> JsonView {
    question(
        rpc,
        "config/read"@,
        JsonView::Object(
            map!["includeLayers"@ => JsonView::Bool(false), "cwd"@ => JsonView::Text(cwd)],
        ),
    )
}

/// A thread that is taken up again is named by its identifier, and held back while the server is
/// asked for it, without its turns; one that is named by a path or a history is refused.
pub proof fn law_stored_threads_are_held_back(b: BridgeView, rpc: RpcView, frame: JsonView)
    requires
        b.phase is Running,
        ({
            ||| frame.at("method"@) == JsonView::Text("thread/resume"@)
            ||| frame.at("method"@) == JsonView::Text("thread/fork"@)
        }),
        frame.at("params"@).at("modelProvider"@) is Null || frame.at("params"@).at(
            "modelProvider"@,
        ) == JsonView::Text("openai"@),
        forall|key: Seq<char>| #[trigger]
            frame.at("params"@).at("config"@).has(key) ==> !leads_to_routing(key),
    ensures
        ({
            let turn = b.turn(rpc, EventView::Ui(frame));
            let params = frame.at("params"@);
            let by_path = (params.at("path"@) matches JsonView::Text(path) && path.len() > 0) || !(
            params.at("history"@) is Null);
            match params.at("threadId"@) {
                JsonView::Text(thread) => if by_path {
                    is_turned_down(
                        b,
                        rpc,
                        frame,
                        "thread or configuration unavailable or unsupported"@,
                        turn,
                    )
                } else {
                    &&& only_coding(
                        turn.step,
                        question(
                            rpc,
                            "thread/read"@,
                            JsonView::Object(
                                map![
                                    "threadId"@ => JsonView::Text(thread),
                                    "includeTurns"@ => JsonView::Bool(false),
                                ],
                            ),
                        ),
                    )
                    &&& turn.bridge.phase == PhaseView::Checking(
                        CheckView { frame, request: own_name(rpc), stage: CheckStage::Thread },
                    )
                    &&& turn.bridge.client == b.client && turn.bridge.server == b.server
                    &&& turn.rpc == numbered(rpc)
                },
                _ => is_turned_down(
                    b,
                    rpc,
                    frame,
                    "thread or configuration unavailable or unsupported"@,
                    turn,
                ),
            }
        }),
{
    lemma_methods();
    lemma_harmless_settings(frame.at("params"@));
    assert(b.in_phase(PhaseView::Running) =~= b);
}

/// Whether a configuration is accepted: the official provider, credentials that are not kept,
/// the official provider not redefined, and the official address of the service.
pub open spec fn is_accepted(config: JsonView) -> bool {
    &&& config is Object
    &&& config.at("model_provider"@) is Null || config.at("model_provider"@) == JsonView::Text(
        "openai"@,
    )
    &&& config.at("cli_auth_credentials_store"@) == JsonView::Text("ephemeral"@)
    &&& !config.at("model_providers"@).has("openai"@)
    &&& config.at("chatgpt_base_url"@) == JsonView::Text("https://chatgpt.com/backend-api"@)
        || config.at("chatgpt_base_url"@) == JsonView::Text("https://chatgpt.com/backend-api/"@)
}

/// Coding servers run with the official provider, keep no credentials, and talk to the official
/// service only; each way in which a configuration differs is told apart.
pub proof fn law_coding_configurations(config: JsonView)
    ensures
        coding_config_fault(config) is None <==> is_accepted(config),
        !(config is Object) ==> coding_config_fault(config) == Some(Error::MissingConfiguration),
        coding_config_fault(config) == Some(Error::MissingConfiguration) ==> !(config is Object),
        coding_config_fault(config) == Some(Error::UnsupportedProvider) ==> !(config.at(
            "model_provider"@,
        ) is Null) && config.at("model_provider"@) != JsonView::Text("openai"@),
        coding_config_fault(config) == Some(Error::UnsupportedStore) ==> config.at(
            "cli_auth_credentials_store"@,
        ) != JsonView::Text("ephemeral"@),
        coding_config_fault(config) == Some(Error::UnsupportedOverride) ==> config.at(
            "model_providers"@,
        ).has("openai"@),
        coding_config_fault(config) is Some ==> ({
            ||| coding_config_fault(config) == Some(Error::MissingConfiguration)
            ||| coding_config_fault(config) == Some(Error::UnsupportedProvider)
            ||| coding_config_fault(config) == Some(Error::UnsupportedStore)
            ||| coding_config_fault(config) == Some(Error::UnsupportedOverride)
            ||| coding_config_fault(config) == Some(Error::UnsupportedBaseUrl)
        }),
{
}

/// A thread that is held back is let through when the server says that an accepted configuration
/// is in effect where it will run, and is refused when not. The other requests that are pending
/// are not concerned.
pub proof fn law_held_threads_go_on_when_accepted(
    b: BridgeView,
    rpc: RpcView,
    check: CheckView,
    answer: JsonView,
    method: Seq<char>,
)
    requires
        b.phase == PhaseView::Checking(check),
        check.stage == CheckStage::Config,
        check.frame.at("method"@) == JsonView::Text(method),
        method == "thread/start"@ || method == "thread/resume"@ || method == "thread/fork"@,
        !answer.has("method"@),
        answer.get("id"@) == Some(check.request),
        !answer.has("error"@),
        answer.has("result"@),
    ensures
        ({
            let turn = b.turn(rpc, EventView::Coding(answer));
            &&& is_accepted(answer.at("result"@).at("config"@)) ==> is_sent_on(
                b,
                rpc,
                check.frame,
                true,
                turn,
            )
            &&& !is_accepted(answer.at("result"@).at("config"@)) ==> is_turned_down(
                b.in_phase(PhaseView::Running),
                rpc,
                check.frame,
                "thread or configuration unavailable or unsupported"@,
                turn,
            )
        }),
{
    lemma_methods();
}

/// A stored thread is let go on only with the official provider; then the server is asked for the
/// configuration in the directory that the terminal names, or else in that of the thread.
pub proof fn law_stored_threads_are_checked_where_they_run(
    b: BridgeView,
    rpc: RpcView,
    check: CheckView,
    answer: JsonView,
)
    requires
        b.phase == PhaseView::Checking(check),
        check.stage == CheckStage::Thread,
        !answer.has("method"@),
        answer.get("id"@) == Some(check.request),
        !answer.has("error"@),
        answer.has("result"@),
    ensures
        ({
            let turn = b.turn(rpc, EventView::Coding(answer));
            let thread = answer.at("result"@).at("thread"@);
            let named = check.frame.at("params"@).at("cwd"@);
            let directory = if named is Text {
                named
            } else {
                thread.at("cwd"@)
            };
            if thread.at("modelProvider"@) == JsonView::Text("openai"@) && directory is Text {
                &&& only_coding(turn.step, config_question(rpc, directory->Text_0))
                &&& turn.bridge.phase == PhaseView::Checking(
                    CheckView {
                        frame: check.frame,
                        request: own_name(rpc),
                        stage: CheckStage::Config,
                    },
                )
                &&& turn.bridge.client == b.client && turn.bridge.server == b.server
                &&& turn.rpc == numbered(rpc)
            } else {
                is_turned_down(
                    b.in_phase(PhaseView::Running),
                    rpc,
                    check.frame,
                    "thread or configuration unavailable or unsupported"@,
                    turn,
                )
            }
        }),
{
}

/// While a thread is held back, what the server sends for the terminal waits in its order and is
/// neither lost nor changed; too much of it ends the connection.
pub proof fn law_other_frames_wait_while_a_thread_is_held_back(
    b: BridgeView,
    rpc: RpcView,
    check: CheckView,
    frame: JsonView,
)
    requires
        b.phase == PhaseView::Checking(check),
        frame.at("method"@) != JsonView::Text("account/chatgptAuthTokens/refresh"@),
        frame.has("method"@) || frame.get("id"@) != Some(check.request),
    ensures
        ({
            let turn = b.turn(rpc, EventView::Coding(frame));
            if rpc.pending.len() < 128 {
                &&& nothing(turn.step)
                &&& turn.bridge == b
                &&& turn.rpc == (RpcView { pending: rpc.pending.push(frame), ..rpc })
            } else {
                only_error(turn.step, Error::TooManyBuffered)
            }
        }),
{
    assert(b.in_phase(PhaseView::Checking(check)) =~= b);
}

/// A private answer that is neither a result nor a proper error ends the connection.
pub proof fn law_private_answers_are_proper(
    b: BridgeView,
    rpc: RpcView,
    check: CheckView,
    answer: JsonView,
)
    requires
        b.phase == PhaseView::Checking(check),
        !answer.has("method"@),
        answer.get("id"@) == Some(check.request),
    ensures
        ({
            let turn = b.turn(rpc, EventView::Coding(answer));
            let error = answer.at("error"@);
            let code = error.at("code"@);
            let proper = !answer.has("result"@) && error.at("message"@) is Text && (code is Negative
                || (code matches JsonView::Unsigned(n) && n <= 0x7fff_ffff_ffff_ffff));
            &&& answer.has("error"@) && proper ==> is_turned_down(
                b.in_phase(PhaseView::Running),
                rpc,
                check.frame,
                "thread or configuration unavailable or unsupported"@,
                turn,
            )
            &&& answer.has("error"@) && !proper ==> only_error(
                turn.step,
                Error::InvalidPrivateError,
            )
            &&& !answer.has("error"@) && !answer.has("result"@) ==> only_error(
                turn.step,
                Error::InvalidPrivateResponse,
            )
        }),
{
}

/// When the server asks for a fresh token the host is asked with the server's parameters, and
/// the server gets the host's answer, or learns that there is none. The terminal is told nothing.
pub proof fn law_fresh_tokens_come_from_the_host(
    b: BridgeView,
    rpc: RpcView,
    frame: JsonView,
    id: JsonView,
    reply: JsonView,
)
    requires
        b.phase is Running || b.phase is Checking,
        frame.at("method"@) == JsonView::Text("account/chatgptAuthTokens/refresh"@),
        frame.get("id"@) == Some(id),
        names_request(id),
    ensures
        ({
            let asked = b.turn(rpc, EventView::Coding(frame));
            let given = asked.bridge.turn(asked.rpc, EventView::Host(reply));
            let refused = asked.bridge.turn(asked.rpc, EventView::HostFailed);
            &&& asked.step.host == Some(
                AuthRequestView::Refresh { params: frame.at("params"@) },
            )
            &&& asked.step.coding.len() == 0 && asked.step.ui is None && asked.step.finish is None
            &&& only_coding(given.step, success(id, reply))
            &&& given.bridge == b && given.rpc == rpc
            &&& refused.step.coding == seq![failure(id, "host authentication request failed"@)]
            &&& refused.step.ui is None
            &&& refused.step.finish == Some(Err::<Exit, Error>(Error::HostRefreshFailed))
        }),
{
    lemma_methods();
    if b.phase is Running {
        let asked = b.turn(rpc, EventView::Coding(frame));
        let given = asked.bridge.turn(asked.rpc, EventView::Host(reply));
        assert(given.bridge =~= b);
    } else {
        let asked = b.turn(rpc, EventView::Coding(frame));
        let given = asked.bridge.turn(asked.rpc, EventView::Host(reply));
        assert(given.bridge =~= b);
    }
}

/// A logout is the host's business: the terminal gets the host's answer and then the connection
/// ends, as a logout where the host confirmed it and with an error where not. The server hears
/// nothing of it.
pub proof fn law_logouts_are_answered_by_the_host(
    b: BridgeView,
    rpc: RpcView,
    frame: JsonView,
    id: JsonView,
    reply: JsonView,
)
    requires
        b.phase is Running,
        frame.at("method"@) == JsonView::Text("account/logout"@),
        frame.get("id"@) == Some(id),
        names_request(id),
    ensures
        ({
            let asked = b.turn(rpc, EventView::Ui(frame));
            let done = asked.bridge.turn(asked.rpc, EventView::Host(reply));
            let refused = asked.bridge.turn(asked.rpc, EventView::HostFailed);
            &&& asked.step.host == Some(AuthRequestView::Logout)
            &&& asked.step.coding.len() == 0 && asked.step.ui is None && asked.step.finish is None
            &&& done.step.ui == Some(success(id, reply)) && done.step.coding.len() == 0
            &&& done.step.finish == Some(Ok::<Exit, Error>(Exit::LoggedOut))
            &&& refused.step.ui == Some(failure(id, "host authentication request failed"@))
            &&& refused.step.coding.len() == 0
            &&& refused.step.finish == Some(Err::<Exit, Error>(Error::HostLogoutFailed))
        }),
{
    lemma_methods();
}

/// The course of a connection's beginning when all goes well: the server is introduced with what
/// the terminal said of itself and the experimental interface, asked for the configuration in
/// the working directory, and given the credentials; then the terminal gets what the server said
/// of itself, and messages go both ways.
pub proof fn law_setup_course(
    b: BridgeView,
    rpc: RpcView,
    hello: JsonView,
    id: JsonView,
    introduced: JsonView,
    config: JsonView,
    login: JsonView,
    ready: JsonView,
)
    requires
        rpc.sequence + 3 < u64::MAX,
        b.phase is AwaitInitialize,
        b.cwd is Some,
        hello.at("method"@) == JsonView::Text("initialize"@),
        hello.get("id"@) == Some(id),
        names_request(id),
        hello.at("params"@) is Object,
        hello.at("params"@).at("capabilities"@) is Null || hello.at("params"@).at("capabilities"@)
            is Object,
        !introduced.has("method"@) && introduced.get("id"@) == Some(own_name(rpc)),
        !introduced.has("error"@) && introduced.has("result"@),
        !config.has("method"@) && config.get("id"@) == Some(own_name(numbered(rpc))),
        !config.has("error"@) && is_accepted(config.at("result"@).at("config"@)),
        !login.has("method"@) && login.get("id"@) == Some(own_name(numbered(numbered(rpc)))),
        !login.has("error"@) && login.at("result"@).at("type"@) == JsonView::Text(
            "chatgptAuthTokens"@,
        ),
        ready.at("method"@) == JsonView::Text("initialized"@),
        !ready.has("id"@),
    ensures
        ({
            let one = b.turn(rpc, EventView::Ui(hello));
            let two = one.bridge.turn(one.rpc, EventView::Coding(introduced));
            let three = two.bridge.turn(two.rpc, EventView::Coding(config));
            let four = three.bridge.turn(three.rpc, EventView::Coding(login));
            let five = four.bridge.turn(four.rpc, EventView::Ui(ready));
            &&& one.step.coding.len() == 1 && one.step.ui is None && one.step.finish is None
            &&& one.step.coding[0].get("id"@) == Some(own_name(rpc))
            &&& one.step.coding[0].at("method"@) == JsonView::Text("initialize"@)
            &&& one.step.coding[0].at("params"@).at("capabilities"@).at("experimentalApi"@)
                == JsonView::Bool(true)
            &&& forall|key: Seq<char>|
                key != "capabilities"@ ==> #[trigger] one.step.coding[0].at("params"@).get(key)
                    == hello.at("params"@).get(key)
            &&& forall|key: Seq<char>|
                key != "experimentalApi"@ ==> #[trigger] one.step.coding[0].at("params"@).at(
                    "capabilities"@,
                ).get(key) == hello.at("params"@).at("capabilities"@).get(key)
            &&& two.step.coding.len() == 2 && two.step.ui is None && two.step.finish is None
            &&& two.step.coding[0] == JsonView::Object(
                map!["method"@ => JsonView::Text("initialized"@)],
            )
            &&& two.step.coding[1] == config_question(numbered(rpc), b.cwd->0)
            &&& only_coding(
                three.step,
                question(numbered(numbered(rpc)), "account/login/start"@, b.initial_login),
            )
            &&& only_ui(four.step, success(id, introduced.at("result"@)))
            &&& nothing(five.step)
            &&& five.bridge == b.in_phase(PhaseView::Running)
            &&& five.rpc.pending == rpc.pending
        }),
{
    lemma_methods();
    lemma_members();
    law_coding_configurations(config.at("result"@).at("config"@));
}

/// Until messages go both ways, a terminal that goes away or fails to introduce itself ends the
/// connection with an error; afterwards one that goes away ends it well.
pub proof fn law_terminals_introduce_themselves(
    b: BridgeView,
    rpc: RpcView,
    frame: JsonView,
    error: Error,
)
    ensures
        b.phase is AwaitInitialize ==> {
            &&& only_error(
                b.turn(rpc, EventView::UiClosed).step,
                Error::UiGoneBeforeInitialize,
            )
            &&& frame.at("method"@) != JsonView::Text("initialize"@) ==> only_error(
                b.turn(rpc, EventView::Ui(frame)).step,
                Error::ExpectedInitialize,
            )
            &&& only_error(b.turn(rpc, EventView::Failed(error)).step, error)
        },
        b.phase is AwaitInitialized ==> {
            &&& only_error(
                b.turn(rpc, EventView::UiClosed).step,
                Error::UiGoneBeforeInitialized,
            )
            &&& frame.at("method"@) != JsonView::Text("initialized"@) || frame.has("id"@)
                ==> only_error(b.turn(rpc, EventView::Ui(frame)).step, Error::ExpectedInitialized)
            &&& only_error(b.turn(rpc, EventView::Failed(error)).step, error)
        },
        b.phase is Running ==> {
            let step = b.turn(rpc, EventView::UiClosed).step;
            &&& step.finish == Some(Ok::<Exit, Error>(Exit::Disconnected))
            &&& step.coding.len() == 0 && step.ui is None && step.host is None
            &&& only_error(b.turn(rpc, EventView::Failed(error)).step, error)
        },
        b.phase is Checking || b.phase is Refresh || b.phase is LogOut ==> only_error(
            b.turn(rpc, EventView::Failed(error)).step,
            error,
        ),
{
}

/// Frames that have to be answered, or that answer, and whose identifier is missing or no
/// identifier end the connection, whoever sent them.
pub proof fn law_frames_need_their_identifiers(b: BridgeView, rpc: RpcView, frame: JsonView)
    requires
        frame.get("id"@) matches Some(id) ==> !names_request(id),
    ensures
        ({
            let fault = if frame.has("id"@) {
                Error::InvalidId
            } else {
                Error::MissingId
            };
            let method = frame.at("method"@);
            &&& b.phase is Running && !(method is Text) ==> only_error(
                b.turn(rpc, EventView::Ui(frame)).step,
                fault,
            )
            &&& b.phase is Running && method == JsonView::Text("account/logout"@) ==> only_error(
                b.turn(rpc, EventView::Ui(frame)).step,
                fault,
            )
            &&& (b.phase is Running || b.phase is Checking) && method == JsonView::Text(
                "account/chatgptAuthTokens/refresh"@,
            ) ==> only_error(b.turn(rpc, EventView::Coding(frame)).step, fault)
            &&& b.phase is AwaitInitialize && method == JsonView::Text("initialize"@)
                ==> only_error(b.turn(rpc, EventView::Ui(frame)).step, fault)
        }),
{
    lemma_methods();
}

/// Whether the setup was given up: the terminal is told so without a reason, the server gets
/// nothing more than the given frames, and the connection ends.
pub open spec fn is_given_up(turn: Turn, ui: JsonView, coding: Seq<JsonView>) -> bool {
    &&& turn.step.ui == Some(failure(ui, "coding session initialization failed"@))
    &&& turn.step.coding == coding
    &&& turn.step.host is None
    &&& turn.step.session is None
    &&& turn.step.finish == Some(Err::<Exit, Error>(Error::InitializationFailed))
    &&& turn.bridge.phase is Ended
}

/// The request whose answer the setup of a server awaits, and the terminal's own request.
pub open spec fn awaits(phase: PhaseView, request: JsonView, ui: JsonView) -> bool {
    match phase {
        PhaseView::Initialize { ui: asked, request: sent } => asked == ui && sent == request,
        PhaseView::ReadConfig { ui: asked, request: sent, .. } => asked == ui && sent == request,
        PhaseView::LogIn { ui: asked, request: sent, .. } => asked == ui && sent == request,
        _ => false,
    }
}

/// While a server is set up, an answer that is an error or has no result, an answer that is not
/// the right one, and any failure on the way give the setup up; so do parameters of the terminal
/// that are none, and a working directory that is not known.
pub proof fn law_failures_of_a_setup(
    b: BridgeView,
    rpc: RpcView,
    ui: JsonView,
    request: JsonView,
    answer: JsonView,
    hello: JsonView,
    error: Error,
)
    requires
        !answer.has("method"@),
        answer.get("id"@) == Some(request),
        hello.at("method"@) == JsonView::Text("initialize"@),
        hello.get("id"@) == Some(ui),
        names_request(ui),
    ensures
        ({
            let turn = b.turn(rpc, EventView::Coding(answer));
            let capabilities = hello.at("params"@).at("capabilities"@);
            &&& awaits(b.phase, request, ui) && (answer.has("error"@) || !answer.has("result"@))
                ==> is_given_up(turn, ui, Seq::empty()) && turn.rpc == rpc
            &&& awaits(b.phase, request, ui) ==> is_given_up(
                b.turn(rpc, EventView::Failed(error)),
                ui,
                Seq::empty(),
            )
            &&& awaits(b.phase, request, ui) && b.phase is Initialize && b.cwd is None
                && !answer.has("error"@) && answer.has("result"@) ==> is_given_up(
                turn,
                ui,
                seq![JsonView::Object(map!["method"@ => JsonView::Text("initialized"@)])],
            )
            &&& awaits(b.phase, request, ui) && b.phase is ReadConfig && !is_accepted(
                answer.at("result"@).at("config"@),
            ) ==> is_given_up(turn, ui, Seq::empty())
            &&& awaits(b.phase, request, ui) && b.phase is LogIn && answer.at("result"@).at(
                "type"@,
            ) != JsonView::Text("chatgptAuthTokens"@) ==> is_given_up(turn, ui, Seq::empty())
            &&& b.phase is AwaitInitialize && (!(hello.at("params"@) is Object) || !(capabilities
                is Null || capabilities is Object)) ==> is_given_up(
                b.turn(rpc, EventView::Ui(hello)),
                ui,
                Seq::empty(),
            )
        }),
{
    lemma_methods();
    lemma_members();
}

/// While a server is set up, whatever else it sends waits in its order, where fewer than 128
/// frames do; otherwise the setup is given up.
pub proof fn law_other_frames_wait_during_a_setup(
    b: BridgeView,
    rpc: RpcView,
    ui: JsonView,
    request: JsonView,
    frame: JsonView,
)
    requires
        awaits(b.phase, request, ui),
        frame.has("method"@) || frame.get("id"@) != Some(request),
    ensures
        ({
            let turn = b.turn(rpc, EventView::Coding(frame));
            &&& rpc.pending.len() < 128 ==> {
                &&& nothing(turn.step)
                &&& turn.bridge == b
                &&& turn.rpc == (RpcView { pending: rpc.pending.push(frame), ..rpc })
            }
            &&& rpc.pending.len() >= 128 ==> is_given_up(turn, ui, Seq::empty()) && turn.rpc == rpc
        }),
{
}

/// Whatever happens, a connection keeps the credentials and the working directory that it was
/// given, and the process group of its server.
pub proof fn law_connections_keep_what_they_were_given(
    b: BridgeView,
    rpc: RpcView,
    event: EventView,
)
    ensures
        b.turn(rpc, event).bridge.initial_login == b.initial_login,
        b.turn(rpc, event).bridge.cwd == b.cwd,
        b.turn(rpc, event).rpc.process_group == rpc.process_group,
{
    match event {
        EventView::Ui(frame) => match b.phase {
            PhaseView::AwaitInitialize => {},
            PhaseView::AwaitInitialized => {},
            _ => lemma_kept_from_the_terminal(b, rpc, frame),
        },
        EventView::Coding(frame) => match b.phase {
            PhaseView::Running => lemma_kept_from_the_server(b, rpc, frame),
            PhaseView::Checking(check) => lemma_kept_while_checking(b, rpc, check, frame),
            _ => lemma_kept_during_a_setup(b, rpc, frame),
        },
        _ => {},
    }
}

/// Whether a turn leaves what a connection was given.
spec fn keeps(b: BridgeView, rpc: RpcView, turn: Turn) -> bool {
    &&& turn.bridge.initial_login == b.initial_login
    &&& turn.bridge.cwd == b.cwd
    &&& turn.rpc.process_group == rpc.process_group
}

proof fn lemma_kept_when_sent_on(b: BridgeView, rpc: RpcView, frame: JsonView)
    ensures
        keeps(b, rpc, b.forwarding(rpc, frame)),
        keeps(b, rpc, b.unavailable(rpc, frame)),
{
}

proof fn lemma_kept_from_the_terminal(b: BridgeView, rpc: RpcView, frame: JsonView)
    ensures
        keeps(b, rpc, b.on_ui(rpc, frame)),
{
    lemma_kept_when_sent_on(b, rpc, frame);
    assert(keeps(b, rpc, b.checking(rpc, frame)));
}

proof fn lemma_kept_from_the_server(b: BridgeView, rpc: RpcView, frame: JsonView)
    ensures
        keeps(b, rpc, b.on_coding(rpc, frame)),
{
}

proof fn lemma_kept_while_checking(
    b: BridgeView,
    rpc: RpcView,
    check: CheckView,
    frame: JsonView,
)
    ensures
        keeps(b, rpc, b.on_checking(rpc, check, frame)),
{
    lemma_kept_when_sent_on(b, rpc, check.frame);
    if let Some(result) = frame.get("result"@) {
        assert(keeps(b, rpc, b.on_answer(rpc, check, result)));
    }
}

proof fn lemma_kept_during_a_setup(b: BridgeView, rpc: RpcView, frame: JsonView)
    ensures
        keeps(b, rpc, b.on_startup(rpc, frame)),
{
}

proof fn lemma_members()
    ensures
        "id"@ != "method"@,
        "id"@ != "params"@,
        "method"@ != "params"@,
        "capabilities"@ != "experimentalApi"@,
{
    reveal_strlit("id");
    reveal_strlit("method");
    reveal_strlit("params");
    reveal_strlit("capabilities");
    reveal_strlit("experimentalApi");
    assert("id"@.len() == 2);
    assert("method"@.len() == 6);
    assert("params"@.len() == 6);
    assert("capabilities"@.len() == 12);
    assert("experimentalApi"@.len() == 15);
    assert("method"@[0] == 'm');
    assert("params"@[0] == 'p');
}

/// While a connection runs, what the server sends without asking for an answer is what the
/// terminal gets, and all that is to be done; and so is a request of the server that can be
/// answered.
pub proof fn law_running_connections_pass_messages_on(
    bridge: &mut Bridge,
    coding: &mut Rpc,
    frame: Json,
    method: Seq<char>,
    step: Step,
)
    requires
        call_ensures(Bridge::run, (bridge, coding, Event::Coding(frame)), step),
        old(bridge)@.phase is Running,
        frame@.at("method"@) == JsonView::Text(method),
        method != "account/chatgptAuthTokens/refresh"@,
        frame@.get("id"@) matches Some(id) ==> names_request(id) && old(bridge)@.server.len() < 128
            && !old(bridge)@.server.contains(id),
    ensures
        step.ui is Some,
        step.ui->0@ == frame@,
        step.coding@.len() == 0,
        step.host is None,
        step.session is None,
        step.finish is None,
        final(bridge)@.phase is Running,
        final(coding)@ == old(coding)@,
{
    law_messages_of_the_server_reach_the_terminal_unchanged(
        old(bridge)@,
        old(coding)@,
        frame@,
        method,
    );
    assert(step@.coding.len() == step.coding@.len());
}

/// What a step has to say is what it holds: each frame, whether it is for the server or the
/// terminal, the request for the host, the session and the end.
pub proof fn law_steps_say_what_they_hold(step: Step)
    ensures
        step@.coding.len() == step.coding@.len(),
        forall|i: int| 0 <= i < step.coding@.len() ==> #[trigger] step@.coding[i] == step.coding@[i]@,
        step.ui is None <==> step@.ui is None,
        step.ui is Some ==> step@.ui == Some(step.ui->0@),
        step.host is None <==> step@.host is None,
        step.host is Some ==> step@.host == Some(step.host->0@),
        step.session is None <==> step@.session is None,
        step.session is Some ==> step@.session == Some(step.session->0@),
        step@.finish == step.finish,
{
}

/// What an event says is what it holds.
pub proof fn law_events_say_what_they_hold(event: Event)
    ensures
        event matches Event::Ui(frame) ==> event@ == EventView::Ui(frame@),
        event matches Event::Coding(frame) ==> event@ == EventView::Coding(frame@),
        event matches Event::Host(reply) ==> event@ == EventView::Host(reply@),
        event matches Event::Failed(error) ==> event@ == EventView::Failed(error),
        event is UiClosed ==> event@ is UiClosed,
        event is HostFailed ==> event@ is HostFailed,
{
}

/// The configuration of a coding server is validated where it is accepted, and refused where it
/// is not.
pub proof fn law_validated_configurations(config: &Json, result: Result<(), Error>)
    requires
        call_ensures(validate_config, (config,), result),
    ensures
        result == Ok::<(), Error>(()) <==> is_accepted(config@),
{
    law_coding_configurations(config@);
}

} // verus!
