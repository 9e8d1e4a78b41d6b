//! The rules of the bridge between a terminal and its coding server: what the terminal may
//! ask for, which configurations are accepted, and how answers are put.

use crate::auth::official_backend;
use crate::error::Error;
use crate::json::{read_json, show_json, Json};
use crate::rpc::{MAX_FRAME, RPC_TIMEOUT};
use crate::text::{characters, same_text, split_text};
use vstd::prelude::*;
use vstd::string::*;
use vstd::utf8::*;

use crate::auth::is_official_backend;
use crate::json::{
    items_view, json_read, json_written, lemma_items_view, members_view, JsonView, MAX_DEPTH,
};
use crate::text::{split_parts, texts};

verus! {

/// What the bridge asks of the host that keeps the profile.
pub enum AuthRequest {
    Login,
    Refresh { params: Json },
    Logout,
}

/// What a request to the host says.
pub enum AuthRequestView {
    Login,
    Refresh { params: JsonView },
    Logout,
}

impl View for AuthRequest {
    type V = AuthRequestView;

    open spec fn view(&self) -> AuthRequestView {
        match self {
            AuthRequest::Login => AuthRequestView::Login,
            AuthRequest::Refresh { params } => AuthRequestView::Refresh { params: params@ },
            AuthRequest::Logout => AuthRequestView::Logout,
        }
    }
}

/// How a connection to a terminal ended.
#[derive(Clone, Copy, Debug, PartialEq, Eq, Structural)]
pub enum Exit {
    Disconnected,
    LoggedOut,
}

/// What the host is asked for before a connection begins.
pub fn login_params() -> (request: AuthRequest)
    ensures
        request@ == AuthRequestView::Login,
{
    AuthRequest::Login
}

/// For how many seconds the host's answer to a request is awaited: for tokens, less than the
/// server itself waits.
pub open spec fn host_deadline(request: AuthRequestView) -> u64 {
    match request {
        AuthRequestView::Logout => RPC_TIMEOUT,
        _ => 8,
    }
}

/// Tells for how many seconds the host's answer to a request is awaited.
pub fn host_request(request: &AuthRequest) -> (seconds: u64)
    ensures
        seconds == host_deadline(request@),
{
    match request {
        AuthRequest::Login => 8,
        AuthRequest::Refresh { .. } => 8,
        AuthRequest::Logout => RPC_TIMEOUT,
    }
}

/// An answer that reports a failure.
pub open spec fn error_frame(id: JsonView, message: Seq<char>) -> JsonView {
    JsonView::object().with("id"@, id).with(
        "error"@,
        JsonView::object().with("code"@, JsonView::Negative(-32000 as i64)).with(
            "message"@,
            JsonView::Text(message),
        ),
    )
}

/// Reports a failure of a request.
pub fn rpc_error(id: Json, message: &str) -> (frame: Json)
    ensures
        frame@ == error_frame(id@, message@),
{
    let error = Json::object().with("code", Json::Negative(-32000)).with(
        "message",
        Json::text(message),
    );
    Json::object().with("id", id).with("error", error)
}

/// An answer that carries a result.
pub open spec fn result_frame(id: JsonView, result: JsonView) -> JsonView {
    JsonView::object().with("id"@, id).with("result"@, result)
}

/// Answers a request with a result.
pub fn rpc_result(id: Json, result: Json) -> (frame: Json)
    ensures
        frame@ == result_frame(id@, result@),
{
    Json::object().with("id", id).with("result", result)
}

/// How the host's answer is passed on. Nothing of a failure is.
pub open spec fn host_frame(id: JsonView, reply: Option<JsonView>) -> JsonView {
    match reply {
        Some(result) => result_frame(id, result),
        None => error_frame(id, "host authentication request failed"@),
    }
}

/// Passes the host's answer on.
pub fn auth_response(id: Json, reply: Option<Json>) -> (frame: Json)
    ensures
        frame@ == host_frame(id@, crate::rpc::option_view(reply)),
{
    match reply {
        Some(result) => rpc_result(id, result),
        None => rpc_error(id, "host authentication request failed"),
    }
}

/// The identifier of a request.
pub open spec fn request_id_of(frame: JsonView) -> Result<JsonView, Error> {
    match frame.get("id"@) {
        None => Err(Error::MissingId),
        Some(id) => if id.is_id() {
            Ok(id)
        } else {
            Err(Error::InvalidId)
        },
    }
}

/// What an identifier or its refusal says.
pub open spec fn id_view(id: Result<Json, Error>) -> Result<JsonView, Error> {
    match id {
        Ok(json) => Ok(json@),
        Err(error) => Err(error),
    }
}

/// Takes the identifier of a request: a text or an integer.
pub fn request_id(frame: &Json) -> (id: Result<Json, Error>)
    ensures
        id_view(id) == request_id_of(frame@),
{
    match frame.get("id") {
        None => Err(Error::MissingId),
        Some(id) => if id.is_id() {
            Ok(id.clone())
        } else {
            Err(Error::InvalidId)
        },
    }
}

/// The settings that decide whom the server talks to and with whose credentials.
pub open spec fn is_sensitive(setting: Seq<char>) -> bool {
    ||| setting == "profile"@
    ||| setting == "profiles"@
    ||| setting == "model_provider"@
    ||| setting == "model_providers"@
    ||| setting == "chatgpt_base_url"@
    ||| setting == "cli_auth_credentials_store"@
    ||| setting == "forced_login_method"@
    ||| setting == "forced_chatgpt_workspace_id"@
}

/// Whether a path of keys begins at a sensitive setting.
pub open spec fn is_sensitive_key(key: Seq<char>) -> bool {
    is_sensitive(split_parts(key, '.')[0])
}

/// Tells whether a path of keys begins at a sensitive setting.
pub fn sensitive_key(key: &str) -> (sensitive: bool)
    ensures
        sensitive == is_sensitive_key(key@),
{
    let parts = split_text(key, '.');
    let first = parts[0].as_str();
    assert(first@ == texts(parts@)[0]);
    same_text(first, "profile") || same_text(first, "profiles") || same_text(
        first,
        "model_provider",
    ) || same_text(first, "model_providers") || same_text(first, "chatgpt_base_url") || same_text(
        first,
        "cli_auth_credentials_store",
    ) || same_text(first, "forced_login_method") || same_text(first, "forced_chatgpt_workspace_id")
}

/// Whether an edit of the configuration is one of a sensitive setting.
pub open spec fn is_sensitive_edit(edit: JsonView) -> bool {
    match edit.at("keyPath"@).as_text() {
        Some(key) => is_sensitive_key(key),
        None => is_sensitive_key(""@),
    }
}

fn sensitive_edit(edit: &Json) -> (sensitive: bool)
    ensures
        sensitive == is_sensitive_edit(edit@),
{
    match edit.at("keyPath").as_text() {
        Some(key) => sensitive_key(key),
        None => sensitive_key(""),
    }
}

/// The methods that begin a thread or go on with one.
pub open spec fn is_thread_method(method: Seq<char>) -> bool {
    method == "thread/start"@ || method == "thread/resume"@ || method == "thread/fork"@
}

/// Tells whether a method begins a thread or goes on with one.
pub fn thread_method(method: &str) -> (yes: bool)
    ensures
        yes == is_thread_method(method@),
{
    same_text(method, "thread/start") || same_text(method, "thread/resume") || same_text(
        method,
        "thread/fork",
    )
}

/// Whether one of several edits is one of a sensitive setting.
pub open spec fn has_sensitive_edit(edits: Seq<JsonView>) -> bool {
    exists|i: int| 0 <= i < edits.len() && is_sensitive_edit(#[trigger] edits[i])
}

/// Whether one of several settings is sensitive.
pub open spec fn has_sensitive_key(settings: Map<Seq<char>, JsonView>) -> bool {
    exists|key: Seq<char>| #[trigger] settings.contains_key(key) && is_sensitive_key(key)
}

/// Whether a request would change whom the server talks to, or with whose credentials.
pub open spec fn is_rerouting(method: Seq<char>, params: JsonView) -> bool {
    if method == "config/value/write"@ {
        is_sensitive_edit(params)
    } else if method == "config/batchWrite"@ {
        params.at("edits"@) matches JsonView::Array(edits) && has_sensitive_edit(edits)
    } else if is_thread_method(method) {
        ||| !(params.at("modelProvider"@) is Null) && params.at("modelProvider"@)
            != JsonView::Text("openai"@)
        ||| params.at("config"@) matches JsonView::Object(settings) && has_sensitive_key(settings)
    } else {
        false
    }
}

proof fn lemma_members_keys(members: Seq<(String, Json)>, key: Seq<char>)
    ensures
        members_view(members).contains_key(key) <==> exists|i: int|
            0 <= i < members.len() && (#[trigger] members[i]).0@ == key,
    decreases members.len(),
{
    if members.len() > 0 {
        lemma_members_keys(members.drop_last(), key);
        if members_view(members).contains_key(key) {
            if members.last().0@ == key {
                assert(members[members.len() - 1].0@ == key);
            } else {
                let i = choose|i: int|
                    0 <= i < members.drop_last().len() && (#[trigger] members.drop_last()[i]).0@
                        == key;
                assert(members[i].0@ == key);
            }
        }
        if exists|i: int| 0 <= i < members.len() && (#[trigger] members[i]).0@ == key {
            let i = choose|i: int| 0 <= i < members.len() && (#[trigger] members[i]).0@ == key;
            if i < members.len() - 1 {
                assert(members.drop_last()[i].0@ == key);
            }
        }
    }
}

/// Tells whether a request would change whom the server talks to, or with whose credentials.
pub fn changes_auth_routing(method: &str, params: &Json) -> (changes: bool)
    ensures
        changes == is_rerouting(method@, params@),
{
    if same_text(method, "config/value/write") {
        return sensitive_edit(params);
    }
    if same_text(method, "config/batchWrite") {
        return match params.at("edits") {
            Json::Array(edits) => {
                proof {
                    lemma_items_view(edits@);
                }
                let mut i: usize = 0;
                while i < edits.len()
                    invariant
                        i <= edits.len(),
                        items_view(edits@).len() == edits@.len(),
                        forall|j: int|
                            0 <= j < edits@.len() ==> #[trigger] items_view(edits@)[j]
                                == edits@[j]@,
                        forall|j: int|
                            0 <= j < i ==> !is_sensitive_edit(#[trigger] items_view(edits@)[j]),
                        method@ == "config/batchWrite"@,
                        method@ != "config/value/write"@,
                        params@.at("edits"@) == JsonView::Array(items_view(edits@)),
                    decreases edits.len() - i,
                {
                    if sensitive_edit(&edits[i]) {
                        assert(is_sensitive_edit(items_view(edits@)[i as int]));
                        assert(has_sensitive_edit(items_view(edits@)));
                        return true;
                    }
                    i += 1;
                }
                false
            },
            _ => false,
        };
    }
    if !thread_method(method) {
        return false;
    }
    let provider = params.at("modelProvider");
    if !provider.is_null() && !provider.is_text("openai") {
        return true;
    }
    match params.at("config") {
        Json::Object(settings) => {
            let mut i: usize = 0;
            while i < settings.len()
                invariant
                    i <= settings.len(),
                    forall|j: int| 0 <= j < i ==> !is_sensitive_key((#[trigger] settings@[j]).0@),
                    is_thread_method(method@),
                    method@ != "config/batchWrite"@,
                    method@ != "config/value/write"@,
                    params@.at("config"@) == JsonView::Object(members_view(settings@)),
                decreases settings.len() - i,
            {
                if sensitive_key(settings[i].0.as_str()) {
                    proof {
                        lemma_members_keys(settings@, settings@[i as int].0@);
                        assert(has_sensitive_key(members_view(settings@)));
                    }
                    return true;
                }
                i += 1;
            }
            proof {
                assert forall|key: Seq<char>| #[trigger]
                    members_view(settings@).contains_key(key) implies !is_sensitive_key(key) by {
                    lemma_members_keys(settings@, key);
                }
            }
            false
        },
        _ => false,
    }
}

/// The methods that deal with credentials and stay with the host.
pub open spec fn is_managed(method: Seq<char>) -> bool {
    ||| method == "account/login/start"@
    ||| method == "account/login/cancel"@
    ||| method == "account/bedrock/setup"@
    ||| method == "account/bedrock/discover"@
    ||| method == "loginAccount"@
    ||| method == "getAuthStatus"@
    ||| method == "account/chatgptAuthTokens/refresh"@
    ||| method == "initialize"@
}

/// Tells whether a method deals with credentials and stays with the host.
pub fn managed_method(method: &str) -> (yes: bool)
    ensures
        yes == is_managed(method@),
{
    same_text(method, "account/login/start") || same_text(method, "account/login/cancel")
        || same_text(method, "account/bedrock/setup") || same_text(
        method,
        "account/bedrock/discover",
    ) || same_text(method, "loginAccount") || same_text(method, "getAuthStatus") || same_text(
        method,
        "account/chatgptAuthTokens/refresh",
    ) || same_text(method, "initialize")
}

/// Why the effective configuration of a coding server is refused; none where it is accepted.
pub open spec fn coding_config_fault(config: JsonView) -> Option<Error> {
    if !(config is Object) {
        Some(Error::MissingConfiguration)
    } else if !(config.at("model_provider"@) is Null) && config.at("model_provider"@)
        != JsonView::Text("openai"@) {
        Some(Error::UnsupportedProvider)
    } else if config.at("cli_auth_credentials_store"@) != JsonView::Text("ephemeral"@) {
        Some(Error::UnsupportedStore)
    } else if config.at("model_providers"@).has("openai"@) {
        Some(Error::UnsupportedOverride)
    } else if !is_official_backend(config.at("chatgpt_base_url"@)) {
        Some(Error::UnsupportedBaseUrl)
    } else {
        None
    }
}

/// Refuses a coding server that keeps credentials, or that talks to anyone but the official
/// services.
pub fn validate_config(config: &Json) -> (result: Result<(), Error>)
    ensures
        result == (match coding_config_fault(config@) {
            Some(error) => Err(error),
            None => Ok(()),
        }),
{
    if !config.is_object() {
        return Err(Error::MissingConfiguration);
    }
    let provider = config.at("model_provider");
    if !provider.is_null() && !provider.is_text("openai") {
        return Err(Error::UnsupportedProvider);
    }
    if !config.at("cli_auth_credentials_store").is_text("ephemeral") {
        return Err(Error::UnsupportedStore);
    }
    if config.at("model_providers").has("openai") {
        return Err(Error::UnsupportedOverride);
    }
    if !official_backend(config.at("chatgpt_base_url")) {
        return Err(Error::UnsupportedBaseUrl);
    }
    Ok(())
}

/// The parameters with which the server is initialized for a terminal that sent these: the
/// same, with the experimental interface switched on; none where they are malformed.
pub open spec fn prepared_params(params: JsonView) -> Option<JsonView> {
    let given = params.at("capabilities"@);
    let capabilities = if given is Null {
        JsonView::object()
    } else {
        given
    };
    if params is Object && capabilities is Object {
        Some(
            params.with(
                "capabilities"@,
                capabilities.with("experimentalApi"@, JsonView::Bool(true)),
            ),
        )
    } else {
        None
    }
}

/// Prepares the parameters with which the server is initialized for a terminal.
pub fn prepare_params(params: &Json) -> (prepared: Option<Json>)
    ensures
        crate::rpc::option_view(prepared) == prepared_params(params@),
{
    let given = params.at("capabilities");
    let capabilities = if given.is_null() {
        Json::object()
    } else {
        given.clone()
    };
    if !params.is_object() || !capabilities.is_object() {
        return None;
    }
    let extended = capabilities.with("experimentalApi", Json::Bool(true));
    Some(params.clone().with("capabilities", extended))
}

/// A character that the identifier of a thread may hold so that it can be resumed.
pub open spec fn is_thread_char(c: char) -> bool {
    'a' <= c <= 'z' || 'A' <= c <= 'Z' || '0' <= c <= '9' || c == '-' || c == '_'
}

/// Whether a text can be given to a shell as the identifier of a thread.
pub open spec fn is_thread_id(id: Seq<char>) -> bool {
    1 <= id.len() <= 128 && forall|i: int| 0 <= i < id.len() ==> is_thread_char(#[trigger] id[i])
}

/// Tells whether a text can be given to a shell as the identifier of a thread.
pub fn safe_thread_id(id: &str) -> (safe: bool)
    ensures
        safe == is_thread_id(id@),
{
    let list = characters(id);
    if list.len() == 0 || list.len() > 128 {
        return false;
    }
    let mut i: usize = 0;
    while i < list.len()
        invariant
            i <= list.len(),
            list@ == id@,
            forall|j: int| 0 <= j < i ==> is_thread_char(#[trigger] list@[j]),
        decreases list.len() - i,
    {
        let c = list[i];
        if !('a' <= c && c <= 'z') && !('A' <= c && c <= 'Z') && !('0' <= c && c <= '9') && c
            != '-' && c != '_' {
            assert(!is_thread_char(id@[i as int]));
            return false;
        }
        i += 1;
    }
    true
}

/// The thread that an answer selects: one that was begun without an error, is kept, and has
/// a harmless identifier.
pub open spec fn selected_thread(answer: JsonView) -> Option<Seq<char>> {
    let thread = answer.at("result"@).at("thread"@);
    if !answer.has("error"@) && thread.at("ephemeral"@) == JsonView::Bool(false) {
        match thread.at("id"@).as_text() {
            Some(id) => if is_thread_id(id) {
                Some(id)
            } else {
                None
            },
            None => None,
        }
    } else {
        None
    }
}

/// Finds the thread that an answer selects.
pub fn select_thread(answer: &Json) -> (selected: Option<String>)
    ensures
        crate::profile::text_view(selected) == selected_thread(answer@),
{
    if answer.has("error") {
        return None;
    }
    let thread = answer.at("result").at("thread");
    // hidden title requests also create threads, but cannot be resumed.
    match thread.at("ephemeral").as_bool() {
        Some(false) => {},
        _ => return None,
    }
    match thread.at("id").as_text() {
        Some(id) => if safe_thread_id(id) {
            Some(id.to_owned())
        } else {
            None
        },
        None => None,
    }
}

/// What kind of message a terminal sent.
pub enum UiMessage {
    Text(String),
    Close,
    /// A sign of life.
    Beat,
    Other,
}

/// What comes of a terminal's message.
pub enum UiReceived {
    Frame(Json),
    Closed,
    /// Nothing: read on.
    Again,
    Failed(Error),
}

/// The object that a terminal's text stands for, as JSON.
pub open spec fn ui_frame(text: Seq<char>) -> Result<JsonView, Error> {
    match json_read(encode_utf8(text)) {
        None => Err(Error::InvalidUiJson),
        Some(value) => if value is Object {
            Ok(value)
        } else {
            Err(Error::InvalidUiMessage)
        },
    }
}

/// Reads a terminal's message: an object, as JSON.
pub fn read_ui(message: UiMessage) -> (received: UiReceived)
    ensures
        match message {
            UiMessage::Text(text) => match ui_frame(text@) {
                Ok(value) => received matches UiReceived::Frame(frame) && frame@ == value,
                Err(error) => received == UiReceived::Failed(error),
            },
            UiMessage::Close => received == UiReceived::Closed,
            UiMessage::Beat => received == UiReceived::Again,
            UiMessage::Other => received == UiReceived::Failed(Error::UiReadFailed),
        },
{
    match message {
        UiMessage::Text(text) => match read_json(text.as_str().as_bytes()) {
            None => UiReceived::Failed(Error::InvalidUiJson),
            Some(value) => if value.is_object() {
                UiReceived::Frame(value)
            } else {
                UiReceived::Failed(Error::InvalidUiMessage)
            },
        },
        UiMessage::Close => UiReceived::Closed,
        UiMessage::Beat => UiReceived::Again,
        UiMessage::Other => UiReceived::Failed(Error::UiReadFailed),
    }
}

/// Writes a message to a terminal, unless it is too long.
///
/// The message is the value's compact form, as it is written for the server too. An object
/// that nests no deeper than is read, and whose numbers are 64-bit integers, is read from it
/// again as it was sent.
pub fn write_ui(value: &Json) -> (text: Result<String, Error>)
    ensures
        json_written(value@) matches Some(bytes) && if bytes.len() > MAX_FRAME {
            text == Err::<String, Error>(Error::UiTooLarge)
        } else {
            text matches Ok(written) && encode_utf8(written@) == bytes && (value@ is Object
                && value@.plain(MAX_DEPTH as nat) ==> ui_frame(written@) == Ok::<JsonView, Error>(
                value@,
            ))
        },
{
    let text = show_json(value);
    if text.as_str().as_bytes().len() > MAX_FRAME {
        return Err(Error::UiTooLarge);
    }
    Ok(text)
}

} // verus!
