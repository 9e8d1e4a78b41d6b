//! What holds of the frames between the terminal, this program and the servers, said of what
//! goes into a call and what comes out of it.

use crate::bridge::{
    auth_response, host_request, managed_method, prepare_params, read_ui, request_id, rpc_error,
    rpc_result, safe_thread_id, select_thread, sensitive_key, thread_method, write_ui, AuthRequest,
    UiMessage, UiReceived,
};
use crate::error::Error;
use crate::json::Json;
use crate::process::{stop, StopAction, StopEvent, StopStage, Stopped};
use crate::rpc::{is_answer, FrameReader, Received, Rpc, ServerChild};
use vstd::prelude::*;

use crate::json::{json_read, json_view, json_written, members_view, JsonView};
use crate::rpc::{lemma_line_length, line_length};
use crate::text::{decimal_text, law_first_part_ends_at_the_first_mark};

verus! {

/// The frames that wait come back oldest first, and nothing else changes.
pub proof fn law_waiting_frames_come_back(rpc: &mut Rpc, frame: Option<Json>)
    requires
        call_ensures(Rpc::recv, (rpc,), frame),
    ensures
        frame is Some <==> old(rpc)@.pending.len() > 0,
        frame is Some ==> {
            &&& frame->0@ == old(rpc)@.pending[0]
            &&& final(rpc)@.pending == old(rpc)@.pending.skip(1)
        },
        frame is None ==> final(rpc)@.pending == old(rpc)@.pending,
        final(rpc)@.sequence == old(rpc)@.sequence,
        final(rpc)@.process_group == old(rpc)@.process_group,
{
}

/// A frame waits behind the others where fewer than 128 do; otherwise nothing changes.
pub proof fn law_frames_wait_their_turn(rpc: &mut Rpc, frame: Json, result: Result<(), Error>)
    requires
        call_ensures(Rpc::defer, (rpc, frame), result),
    ensures
        result == Ok::<(), Error>(()) <==> old(rpc)@.pending.len() < 128,
        result is Ok ==> final(rpc)@.pending == old(rpc)@.pending.push(frame@),
        result is Err ==> result == Err::<(), Error>(Error::TooManyBuffered) && final(rpc)@.pending == old(rpc)@.pending,
        final(rpc)@.sequence == old(rpc)@.sequence,
        final(rpc)@.process_group == old(rpc)@.process_group,
{
}

/// A frame that asks: an object of an identifier, a method and parameters.
pub open spec fn asks_for(
    frame: JsonView,
    id: JsonView,
    method: Seq<char>,
    params: JsonView,
) -> bool {
    frame == JsonView::Object(
        map!["id"@ => id, "method"@ => JsonView::Text(method), "params"@ => params],
    )
}

/// A request is named by this program and the next number, which no other has, and is an
/// object of that name, its method and its parameters.
pub proof fn law_requests_are_named_and_framed(
    rpc: &mut Rpc,
    method: &str,
    params: Json,
    begun: (Json, Json),
)
    requires
        call_ensures(Rpc::request, (rpc, method, params), begun),
        old(rpc)@.sequence < u64::MAX,
    ensures
        begun.0@ == JsonView::Text("coduck-"@ + decimal_text((old(rpc)@.sequence + 1) as nat)),
        asks_for(begun.1@, begun.0@, method@, params@),
        final(rpc)@.sequence == old(rpc)@.sequence + 1,
        final(rpc)@.pending == old(rpc)@.pending,
        final(rpc)@.process_group == old(rpc)@.process_group,
{
    lemma_asking(begun.0@, method@, params@);
}

/// The request that begins a conversation is one for `initialize`.
pub proof fn law_conversations_begin(rpc: &mut Rpc, params: Json, begun: (Json, Json), frame: Json)
    requires
        call_ensures(Rpc::initialize, (rpc, params), begun),
        call_ensures(Rpc::initialized, (), frame),
        old(rpc)@.sequence < u64::MAX,
    ensures
        begun.0@ == JsonView::Text("coduck-"@ + decimal_text((old(rpc)@.sequence + 1) as nat)),
        asks_for(begun.1@, begun.0@, "initialize"@, params@),
        frame@ == JsonView::Object(map!["method"@ => JsonView::Text("initialized"@)]),
        final(rpc)@.sequence == old(rpc)@.sequence + 1,
        final(rpc)@.pending == old(rpc)@.pending,
        final(rpc)@.process_group == old(rpc)@.process_group,
{
    lemma_asking(begun.0@, "initialize"@, params@);
    assert(frame@->Object_0 =~= map!["method"@ => JsonView::Text("initialized"@)]);
}

proof fn lemma_asking(id: JsonView, method: Seq<char>, params: JsonView)
    ensures
        asks_for(crate::rpc::request_frame(id, method, params), id, method, params),
{
    let frame = crate::rpc::request_frame(id, method, params);
    assert(frame->Object_0 =~= map![
        "id"@ => id,
        "method"@ => JsonView::Text(method),
        "params"@ => params,
    ]);
}

/// Whether a frame is an object without a method whose identifier is the given one.
pub open spec fn is_reply(frame: JsonView, id: JsonView) -> bool {
    frame matches JsonView::Object(members) && !members.contains_key("method"@)
        && members.contains_key("id"@) && members["id"@] == id
}

/// While an answer is awaited, a frame is it where it is an object without a method that has
/// the identifier of the request: a failure of the server is one, and otherwise there has to be
/// a result. Any other frame waits, where fewer than 128 do.
pub proof fn law_answers_are_awaited(
    rpc: &mut Rpc,
    id: &Json,
    frame: Json,
    outcome: Result<Option<Json>, Error>,
    yes: bool,
)
    requires
        call_ensures(Rpc::await_answer, (rpc, id, frame), outcome),
        call_ensures(is_answer, (&frame, id), yes),
    ensures
        yes <==> is_reply(frame@, id@),
        is_reply(frame@, id@) ==> {
            let members = frame@->Object_0;
            &&& final(rpc)@ == old(rpc)@
            &&& members.contains_key("error"@) ==> outcome == Err::<Option<Json>, Error>(
                Error::RequestFailed,
            )
            &&& !members.contains_key("error"@) && !members.contains_key("result"@) ==> outcome
                == Err::<Option<Json>, Error>(Error::InvalidResponse)
            &&& !members.contains_key("error"@) && members.contains_key("result"@) ==> (
            outcome matches Ok(Some(result)) && result@ == members["result"@])
        },
        !is_reply(frame@, id@) && old(rpc)@.pending.len() < 128 ==> {
            &&& outcome == Ok::<Option<Json>, Error>(None)
            &&& final(rpc)@.pending == old(rpc)@.pending.push(frame@)
            &&& final(rpc)@.sequence == old(rpc)@.sequence
            &&& final(rpc)@.process_group == old(rpc)@.process_group
        },
        !is_reply(frame@, id@) && old(rpc)@.pending.len() >= 128 ==> {
            &&& outcome == Err::<Option<Json>, Error>(Error::TooManyBuffered)
            &&& final(rpc)@ == old(rpc)@
        },
{
}

/// A server that was started is spoken to where both its output and its input can be had; its
/// group is that of the child, no frame waits and no identifier was given out.
pub proof fn law_servers_are_spoken_to(child: Option<ServerChild>, rpc: Result<Rpc, Error>)
    requires
        call_ensures(Rpc::spawn, (child,), rpc),
    ensures
        child is None ==> rpc == Err::<Rpc, Error>(Error::CannotStartServer),
        child matches Some(server) ==> {
            &&& !server.output ==> rpc == Err::<Rpc, Error>(Error::MissingServerOutput)
            &&& server.output && !server.input ==> rpc == Err::<Rpc, Error>(
                Error::MissingServerInput,
            )
            &&& server.output && server.input ==> {
                &&& rpc is Ok
                &&& rpc->Ok_0@.process_group == server.pid
                &&& rpc->Ok_0@.pending.len() == 0
                &&& rpc->Ok_0@.sequence == 0
            }
        },
{
}

/// A server is ended as any child is, and its group is forgotten when that one's is; nothing
/// else of the conversation changes.
pub proof fn law_servers_are_ended(
    rpc: &mut Rpc,
    child: bool,
    stage: StopStage,
    event: StopEvent,
    next: (StopStage, StopAction),
    stopped: Stopped,
)
    requires
        call_ensures(Rpc::shutdown, (rpc, child, stage, event), next),
        call_ensures(stop, (old(rpc)@.process_group, child, stage, event), stopped),
    ensures
        next == (stopped.stage, stopped.action),
        final(rpc)@.process_group == stopped.group,
        final(rpc)@.pending == old(rpc)@.pending,
        final(rpc)@.sequence == old(rpc)@.sequence,
{
}

/// What is sent is the written value and a line feed, where the value has at most 134217728
/// bytes.
pub proof fn law_lines_are_sent(value: &Json, line: Result<Vec<u8>, Error>)
    requires
        call_ensures(Rpc::send, (value,), line),
    ensures
        json_written(value@) is None ==> line == Err::<Vec<u8>, Error>(Error::CannotEncode),
        json_written(value@) matches Some(bytes) ==> {
            &&& bytes.len() > 134217728 ==> line == Err::<Vec<u8>, Error>(Error::MessageTooLarge)
            &&& bytes.len() <= 134217728 ==> line is Ok && line->Ok_0@ == bytes.push(10u8)
        },
{
}

/// A chunk in which a line ends completes it: what was held and what stands in front of the
/// line feed, with it, is read as one value, and nothing behind it is taken. A line has at most
/// 134217728 bytes.
pub proof fn law_lines_are_completed(
    reader: &mut FrameReader,
    chunk: &[u8],
    n: int,
    received: Result<Received, Error>,
)
    requires
        call_ensures(FrameReader::read_frame, (reader, chunk), received),
        0 <= n < chunk@.len(),
        chunk@[n] == 10u8,
        forall|i: int| 0 <= i < n ==> chunk@[i] != 10u8,
    ensures
        ({
            let line = old(reader)@ + chunk@.take(n + 1);
            &&& line.len() > 134217728 ==> received == Err::<Received, Error>(Error::FrameTooLarge)
                && final(reader)@ == old(reader)@
            &&& line.len() <= 134217728 ==> final(reader)@ == Seq::<u8>::empty()
            &&& line.len() <= 134217728 && json_read(line) is None ==> received == Err::<
                Received,
                Error,
            >(Error::InvalidJson)
            &&& line.len() <= 134217728 && json_read(line) is Some ==> {
                &&& received is Ok
                &&& received->Ok_0.consumed == n + 1
                &&& received->Ok_0.frame is Some
                &&& received->Ok_0.frame->0@ == json_read(line)->0
            }
        }),
{
    lemma_line_ends_at(chunk@, n);
}

/// A chunk in which no line ends is held, all of it; one without a byte means that the server
/// is gone.
pub proof fn law_lines_go_on(
    reader: &mut FrameReader,
    chunk: &[u8],
    received: Result<Received, Error>,
)
    requires
        call_ensures(FrameReader::read_frame, (reader, chunk), received),
        forall|i: int| 0 <= i < chunk@.len() ==> chunk@[i] != 10u8,
    ensures
        chunk@.len() == 0 ==> received == Err::<Received, Error>(Error::Disconnected) && final(reader)@ == old(reader)@,
        chunk@.len() > 0 && old(reader)@.len() + chunk@.len() > 134217728 ==> received == Err::<
            Received,
            Error,
        >(Error::FrameTooLarge) && final(reader)@ == old(reader)@,
        chunk@.len() > 0 && old(reader)@.len() + chunk@.len() <= 134217728 ==> {
            &&& received is Ok
            &&& received->Ok_0.consumed == chunk@.len()
            &&& received->Ok_0.frame is None
            &&& final(reader)@ == old(reader)@ + chunk@
        },
{
    lemma_line_length(chunk@);
    if chunk@.len() > 0 {
        let length = line_length(chunk@);
        if length < chunk@.len() {
            assert(chunk@[length - 1] == 10u8);
        }
        assert(chunk@.take(length as int) =~= chunk@);
        assert(chunk@.last() != 10u8);
    }
}

proof fn lemma_line_ends_at(bytes: Seq<u8>, n: int)
    requires
        0 <= n < bytes.len(),
        bytes[n] == 10u8,
        forall|i: int| 0 <= i < n ==> bytes[i] != 10u8,
    ensures
        line_length(bytes) == n + 1,
        bytes.take(n + 1).last() == 10u8,
{
    lemma_line_length(bytes);
    let length = line_length(bytes);
    if length < n + 1 {
        assert(bytes[length - 1] == 10u8);
    }
    if length > n + 1 {
        assert(bytes[n] != 10u8);
    }
}

/// The host is waited for eight seconds where tokens are asked of it, and thirty where a
/// logout is.
pub proof fn law_hosts_are_waited_for(request: &AuthRequest, seconds: u64)
    requires
        call_ensures(host_request, (request,), seconds),
    ensures
        *request is Logout ==> seconds == 30,
        !(*request is Logout) ==> seconds == 8,
{
}

/// A request is answered by an object of its identifier and a result, or of its identifier and
/// an error with a code and a message; of a failure of the host nothing more is said than that.
pub proof fn law_answers_are_framed(
    id: Json,
    message: &str,
    result: Json,
    reply: Option<Json>,
    failure: Json,
    success: Json,
    answer: Json,
)
    requires
        call_ensures(rpc_error, (id, message), failure),
        call_ensures(rpc_result, (id, result), success),
        call_ensures(auth_response, (id, reply), answer),
    ensures
        failure@ == says_failure(id@, message@),
        success@ == says_success(id@, result@),
        reply matches Some(given) ==> answer@ == says_success(id@, given@),
        reply is None ==> answer@ == says_failure(id@, "host authentication request failed"@),
{
    lemma_says_failure(id@, message@);
    lemma_says_failure(id@, "host authentication request failed"@);
    lemma_says_success(id@, result@);
    if reply is Some {
        lemma_says_success(id@, reply->0@);
    }
}

/// An answer with an error.
pub open spec fn says_failure(id: JsonView, message: Seq<char>) -> JsonView {
    JsonView::Object(
        map![
            "id"@ => id,
            "error"@ => JsonView::Object(map![
                "code"@ => JsonView::Negative(-32000 as i64),
                "message"@ => JsonView::Text(message),
            ]),
        ],
    )
}

/// An answer with a result.
pub open spec fn says_success(id: JsonView, result: JsonView) -> JsonView {
    JsonView::Object(map!["id"@ => id, "result"@ => result])
}

proof fn lemma_says_failure(id: JsonView, message: Seq<char>)
    ensures
        crate::bridge::error_frame(id, message) == says_failure(id, message),
{
    let frame = crate::bridge::error_frame(id, message);
    let said = says_failure(id, message);
    assert(frame->Object_0["error"@]->Object_0 =~= said->Object_0["error"@]->Object_0);
    assert(frame->Object_0 =~= said->Object_0);
}

proof fn lemma_says_success(id: JsonView, result: JsonView)
    ensures
        crate::bridge::result_frame(id, result) == says_success(id, result),
{
    assert(crate::bridge::result_frame(id, result)->Object_0 =~= says_success(
        id,
        result,
    )->Object_0);
}

/// The identifier of a request is the member of that name, where it is a text or an integer.
pub proof fn law_requests_have_identifiers(frame: &Json, id: Result<Json, Error>)
    requires
        call_ensures(request_id, (frame,), id),
    ensures
        frame@ matches JsonView::Object(members) ==> (members.contains_key("id"@) ==> {
            let given = members["id"@];
            let proper = given is Text || given is Unsigned || given is Negative;
            &&& proper ==> id is Ok && id->Ok_0@ == given
            &&& !proper ==> id == Err::<Json, Error>(Error::InvalidId)
        }),
        frame@ matches JsonView::Object(members) ==> (!members.contains_key("id"@) ==> id == Err::<
            Json,
            Error,
        >(Error::MissingId)),
        !(frame@ is Object) ==> id == Err::<Json, Error>(Error::MissingId),
{
}

/// A server is initialized for a terminal with what the terminal sent and one capability more;
/// every other capability and every other parameter stays.
pub proof fn law_introductions_are_extended(params: &Json, prepared: Option<Json>)
    requires
        call_ensures(prepare_params, (params,), prepared),
    ensures
        prepared is Some <==> (params@ matches JsonView::Object(members) && (members.contains_key(
            "capabilities"@,
        ) ==> members["capabilities"@] is Null || members["capabilities"@] is Object)),
        prepared is Some ==> {
            let before = params@->Object_0;
            let capable = before.contains_key("capabilities"@) && before["capabilities"@] is Object;
            let earlier = if capable {
                before["capabilities"@]->Object_0
            } else {
                Map::empty()
            };
            prepared->0@ == JsonView::Object(
                before.insert(
                    "capabilities"@,
                    JsonView::Object(earlier.insert("experimentalApi"@, JsonView::Bool(true))),
                ),
            )
        },
{
}

/// A thread can be named to a shell where its identifier has one to 128 letters, digits,
/// hyphens and underscores.
pub proof fn law_names_of_threads(id: &str, safe: bool)
    requires
        call_ensures(safe_thread_id, (id,), safe),
    ensures
        safe <==> {
            &&& 1 <= id@.len() <= 128
            &&& forall|i: int|
                0 <= i < id@.len() ==> 'a' <= #[trigger] id@[i] <= 'z' || 'A' <= id@[i] <= 'Z'
                    || '0' <= id@[i] <= '9' || id@[i] == '-' || id@[i] == '_'
        },
{
}

/// An answer selects the thread that it tells of where it is no error, the thread is said to be
/// kept, and its identifier can be named to a shell.
pub proof fn law_selected_threads(answer: &Json, selected: Option<String>, id: &str, safe: bool)
    requires
        call_ensures(select_thread, (answer,), selected),
        call_ensures(safe_thread_id, (id,), safe),
    ensures
        answer@ matches JsonView::Object(members) ==> (members.contains_key("result"@) ==> (
        members["result"@] matches JsonView::Object(result) ==> (result.contains_key("thread"@)
            ==> (result["thread"@] matches JsonView::Object(thread) ==> {
            let told = !members.contains_key("error"@) && thread.contains_key("ephemeral"@)
                && thread["ephemeral"@] == JsonView::Bool(false) && thread.contains_key("id"@)
                && thread["id"@] == JsonView::Text(id@);
            &&& told && safe ==> selected is Some && selected->0@ == id@
            &&& told && !safe ==> selected is None
            &&& !(thread.contains_key("ephemeral"@) && thread["ephemeral"@] == JsonView::Bool(
                false,
            )) ==> selected is None
            &&& !(thread.contains_key("id"@) && thread["id"@] is Text) ==> selected is None
        })))),
        answer@ matches JsonView::Object(members) ==> (members.contains_key("error"@) ==> selected
            is None),
{
}

/// A setting is one that decides whom Codex talks to, or with whose credentials, where the
/// part of its key in front of the first dot is one of eight names.
pub proof fn law_keys_of_settings(key: &str, n: int, sensitive: bool)
    requires
        call_ensures(sensitive_key, (key,), sensitive),
        0 <= n <= key@.len(),
        forall|i: int| 0 <= i < n ==> key@[i] != '.',
        n < key@.len() ==> key@[n] == '.',
    ensures
        sensitive <==> {
            let name = key@.take(n);
            ||| name == "profile"@
            ||| name == "profiles"@
            ||| name == "model_provider"@
            ||| name == "model_providers"@
            ||| name == "chatgpt_base_url"@
            ||| name == "cli_auth_credentials_store"@
            ||| name == "forced_login_method"@
            ||| name == "forced_chatgpt_workspace_id"@
        },
{
    law_first_part_ends_at_the_first_mark(key@, '.', n);
}

/// Three methods begin a thread or go on with one, and eight deal with credentials.
pub proof fn law_methods(method: &str, thread: bool, managed: bool)
    requires
        call_ensures(thread_method, (method,), thread),
        call_ensures(managed_method, (method,), managed),
    ensures
        thread <==> {
            ||| method@ == "thread/start"@
            ||| method@ == "thread/resume"@
            ||| method@ == "thread/fork"@
        },
        managed <==> {
            ||| method@ == "account/login/start"@
            ||| method@ == "account/login/cancel"@
            ||| method@ == "account/bedrock/setup"@
            ||| method@ == "account/bedrock/discover"@
            ||| method@ == "loginAccount"@
            ||| method@ == "getAuthStatus"@
            ||| method@ == "account/chatgptAuthTokens/refresh"@
            ||| method@ == "initialize"@
        },
{
}

/// What a terminal sends is a text that stands for an object; the end of the connection and
/// signs of life are told apart from it, and anything else is refused.
pub proof fn law_messages_of_a_terminal(message: UiMessage, received: UiReceived)
    requires
        call_ensures(read_ui, (message,), received),
    ensures
        received is Closed <==> message is Close,
        received is Again <==> message is Beat,
        message is Other ==> received == UiReceived::Failed(Error::UiReadFailed),
        message matches UiMessage::Text(text) ==> {
            let read = json_read(vstd::utf8::encode_utf8(text@));
            &&& read is None ==> received == UiReceived::Failed(Error::InvalidUiJson)
            &&& read is Some && !(read->0 is Object) ==> received == UiReceived::Failed(
                Error::InvalidUiMessage,
            )
            &&& read is Some && read->0 is Object ==> received is Frame && received->Frame_0@
                == read->0
        },
{
}

/// What a terminal is sent is the text of the written value, where that has at most 134217728
/// bytes.
pub proof fn law_messages_to_a_terminal(value: &Json, text: Result<String, Error>)
    requires
        call_ensures(write_ui, (value,), text),
    ensures
        json_written(value@) is Some,
        json_written(value@)->0.len() > 134217728 ==> text == Err::<String, Error>(
            Error::UiTooLarge,
        ),
        json_written(value@)->0.len() <= 134217728 ==> text is Ok && vstd::utf8::encode_utf8(
            text->Ok_0@,
        ) == json_written(value@)->0,
{
}

/// The members of an object are found by their keys; nothing else has members, and what is not
/// there is null.
pub proof fn law_members_are_found(
    value: &Json,
    key: &str,
    member: Option<&Json>,
    filled: &Json,
    present: bool,
)
    requires
        call_ensures(Json::get, (value, key), member),
        call_ensures(Json::at, (value, key), filled),
        call_ensures(Json::has, (value, key), present),
    ensures
        present <==> (value@ matches JsonView::Object(members) && members.contains_key(key@)),
        present ==> member is Some && member->0@ == value@->Object_0[key@] && filled@
            == value@->Object_0[key@],
        !present ==> member is None && filled@ == JsonView::Null,
{
}

/// A member is set over an earlier one of its key, and the others stay.
pub proof fn law_members_are_set(value: Json, key: &str, member: Json, changed: Json)
    requires
        call_ensures(Json::with, (value, key, member), changed),
        value@ is Object,
    ensures
        changed@ == JsonView::Object(value@->Object_0.insert(key@, member@)),
{
}

/// What a value is taken as: texts, truth values, numbers that are not negative and fit, and
/// null are each told from all others; a text that is empty is not a filled one.
pub proof fn law_values_are_told_apart(
    value: &Json,
    text: Option<&str>,
    filled: Option<&str>,
    truth: Option<bool>,
    number: Option<u64>,
    null: bool,
    object: bool,
    id: bool,
)
    requires
        call_ensures(Json::as_text, (value,), text),
        call_ensures(Json::as_filled_text, (value,), filled),
        call_ensures(Json::as_bool, (value,), truth),
        call_ensures(Json::as_unsigned, (value,), number),
        call_ensures(Json::is_null, (value,), null),
        call_ensures(Json::is_object, (value,), object),
        call_ensures(Json::is_id, (value,), id),
    ensures
        text is Some <==> value@ is Text,
        text is Some ==> value@ == JsonView::Text(text->0@),
        filled is Some <==> value@ is Text && value@->Text_0.len() > 0,
        filled is Some ==> value@ == JsonView::Text(filled->0@),
        truth is Some <==> value@ is Bool,
        truth is Some ==> value@ == JsonView::Bool(truth->0),
        number is Some <==> value@ is Unsigned,
        number is Some ==> value@ == JsonView::Unsigned(number->0),
        null <==> value@ is Null,
        object <==> value@ is Object,
        id <==> value@ is Text || value@ is Unsigned || value@ is Negative,
{
}

/// Two identifiers are the same where they say the same, and a value is a text where it holds
/// just that.
pub proof fn law_values_are_compared(
    value: &Json,
    other: &Json,
    text: &str,
    same: bool,
    yes: bool,
    signed: bool,
)
    requires
        value@ is Text || value@ is Unsigned || value@ is Negative,
        call_ensures(Json::same_id, (value, other), same),
        call_ensures(Json::is_text, (value, text), yes),
        call_ensures(Json::is_signed, (value,), signed),
    ensures
        same <==> value@ == other@,
        yes <==> value@ == JsonView::Text(text@),
        signed <==> value@ is Negative || (value@ matches JsonView::Unsigned(n) && n
            <= 9223372036854775807),
{
}

/// A conversation begins with its server's group, without a frame that waits and without an
/// identifier; and each identifier that is given out is this program's name and the next
/// number.
pub proof fn law_identifiers_are_given_out(
    rpc: &mut Rpc,
    id: Json,
    group: Option<u32>,
    begun: Rpc,
)
    requires
        call_ensures(Rpc::next_id, (rpc,), id),
        call_ensures(Rpc::connect, (group,), begun),
        old(rpc)@.sequence < u64::MAX,
    ensures
        id@ == JsonView::Text("coduck-"@ + decimal_text((old(rpc)@.sequence + 1) as nat)),
        final(rpc)@.sequence == old(rpc)@.sequence + 1,
        final(rpc)@.pending == old(rpc)@.pending,
        final(rpc)@.process_group == old(rpc)@.process_group,
        begun@.process_group == group,
        begun@.pending.len() == 0,
        begun@.sequence == 0,
{
}

/// A conversation tells the group that it may signal and how many identifiers it gave out.
pub proof fn law_what_conversations_tell(rpc: &Rpc, pid: Option<u32>, sequence: u64)
    requires
        call_ensures(Rpc::pid, (rpc,), pid),
        call_ensures(Rpc::sequence, (rpc,), sequence),
    ensures
        pid == rpc@.process_group,
        sequence == rpc@.sequence,
{
}

/// A member that an object lists again has the value that is listed last, and the others stay.
pub proof fn law_last_members_count(members: Seq<(String, Json)>, key: String, value: Json)
    ensures
        members_view(members.push((key, value))) == members_view(members).insert(key@, value@),
        members_view(Seq::<(String, Json)>::empty()) == Map::<Seq<char>, JsonView>::empty(),
        json_view(Json::Text(key)) == JsonView::Text(key@),
{
    assert(members.push((key, value)).drop_last() =~= members);
}

} // verus!
