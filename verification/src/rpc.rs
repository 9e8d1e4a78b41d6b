//! The conversation with an app-server: one JSON value per line, requests that are told
//! from other traffic by their identifiers, and frames that wait for their turn.

use crate::error::Error;
use crate::json::{read_json, write_json, Json};
use crate::process::{stop, StopAction, StopEvent, StopStage};
use crate::text::decimal;
use std::collections::VecDeque;
use vstd::prelude::*;
use vstd::string::*;

use crate::json::{json_read, json_written, JsonView, MAX_DEPTH};
use crate::process::stop_next;
use crate::text::{decimal_text, lemma_decimal_injective};

verus! {

/// The most bytes that a frame may have, as in the official terminal's remote transport.
pub const MAX_FRAME: usize = 128 * 1024 * 1024;

/// The most frames and requests that may wait.
pub const MAX_PENDING: usize = 128;

/// For how many seconds an answer is awaited.
pub const RPC_TIMEOUT: u64 = 30;

/// For how many seconds a server is given time to end, and then its child to be reaped.
pub const SHUTDOWN_TIMEOUT: u64 = 5;

/// What is asked of a server.
pub struct Call {
    pub method: &'static str,
    pub params: Json,
}

/// What a call says.
pub struct CallView {
    pub method: Seq<char>,
    pub params: JsonView,
}

impl View for Call {
    type V = CallView;

    open spec fn view(&self) -> CallView {
        CallView { method: self.method@, params: self.params@ }
    }
}

/// The state of one conversation with an app-server.
pub struct Rpc {
    process_group: Option<u32>,
    pending: VecDeque<Json>,
    sequence: u64,
}

/// What the state of a conversation says.
#[verifier::ext_equal]
pub struct RpcView {
    /// The process group of the server, while it may be signalled.
    pub process_group: Option<u32>,
    /// The frames that arrived out of turn, oldest first.
    pub pending: Seq<JsonView>,
    /// How many identifiers were given out.
    pub sequence: u64,
}

/// What the frames of a list say.
pub open spec fn frames_view(frames: Seq<Json>) -> Seq<JsonView> {
    frames.map_values(|frame: Json| frame@)
}

impl View for Rpc {
    type V = RpcView;

    closed spec fn view(&self) -> RpcView {
        RpcView {
            process_group: self.process_group,
            pending: frames_view(self.pending@),
            sequence: self.sequence,
        }
    }
}

/// The identifier of the `n`-th request.
pub open spec fn request_name(n: nat) -> JsonView {
    JsonView::Text("coduck-"@ + decimal_text(n))
}

/// A request.
pub open spec fn request_frame(id: JsonView, method: Seq<char>, params: JsonView) -> JsonView {
    JsonView::object().with("id"@, id).with("method"@, JsonView::Text(method)).with(
        "params"@,
        params,
    )
}

/// Whether a frame answers the request of the given identifier.
pub open spec fn answers(frame: JsonView, id: JsonView) -> bool {
    !frame.has("method"@) && frame.get("id"@) == Some(id)
}

/// What a frame that answers a request comes to.
pub open spec fn answer_of(frame: JsonView) -> Result<JsonView, Error> {
    if frame.has("error"@) {
        Err(Error::RequestFailed)
    } else {
        match frame.get("result"@) {
            Some(result) => Ok(result),
            None => Err(Error::InvalidResponse),
        }
    }
}

impl RpcView {
    /// The state after one more identifier was given out.
    pub open spec fn advanced(self) -> RpcView {
        RpcView { sequence: (self.sequence + 1) as u64, ..self }
    }

    /// The identifier that is given out next.
    pub open spec fn next_name(self) -> JsonView {
        request_name((self.sequence + 1) as nat)
    }

    /// Whether one more frame may wait.
    pub open spec fn has_room(self) -> bool {
        self.pending.len() < MAX_PENDING
    }

    /// The state with one more frame waiting, behind the others.
    pub open spec fn deferring(self, frame: JsonView) -> RpcView {
        RpcView { pending: self.pending.push(frame), ..self }
    }

    /// Whether no more frames wait than may.
    pub open spec fn bounded(self) -> bool {
        self.pending.len() <= MAX_PENDING
    }

    /// What a frame does to a conversation that awaits the answer to one request: the
    /// answer is taken, and every other frame waits.
    pub open spec fn awaiting(self, id: JsonView, frame: JsonView) -> (RpcView, Result<
        Option<JsonView>,
        Error,
    >) {
        if answers(frame, id) {
            match answer_of(frame) {
                Ok(result) => (self, Ok(Some(result))),
                Err(error) => (self, Err(error)),
            }
        } else if self.has_room() {
            (self.deferring(frame), Ok(None))
        } else {
            (self, Err(Error::TooManyBuffered))
        }
    }
}

/// What an optional value says.
pub open spec fn option_view(value: Option<Json>) -> Option<JsonView> {
    match value {
        Some(json) => Some(json@),
        None => None,
    }
}

/// What the outcome of a request says.
pub open spec fn outcome_view(outcome: Result<Option<Json>, Error>) -> Result<
    Option<JsonView>,
    Error,
> {
    match outcome {
        Ok(value) => Ok(option_view(value)),
        Err(error) => Err(error),
    }
}

/// What the system gave for a server that was to be started.
pub struct ServerChild {
    /// The child's process number, while it has one.
    pub pid: Option<u32>,
    /// Whether its output can be read.
    pub output: bool,
    /// Whether its input can be written.
    pub input: bool,
}

impl Rpc {
    /// A conversation with a server that was started as a child; none was where `child` is
    /// none.
    pub fn spawn(child: Option<ServerChild>) -> (rpc: Result<Rpc, Error>)
        ensures
            match child {
                None => rpc == Err::<Rpc, Error>(Error::CannotStartServer),
                Some(server) => if !server.output {
                    rpc == Err::<Rpc, Error>(Error::MissingServerOutput)
                } else if !server.input {
                    rpc == Err::<Rpc, Error>(Error::MissingServerInput)
                } else {
                    rpc is Ok && rpc->Ok_0@ == (RpcView {
                        process_group: server.pid,
                        pending: Seq::empty(),
                        sequence: 0,
                    })
                },
            },
    {
        match child {
            None => Err(Error::CannotStartServer),
            Some(server) => if !server.output {
                Err(Error::MissingServerOutput)
            } else if !server.input {
                Err(Error::MissingServerInput)
            } else {
                Ok(Rpc::connect(server.pid))
            },
        }
    }

    /// A conversation with a server that runs in the given process group, if it is a child.
    pub fn connect(process_group: Option<u32>) -> (rpc: Rpc)
        ensures
            rpc@ == (RpcView { process_group, pending: Seq::empty(), sequence: 0 }),
            rpc@.bounded(),
    {
        let rpc = Rpc { process_group, pending: VecDeque::new(), sequence: 0 };
        assert(rpc@.pending =~= Seq::empty());
        rpc
    }

    /// The process group of the server, while it may be signalled.
    pub fn pid(&self) -> (pid: Option<u32>)
        ensures
            pid == self@.process_group,
    {
        self.process_group
    }

    /// How many identifiers were given out.
    pub fn sequence(&self) -> (sequence: u64)
        ensures
            sequence == self@.sequence,
    {
        self.sequence
    }

    /// Gives out an identifier that was not given out before.
    pub fn next_id(&mut self) -> (id: Json)
        requires
            old(self)@.sequence < u64::MAX,
        ensures
            id@ == old(self)@.next_name(),
            final(self)@ == old(self)@.advanced(),
    {
        self.sequence = self.sequence + 1;
        let mut name = "coduck-".to_owned();
        name.append(decimal(self.sequence).as_str());
        assert(final(self)@ =~= old(self)@.advanced());
        Json::Text(name)
    }

    /// The line that carries a frame to the server.
    ///
    /// It holds one line feed, at its end, and a reader of lines gets the frame back from it.
    pub fn send(value: &Json) -> (line: Result<Vec<u8>, Error>)
        ensures
            match json_written(value@) {
                None => line == Err::<Vec<u8>, Error>(Error::CannotEncode),
                Some(bytes) => if bytes.len() > MAX_FRAME {
                    line == Err::<Vec<u8>, Error>(Error::MessageTooLarge)
                } else {
                    line is Ok && line->Ok_0@ == bytes.push(10u8)
                },
            },
            line matches Ok(bytes) ==> is_line(bytes@),
            line matches Ok(bytes) ==> value@.plain(MAX_DEPTH as nat) ==> json_read(bytes@) == Some(
                value@,
            ),
    {
        match write_json(value) {
            None => Err(Error::CannotEncode),
            Some(mut bytes) => {
                if bytes.len() > MAX_FRAME {
                    return Err(Error::MessageTooLarge);
                }
                let ghost written = bytes@;
                bytes.push(10u8);
                assert forall|i: int| 0 <= i < bytes@.len() - 1 implies bytes@[i] != 10u8 by {
                    assert(bytes@[i] == written[i]);
                    if written[i] == 10u8 {
                        assert(written.contains(10u8));
                    }
                }
                Ok(bytes)
            },
        }
    }

    /// The oldest frame that waits, if any; otherwise the next frame has yet to arrive.
    pub fn recv(&mut self) -> (frame: Option<Json>)
        ensures
            match frame {
                Some(json) => {
                    &&& old(self)@.pending.len() > 0
                    &&& json@ == old(self)@.pending[0]
                    &&& final(self)@ == (RpcView { pending: old(self)@.pending.skip(1), ..old(self)@ })
                },
                None => old(self)@.pending.len() == 0 && final(self)@ == old(self)@,
            },
    {
        let frame = self.pending.pop_front();
        proof {
            if frame is Some {
                assert(final(self)@.pending =~= old(self)@.pending.skip(1));
            }
        }
        frame
    }

    /// Lets a frame wait for its turn.
    pub fn defer(&mut self, frame: Json) -> (result: Result<(), Error>)
        ensures
            if old(self)@.has_room() {
                result == Ok::<(), Error>(()) && final(self)@ == old(self)@.deferring(frame@)
            } else {
                result == Err::<(), Error>(Error::TooManyBuffered) && final(self)@ == old(self)@
            },
    {
        if self.pending.len() >= MAX_PENDING {
            return Err(Error::TooManyBuffered);
        }
        self.pending.push_back(frame);
        assert(final(self)@.pending =~= old(self)@.pending.push(frame@));
        Ok(())
    }

    /// Begins a request: its identifier, and the frame to send.
    pub fn request(&mut self, method: &str, params: Json) -> (begun: (Json, Json))
        requires
            old(self)@.sequence < u64::MAX,
        ensures
            begun.0@ == old(self)@.next_name(),
            begun.1@ == request_frame(begun.0@, method@, params@),
            final(self)@ == old(self)@.advanced(),
    {
        let id = self.next_id();
        let frame = Json::object().with("id", id.clone()).with("method", Json::text(method)).with(
            "params",
            params,
        );
        (id, frame)
    }

    /// Begins the request that starts a conversation.
    pub fn initialize(&mut self, params: Json) -> (begun: (Json, Json))
        requires
            old(self)@.sequence < u64::MAX,
        ensures
            begun.0@ == old(self)@.next_name(),
            begun.1@ == request_frame(begun.0@, "initialize"@, params@),
            final(self)@ == old(self)@.advanced(),
    {
        self.request("initialize", params)
    }

    /// Takes a frame while the answer to a request is awaited: gives the result when the
    /// frame is the answer, and lets it wait when it is not.
    pub fn await_answer(&mut self, id: &Json, frame: Json) -> (outcome: Result<Option<Json>, Error>)
        requires
            id@.is_id(),
        ensures
            (final(self)@, outcome_view(outcome)) == old(self)@.awaiting(id@, frame@),
    {
        if is_answer(&frame, id) {
            return if frame.has("error") {
                Err(Error::RequestFailed)
            } else {
                match frame.get("result") {
                    Some(result) => Ok(Some(result.clone())),
                    None => Err(Error::InvalidResponse),
                }
            };
        }
        match self.defer(frame) {
            Ok(()) => Ok(None),
            Err(error) => Err(error),
        }
    }

    /// The notification that follows a successful initialization.
    pub fn initialized() -> (frame: Json)
        ensures
            frame@ == initialized_frame(),
    {
        Json::object().with("method", Json::text("initialized"))
    }

    /// One step in shutting the server down; `child` says whether there is a child to reap.
    /// The process group is forgotten before the child is reaped.
    pub fn shutdown(&mut self, child: bool, stage: StopStage, event: StopEvent) -> (next: (
        StopStage,
        StopAction,
    ))
        ensures
            ({
                let stopped = stop_next(old(self)@.process_group, child, stage, event);
                &&& next == (stopped.stage, stopped.action)
                &&& final(self)@ == (RpcView { process_group: stopped.group, ..old(self)@ })
            }),
    {
        let stopped = stop(self.process_group, child, stage, event);
        self.process_group = stopped.group;
        assert(final(self)@.pending =~= old(self)@.pending);
        (stopped.stage, stopped.action)
    }
}

/// The notification that follows a successful initialization.
pub open spec fn initialized_frame() -> JsonView {
    JsonView::object().with("method"@, JsonView::Text("initialized"@))
}

/// Whether a frame answers the request of the given identifier.
pub fn is_answer(frame: &Json, id: &Json) -> (yes: bool)
    requires
        id@.is_id(),
    ensures
        yes == answers(frame@, id@),
{
    if frame.has("method") {
        return false;
    }
    match frame.get("id") {
        Some(other) => id.same_id(other),
        None => false,
    }
}

/// Whether bytes are one line: a line feed ends them and stands nowhere else.
pub open spec fn is_line(bytes: Seq<u8>) -> bool {
    &&& bytes.len() > 0
    &&& bytes.last() == 10u8
    &&& forall|i: int| 0 <= i < bytes.len() - 1 ==> bytes[i] != 10u8
}

/// How many bytes there are up to and with the first line feed; all where there is none.
pub open spec fn line_length(bytes: Seq<u8>) -> nat
    decreases bytes.len(),
{
    if bytes.len() == 0 {
        0
    } else if bytes[0] == 10u8 {
        1
    } else {
        1 + line_length(bytes.skip(1))
    }
}

/// What the bytes of a frame that have arrived so far come to when more arrive.
pub enum Arrival {
    /// The line goes on.
    More(Seq<u8>),
    /// The line is complete.
    Line(Seq<u8>),
    Failed(Error),
}

/// What a chunk of bytes adds to the part of a line that has arrived.
pub open spec fn arrival(held: Seq<u8>, chunk: Seq<u8>) -> Arrival {
    let taken = chunk.take(line_length(chunk) as int);
    if chunk.len() == 0 {
        Arrival::Failed(Error::Disconnected)
    } else if held.len() + taken.len() > MAX_FRAME {
        Arrival::Failed(Error::FrameTooLarge)
    } else if taken.last() == 10u8 {
        Arrival::Line(held + taken)
    } else {
        Arrival::More(held + taken)
    }
}

/// Gathers the lines that a server sends.
pub struct FrameReader {
    bytes: Vec<u8>,
}

impl View for FrameReader {
    type V = Seq<u8>;

    closed spec fn view(&self) -> Seq<u8> {
        self.bytes@
    }
}

/// What came of a chunk.
pub struct Received {
    /// How many bytes of the chunk belong to this line.
    pub consumed: usize,
    /// The frame, where the line is complete.
    pub frame: Option<Json>,
}

impl FrameReader {
    /// A reader at the beginning of a line.
    pub fn new() -> (reader: FrameReader)
        ensures
            reader@ == Seq::<u8>::empty(),
    {
        FrameReader { bytes: Vec::new() }
    }

    /// Takes the bytes of a chunk up to the end of the line, and reads the frame when the
    /// line is complete. An empty chunk means that the server is gone.
    pub fn read_frame(&mut self, chunk: &[u8]) -> (received: Result<Received, Error>)
        ensures
            match arrival(old(self)@, chunk@) {
                Arrival::Failed(error) => received == Err::<Received, Error>(error) && final(self)@
                    == old(self)@,
                Arrival::More(held) => {
                    &&& received is Ok
                    &&& received->Ok_0.consumed == line_length(chunk@)
                    &&& received->Ok_0.frame is None
                    &&& final(self)@ == held
                },
                Arrival::Line(line) => {
                    &&& final(self)@ == Seq::<u8>::empty()
                    &&& match json_read(line) {
                        Some(frame) => {
                            &&& received is Ok
                            &&& received->Ok_0.consumed == line_length(chunk@)
                            &&& option_view(received->Ok_0.frame) == Some(frame)
                        },
                        None => received == Err::<Received, Error>(Error::InvalidJson),
                    }
                },
            },
    {
        if chunk.len() == 0 {
            return Err(Error::Disconnected);
        }
        let mut length: usize = 0;
        let mut ended = false;
        assert(chunk@.skip(0) =~= chunk@);
        while length < chunk.len() && !ended
            invariant
                length <= chunk.len(),
                !ended ==> line_length(chunk@) == length + line_length(chunk@.skip(length as int)),
                !ended ==> forall|i: int| 0 <= i < length ==> chunk@[i] != 10u8,
                ended ==> line_length(chunk@) == length && length > 0 && chunk@[length - 1] == 10u8,
            decreases chunk.len() - length,
        {
            assert(chunk@.skip(length as int).skip(1) =~= chunk@.skip(length + 1));
            if chunk[length] == 10u8 {
                ended = true;
            }
            length += 1;
        }
        let ghost taken = chunk@.take(length as int);
        if self.bytes.len() > MAX_FRAME || length > MAX_FRAME - self.bytes.len() {
            return Err(Error::FrameTooLarge);
        }
        let mut i: usize = 0;
        while i < length
            invariant
                i <= length <= chunk.len(),
                self@ == old(self)@ + chunk@.take(i as int),
            decreases length - i,
        {
            self.bytes.push(chunk[i]);
            assert(self@ =~= old(self)@ + chunk@.take(i + 1));
            i += 1;
        }
        if !ended {
            return Ok(Received { consumed: length, frame: None });
        }
        let mut line: Vec<u8> = Vec::new();
        std::mem::swap(&mut line, &mut self.bytes);
        match read_json(line.as_slice()) {
            Some(frame) => Ok(Received { consumed: length, frame: Some(frame) }),
            None => Err(Error::InvalidJson),
        }
    }
}

/// What a reader that holds the beginning of a line gets from chunks that arrive one after
/// the other: nothing until a line is complete.
pub open spec fn gathered(held: Seq<u8>, chunks: Seq<Seq<u8>>) -> Option<Result<Seq<u8>, Error>>
    decreases chunks.len(),
{
    if chunks.len() == 0 {
        None
    } else {
        match arrival(held, chunks[0]) {
            Arrival::Failed(error) => Some(Err(error)),
            Arrival::Line(line) => Some(Ok(line)),
            Arrival::More(more) => gathered(more, chunks.skip(1)),
        }
    }
}

/// The bytes of chunks in one piece.
pub open spec fn joined(chunks: Seq<Seq<u8>>) -> Seq<u8>
    decreases chunks.len(),
{
    if chunks.len() == 0 {
        Seq::empty()
    } else {
        chunks[0] + joined(chunks.skip(1))
    }
}

/// The first line of a stream, as far as the limit allows one.
pub open spec fn first_line(stream: Seq<u8>) -> Option<Result<Seq<u8>, Error>> {
    let length = line_length(stream);
    if length > MAX_FRAME {
        Some(Err(Error::FrameTooLarge))
    } else if length > 0 && stream[length - 1] == 10u8 {
        Some(Ok(stream.take(length as int)))
    } else {
        None
    }
}

/// The length of a line reaches to the first line feed, or over all bytes.
pub proof fn lemma_line_length(bytes: Seq<u8>)
    ensures
        line_length(bytes) <= bytes.len(),
        bytes.len() > 0 ==> line_length(bytes) > 0,
        forall|i: int| 0 <= i < line_length(bytes) - 1 ==> bytes[i] != 10u8,
        line_length(bytes) < bytes.len() ==> bytes[line_length(bytes) - 1] == 10u8,
    decreases bytes.len(),
{
    if bytes.len() > 0 && bytes[0] != 10u8 {
        lemma_line_length(bytes.skip(1));
        assert forall|i: int| 0 <= i < line_length(bytes) - 1 implies bytes[i] != 10u8 by {
            if i > 0 {
                assert(bytes.skip(1)[i - 1] == bytes[i]);
            }
        }
        if line_length(bytes) < bytes.len() {
            assert(bytes.skip(1)[line_length(bytes.skip(1)) - 1] == bytes[line_length(bytes) - 1]);
        }
    }
}

proof fn lemma_line_length_concat(a: Seq<u8>, b: Seq<u8>)
    ensures
        (forall|i: int| 0 <= i < a.len() ==> a[i] != 10u8) ==> line_length(a + b) == a.len()
            + line_length(b),
        !(forall|i: int| 0 <= i < a.len() ==> a[i] != 10u8) ==> line_length(a + b) == line_length(
            a,
        ) && line_length(a) > 0 && a[line_length(a) - 1] == 10u8,
    decreases a.len(),
{
    lemma_line_length(a);
    if a.len() == 0 {
        assert(a + b =~= b);
    } else {
        assert((a + b)[0] == a[0]);
        if a[0] != 10u8 {
            let rest = a.skip(1);
            lemma_line_length_concat(rest, b);
            assert((a + b).skip(1) =~= rest + b);
            if forall|i: int| 0 <= i < rest.len() ==> rest[i] != 10u8 {
                assert forall|i: int| 0 <= i < a.len() implies a[i] != 10u8 by {
                    if i > 0 {
                        assert(rest[i - 1] == a[i]);
                    }
                }
            } else {
                let k = choose|k: int| 0 <= k < rest.len() && rest[k] == 10u8;
                assert(a[k + 1] == 10u8);
                assert(a[line_length(a) - 1] == rest[line_length(rest) - 1]);
            }
        }
    }
}

/// How the bytes of a stream are cut into chunks makes no difference to the first line that
/// is read from it, nor to whether it is refused as too long.
pub proof fn law_chunking_is_invisible(held: Seq<u8>, chunks: Seq<Seq<u8>>)
    requires
        held.len() <= MAX_FRAME,
        forall|i: int| 0 <= i < held.len() ==> held[i] != 10u8,
        forall|i: int| 0 <= i < chunks.len() ==> (#[trigger] chunks[i]).len() > 0,
    ensures
        gathered(held, chunks) == first_line(held + joined(chunks)),
    decreases chunks.len(),
{
    let stream = held + joined(chunks);
    lemma_line_length_concat(held, joined(chunks));
    lemma_line_length(held);
    if chunks.len() == 0 {
        assert(stream =~= held);
        if line_length(held) > 0 {
            assert(held[line_length(held) - 1] != 10u8);
        }
    } else {
        let chunk = chunks[0];
        let rest = joined(chunks.skip(1));
        let length = line_length(chunk);
        let taken = chunk.take(length as int);
        lemma_line_length(chunk);
        lemma_line_length_concat(chunk, rest);
        assert(stream =~= held + (chunk + rest));
        if forall|i: int| 0 <= i < chunk.len() ==> chunk[i] != 10u8 {
            if length < chunk.len() {
                assert(chunk[length - 1] == 10u8);
            }
            assert(taken =~= chunk);
            assert(taken.last() != 10u8);
            assert(line_length(stream) == held.len() + chunk.len() + line_length(rest));
            if held.len() + chunk.len() <= MAX_FRAME {
                let more = held + chunk;
                assert forall|i: int| 0 <= i < more.len() implies more[i] != 10u8 by {
                    if i >= held.len() {
                        assert(more[i] == chunk[i - held.len()]);
                    }
                }
                assert forall|i: int| 0 <= i < chunks.skip(1).len() implies (#[trigger] chunks.skip(
                    1,
                )[i]).len() > 0 by {
                    assert(chunks.skip(1)[i] == chunks[i + 1]);
                }
                law_chunking_is_invisible(more, chunks.skip(1));
                assert(more + rest =~= stream);
            }
        } else {
            assert(line_length(stream) == held.len() + length);
            assert(taken.last() == 10u8);
            assert(stream[held.len() + length - 1] == 10u8);
            assert(stream.take((held.len() + length) as int) =~= held + taken);
        }
    }
}

/// A line that fits is read as it was sent, whatever follows it and however it arrives.
pub proof fn law_sent_line_is_read_back(line: Seq<u8>, after: Seq<u8>, chunks: Seq<Seq<u8>>)
    requires
        is_line(line),
        line.len() <= MAX_FRAME,
        joined(chunks) == line + after,
        forall|i: int| 0 <= i < chunks.len() ==> (#[trigger] chunks[i]).len() > 0,
    ensures
        gathered(Seq::empty(), chunks) == Some(Ok::<Seq<u8>, Error>(line)),
{
    law_chunking_is_invisible(Seq::empty(), chunks);
    assert(Seq::<u8>::empty() + joined(chunks) =~= line + after);
    lemma_line_length_concat(line, after);
    lemma_line_length(line);
    assert(line[line.len() - 1] == 10u8);
    assert(line_length(line) == line.len());
    assert((line + after).take(line.len() as int) =~= line);
    assert((line + after)[line.len() - 1] == 10u8);
}

/// Two requests have the same identifier only when they are the same request.
pub proof fn law_request_names_differ(a: nat, b: nat)
    ensures
        request_name(a) == request_name(b) <==> a == b,
{
    if request_name(a) == request_name(b) {
        let prefix = "coduck-"@;
        let left = prefix + decimal_text(a);
        let right = prefix + decimal_text(b);
        assert(left == right);
        assert(left.skip(prefix.len() as int) =~= decimal_text(a));
        assert(right.skip(prefix.len() as int) =~= decimal_text(b));
        lemma_decimal_injective(a, b);
    }
}

/// Frames that arrive while an answer is awaited are kept, in the order of their arrival
/// and behind those that already wait, and never more of them than the limit.
pub proof fn law_other_frames_keep_their_order(rpc: RpcView, id: JsonView, frame: JsonView)
    requires
        rpc.bounded(),
    ensures
        rpc.awaiting(id, frame).0.bounded(),
        !answers(frame, id) && rpc.has_room() ==> rpc.awaiting(id, frame).0.pending
            == rpc.pending.push(frame),
        answers(frame, id) || !rpc.has_room() ==> rpc.awaiting(id, frame).0 == rpc,
        !answers(frame, id) && !rpc.has_room() ==> rpc.awaiting(id, frame).1 == Err::<
            Option<JsonView>,
            Error,
        >(Error::TooManyBuffered),
{
}

} // verus!
