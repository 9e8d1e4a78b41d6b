//! A run of Codex: the terminal that the user sees, the connections that it opens, and how
//! all of it ends.

use crate::bridge::{login_params, AuthRequest, Exit};
use crate::error::Error;
use crate::flow::{combine, settle};
use crate::json::Json;
use vstd::prelude::*;

use crate::bridge::AuthRequestView;
use crate::flow::{both, session_view, settled};
use crate::json::JsonView;

verus! {

/// How far a run has come.
pub enum RunStage {
    /// The credentials are being taken hold of.
    Opening,
    /// The account is being verified.
    Verifying,
    /// The credentials are being let go of; what came of the verification.
    Finishing(Result<(), Error>),
    /// The private socket is being made.
    Listening,
    /// The terminal is being started.
    Spawning,
    /// Codex runs.
    Serving,
    /// The terminal is being ended; the session that it was about.
    Closing(Result<Option<String>, Error>),
    /// It is over.
    Ended,
}

/// What a stage says.
pub enum RunStageView {
    Opening,
    Verifying,
    Finishing(Result<(), Error>),
    Listening,
    Spawning,
    Serving,
    Closing(Result<Option<Seq<char>>, Error>),
    Ended,
}

impl View for RunStage {
    type V = RunStageView;

    open spec fn view(&self) -> RunStageView {
        match self {
            RunStage::Opening => RunStageView::Opening,
            RunStage::Verifying => RunStageView::Verifying,
            RunStage::Finishing(result) => RunStageView::Finishing(*result),
            RunStage::Listening => RunStageView::Listening,
            RunStage::Spawning => RunStageView::Spawning,
            RunStage::Serving => RunStageView::Serving,
            RunStage::Closing(session) => RunStageView::Closing(session_view(*session)),
            RunStage::Ended => RunStageView::Ended,
        }
    }
}

/// How the last action went.
pub enum RunEvent {
    Done,
    Failed(Error),
    /// The helper was stopped and the record of children cleared; what came of each.
    Finished { stopped: Result<(), Error>, cleared: Result<(), Error> },
    /// Codex ran; the session that it was about.
    Served(Result<Option<String>, Error>),
}

/// What an event says.
pub enum RunEventView {
    Done,
    Failed(Error),
    Finished { stopped: Result<(), Error>, cleared: Result<(), Error> },
    Served(Result<Option<Seq<char>>, Error>),
}

impl View for RunEvent {
    type V = RunEventView;

    open spec fn view(&self) -> RunEventView {
        match self {
            RunEvent::Done => RunEventView::Done,
            RunEvent::Failed(error) => RunEventView::Failed(*error),
            RunEvent::Finished { stopped, cleared } => RunEventView::Finished {
                stopped: *stopped,
                cleared: *cleared,
            },
            RunEvent::Served(session) => RunEventView::Served(session_view(*session)),
        }
    }
}

/// What is to be done next.
pub enum RunAction {
    VerifyProfile,
    FinishAuth,
    Listen,
    SpawnTerminal,
    Serve,
    /// End a terminal that did well: it may end by itself.
    ShutdownTerminal,
    /// End a terminal that did not do well.
    TerminateTerminal,
    Finish(Result<Option<String>, Error>),
}

/// What an action says.
pub enum RunActionView {
    VerifyProfile,
    FinishAuth,
    Listen,
    SpawnTerminal,
    Serve,
    ShutdownTerminal,
    TerminateTerminal,
    Finish(Result<Option<Seq<char>>, Error>),
}

impl View for RunAction {
    type V = RunActionView;

    open spec fn view(&self) -> RunActionView {
        match self {
            RunAction::VerifyProfile => RunActionView::VerifyProfile,
            RunAction::FinishAuth => RunActionView::FinishAuth,
            RunAction::Listen => RunActionView::Listen,
            RunAction::SpawnTerminal => RunActionView::SpawnTerminal,
            RunAction::Serve => RunActionView::Serve,
            RunAction::ShutdownTerminal => RunActionView::ShutdownTerminal,
            RunAction::TerminateTerminal => RunActionView::TerminateTerminal,
            RunAction::Finish(session) => RunActionView::Finish(session_view(*session)),
        }
    }
}

/// Whether an event can come at a stage.
pub open spec fn run_expects(stage: RunStageView, event: RunEventView) -> bool {
    match stage {
        RunStageView::Finishing(_) => event is Finished,
        RunStageView::Serving => event is Served,
        RunStageView::Ended => false,
        _ => event is Done || event is Failed,
    }
}

/// What an event means to someone who asked only for success.
pub open spec fn run_outcome(event: RunEventView) -> Result<(), Error> {
    match event {
        RunEventView::Failed(error) => Err(error),
        _ => Ok(()),
    }
}

/// The run is over without success.
pub open spec fn run_failed(error: Error) -> (RunStageView, RunActionView) {
    (RunStageView::Ended, RunActionView::Finish(Err(error)))
}

/// One step of a run: the account is verified, and the credentials are let go of, before
/// Codex is started; and the terminal is ended however Codex ran.
pub open spec fn run_next(stage: RunStageView, event: RunEventView) -> (RunStageView, RunActionView)
    recommends
        run_expects(stage, event),
{
    let outcome = run_outcome(event);
    match stage {
        RunStageView::Opening => match outcome {
            Err(error) => run_failed(error),
            Ok(_) => (RunStageView::Verifying, RunActionView::VerifyProfile),
        },
        RunStageView::Verifying => (RunStageView::Finishing(outcome), RunActionView::FinishAuth),
        RunStageView::Finishing(result) => {
            let all = match event {
                RunEventView::Finished { stopped, cleared } => settled(result, stopped, cleared),
                _ => result,
            };
            match all {
                Err(error) => run_failed(error),
                Ok(_) => (RunStageView::Listening, RunActionView::Listen),
            }
        },
        RunStageView::Listening => match outcome {
            Err(error) => run_failed(error),
            Ok(_) => (RunStageView::Spawning, RunActionView::SpawnTerminal),
        },
        RunStageView::Spawning => match outcome {
            Err(error) => run_failed(error),
            Ok(_) => (RunStageView::Serving, RunActionView::Serve),
        },
        RunStageView::Serving => match event {
            RunEventView::Served(session) => (
                RunStageView::Closing(session),
                if session is Ok {
                    RunActionView::ShutdownTerminal
                } else {
                    RunActionView::TerminateTerminal
                },
            ),
            _ => (RunStageView::Closing(Ok(None)), RunActionView::TerminateTerminal),
        },
        RunStageView::Closing(session) => (
            RunStageView::Ended,
            RunActionView::Finish(settled(session, outcome, Ok(()))),
        ),
        RunStageView::Ended => (RunStageView::Ended, RunActionView::Finish(Ok(None))),
    }
}

fn fail_run(error: Error) -> (next: (RunStage, RunAction))
    ensures
        (next.0@, next.1@) == run_failed(error),
{
    (RunStage::Ended, RunAction::Finish(Err(error)))
}

/// Decides the next step of a run.
pub fn run(stage: RunStage, event: RunEvent) -> (next: (RunStage, RunAction))
    requires
        run_expects(stage@, event@),
    ensures
        (next.0@, next.1@) == run_next(stage@, event@),
{
    match (stage, event) {
        (RunStage::Opening, RunEvent::Done) => (RunStage::Verifying, RunAction::VerifyProfile),
        (RunStage::Verifying, RunEvent::Failed(error)) => (
            RunStage::Finishing(Err(error)),
            RunAction::FinishAuth,
        ),
        (RunStage::Verifying, _) => (RunStage::Finishing(Ok(())), RunAction::FinishAuth),
        (RunStage::Finishing(result), RunEvent::Finished { stopped, cleared }) => {
            match settle(result, stopped, cleared) {
                Err(error) => fail_run(error),
                Ok(_) => (RunStage::Listening, RunAction::Listen),
            }
        },
        (RunStage::Listening, RunEvent::Done) => (RunStage::Spawning, RunAction::SpawnTerminal),
        (RunStage::Spawning, RunEvent::Done) => (RunStage::Serving, RunAction::Serve),
        (RunStage::Serving, RunEvent::Served(session)) => {
            let action = if session.is_ok() {
                RunAction::ShutdownTerminal
            } else {
                RunAction::TerminateTerminal
            };
            (RunStage::Closing(session), action)
        },
        (RunStage::Closing(session), RunEvent::Failed(error)) => (
            RunStage::Ended,
            RunAction::Finish(settle(session, Err(error), Ok(()))),
        ),
        (RunStage::Closing(session), _) => (
            RunStage::Ended,
            RunAction::Finish(settle(session, Ok(()), Ok(()))),
        ),
        (_, RunEvent::Failed(error)) => fail_run(error),
        _ => (RunStage::Ended, RunAction::Finish(Ok(None))),
    }
}

/// Codex is started only with an account that was verified, and after the credentials were let
/// go of; a terminal that was started is ended; and a session is reported only of a run that
/// went well to its end.
pub proof fn law_runs_are_verified_and_closed(stage: RunStageView, event: RunEventView)
    requires
        run_expects(stage, event),
    ensures
        ({
            let (next, action) = run_next(stage, event);
            &&& (next is Listening ==> {
                &&& stage matches RunStageView::Finishing(result) && result is Ok
                &&& event matches RunEventView::Finished { stopped, cleared } && stopped is Ok
                    && cleared is Ok
            })
            &&& (next matches RunStageView::Finishing(Ok(_)) ==> stage is Verifying && event
                is Done)
            &&& action is SpawnTerminal ==> stage is Listening && event is Done
            &&& action is Serve ==> stage is Spawning && event is Done
            &&& stage is Serving ==> action is ShutdownTerminal || action is TerminateTerminal
            &&& (action matches RunActionView::Finish(Ok(session)) ==> stage
                == RunStageView::Closing(Ok::<Option<Seq<char>>, Error>(session)) && event is Done)
        }),
{
}

/// How far the watch over a running terminal has come.
pub enum WatchStage {
    /// Everything is awaited at once.
    Watching,
    /// An interrupt is being passed on.
    Interrupting,
    /// The connections are awaited, which were told to end; what came before, and whether the
    /// authentication has ended.
    AwaitConnections { result: Result<(), Error>, authenticated: bool },
    /// The authentication is awaited, which was told to end; what came before.
    AwaitAuthentication(Result<(), Error>),
    /// It is over.
    Ended,
}

/// What happened.
pub enum WatchEvent {
    /// The connections have ended.
    Connections(Result<(), Error>),
    /// The authentication has ended.
    Authentication(Result<(), Error>),
    /// The terminal has ended; whether it succeeded.
    Terminal(Result<bool, Error>),
    /// A signal came; whether it is an interrupt.
    Signal { interrupt: bool },
    /// The interrupt was passed on; what came of it.
    Interrupted(Result<(), Error>),
}

/// What is to be done next.
pub enum WatchAction {
    Watch,
    /// Pass an interrupt on to the terminal.
    Interrupt,
    /// Tell all to end, and await the connections.
    AwaitConnections,
    /// Tell all to end, and await the authentication.
    AwaitAuthentication,
    Finish(Result<(), Error>),
}

/// Whether an event can come at a stage.
pub open spec fn watch_expects(stage: WatchStage, event: WatchEvent) -> bool {
    match stage {
        WatchStage::Watching => !(event is Interrupted),
        WatchStage::Interrupting => event is Interrupted,
        WatchStage::AwaitConnections { .. } => event is Connections,
        WatchStage::AwaitAuthentication(_) => event is Authentication,
        WatchStage::Ended => false,
    }
}

/// The watch ends with a result while connections and authentication go on.
pub open spec fn leaving(result: Result<(), Error>) -> (WatchStage, WatchAction) {
    (
        WatchStage::AwaitConnections { result, authenticated: false },
        WatchAction::AwaitConnections,
    )
}

/// One step of the watch over a running terminal: an interrupt belongs to the terminal, any
/// other end is final, and whatever still goes on is told to end and awaited.
pub open spec fn watch_next(stage: WatchStage, event: WatchEvent) -> (WatchStage, WatchAction)
    recommends
        watch_expects(stage, event),
{
    match (stage, event) {
        (WatchStage::Watching, WatchEvent::Connections(result)) => (
            WatchStage::AwaitAuthentication(result),
            WatchAction::AwaitAuthentication,
        ),
        (WatchStage::Watching, WatchEvent::Authentication(result)) => (
            WatchStage::AwaitConnections { result, authenticated: true },
            WatchAction::AwaitConnections,
        ),
        (WatchStage::Watching, WatchEvent::Terminal(Ok(true))) => leaving(Ok(())),
        (WatchStage::Watching, WatchEvent::Terminal(Ok(false))) => leaving(
            Err(Error::TerminalUnsuccessful),
        ),
        (WatchStage::Watching, WatchEvent::Terminal(Err(error))) => leaving(Err(error)),
        (WatchStage::Watching, WatchEvent::Signal { interrupt: true }) => (
            WatchStage::Interrupting,
            WatchAction::Interrupt,
        ),
        (WatchStage::Watching, _) => leaving(Err(Error::Interrupted)),
        (WatchStage::Interrupting, WatchEvent::Interrupted(Err(error))) => leaving(Err(error)),
        (WatchStage::Interrupting, _) => (WatchStage::Watching, WatchAction::Watch),
        (
            WatchStage::AwaitConnections { result, authenticated },
            WatchEvent::Connections(stopped),
        ) => if authenticated {
            (WatchStage::Ended, WatchAction::Finish(both(result, stopped)))
        } else {
            (
                WatchStage::AwaitAuthentication(both(result, stopped)),
                WatchAction::AwaitAuthentication,
            )
        },
        (WatchStage::AwaitAuthentication(result), WatchEvent::Authentication(ended)) => (
            WatchStage::Ended,
            WatchAction::Finish(both(result, ended)),
        ),
        _ => (WatchStage::Ended, WatchAction::Finish(Ok(()))),
    }
}

fn leave(result: Result<(), Error>) -> (next: (WatchStage, WatchAction))
    ensures
        next == leaving(result),
{
    (
        WatchStage::AwaitConnections { result, authenticated: false },
        WatchAction::AwaitConnections,
    )
}

/// Decides the next step of the watch over a running terminal.
pub fn run_terminal(stage: WatchStage, event: WatchEvent) -> (next: (WatchStage, WatchAction))
    requires
        watch_expects(stage, event),
    ensures
        next == watch_next(stage, event),
{
    match (stage, event) {
        (WatchStage::Watching, WatchEvent::Connections(result)) => (
            WatchStage::AwaitAuthentication(result),
            WatchAction::AwaitAuthentication,
        ),
        (WatchStage::Watching, WatchEvent::Authentication(result)) => (
            WatchStage::AwaitConnections { result, authenticated: true },
            WatchAction::AwaitConnections,
        ),
        (WatchStage::Watching, WatchEvent::Terminal(Ok(true))) => leave(Ok(())),
        (WatchStage::Watching, WatchEvent::Terminal(Ok(false))) => leave(
            Err(Error::TerminalUnsuccessful),
        ),
        (WatchStage::Watching, WatchEvent::Terminal(Err(error))) => leave(Err(error)),
        (WatchStage::Watching, WatchEvent::Signal { interrupt: true }) => (
            WatchStage::Interrupting,
            WatchAction::Interrupt,
        ),
        (WatchStage::Watching, _) => leave(Err(Error::Interrupted)),
        (WatchStage::Interrupting, WatchEvent::Interrupted(Err(error))) => leave(Err(error)),
        (WatchStage::Interrupting, _) => (WatchStage::Watching, WatchAction::Watch),
        (
            WatchStage::AwaitConnections { result, authenticated },
            WatchEvent::Connections(stopped),
        ) => if authenticated {
            (WatchStage::Ended, WatchAction::Finish(combine(result, stopped)))
        } else {
            (
                WatchStage::AwaitAuthentication(combine(result, stopped)),
                WatchAction::AwaitAuthentication,
            )
        },
        (WatchStage::AwaitAuthentication(result), WatchEvent::Authentication(ended)) => (
            WatchStage::Ended,
            WatchAction::Finish(combine(result, ended)),
        ),
        _ => (WatchStage::Ended, WatchAction::Finish(Ok(()))),
    }
}

/// The watch ends only after connections and authentication have both ended, and well only if
/// nothing failed on the way.
pub proof fn law_watch_awaits_all(stage: WatchStage, event: WatchEvent)
    requires
        watch_expects(stage, event),
    ensures
        ({
            let (next, action) = watch_next(stage, event);
            &&& (action matches WatchAction::Finish(result) ==> {
                ||| (stage matches WatchStage::AwaitConnections { result: earlier, authenticated: true }
                    && event matches WatchEvent::Connections(last) && result == both(earlier, last))
                ||| (stage matches WatchStage::AwaitAuthentication(earlier)
                    && event matches WatchEvent::Authentication(last) && result == both(
                    earlier,
                    last,
                ))
            })
            &&& (next matches WatchStage::AwaitConnections { authenticated: true, .. } ==> stage
                is Watching && event is Authentication)
            &&& (next is AwaitAuthentication ==> event is Connections)
            &&& stage is Watching && (event matches WatchEvent::Signal { interrupt: true }) ==> next
                is Interrupting
        }),
{
}

/// For how many seconds the first connection is awaited.
pub const CONNECT_TIMEOUT: u64 = 30;

/// The most connections that are served at once.
pub const MAX_CLIENTS: usize = 4;

/// How far the serving of connections has come.
pub enum ServeStage {
    /// Connections are accepted.
    Serving,
    /// A coding server is being started for a connection.
    Starting,
    /// No more connections are accepted, and the others were told to end; what came before.
    Draining(Result<(), Error>),
    /// It is over.
    Ended,
}

/// The connections of a run.
pub struct Connections {
    stage: ServeStage,
    clients: usize,
    connected: bool,
}

/// What is known of the connections of a run.
pub struct ConnectionsView {
    pub stage: ServeStage,
    /// How many are open.
    pub clients: nat,
    /// Whether there was one.
    pub connected: bool,
}

impl View for Connections {
    type V = ConnectionsView;

    closed spec fn view(&self) -> ConnectionsView {
        ConnectionsView {
            stage: self.stage,
            clients: self.clients as nat,
            connected: self.connected,
        }
    }
}

/// What happened.
pub enum ServeEvent {
    /// The run ends.
    Stopped,
    /// The time for the first connection is up.
    DeadlinePassed,
    Accepted,
    AcceptFailed(Error),
    /// The coding server for the accepted connection runs, or why it does not.
    Started(Result<(), Error>),
    /// A connection ended and its server was stopped.
    ClientEnded(Result<Exit, Error>),
    /// A connection's task did not come to an end of its own.
    ClientLost,
}

/// What is to be done next.
pub enum ServeAction {
    /// Await what may happen: a connection where one may be accepted, the deadline where it
    /// still counts, and the end of a connection where one is open.
    Await { accept: bool, deadline: bool, client: bool },
    /// Start a coding server for the accepted connection.
    StartServer,
    /// Accept no more connections, tell the others to end, and await one.
    Drain,
    Finish(Result<(), Error>),
}

impl ConnectionsView {
    /// What holds at all times: there are never more connections than may be, and room for
    /// the one that is being started.
    pub open spec fn wf(self) -> bool {
        &&& self.clients <= MAX_CLIENTS
        &&& self.stage is Starting ==> self.clients < MAX_CLIENTS
        &&& self.clients > 0 ==> self.connected
    }

    /// Whether an event can come.
    pub open spec fn expects(self, event: ServeEvent) -> bool {
        match self.stage {
            ServeStage::Serving => match event {
                ServeEvent::Accepted => self.clients < MAX_CLIENTS,
                ServeEvent::AcceptFailed(_) => self.clients < MAX_CLIENTS,
                ServeEvent::DeadlinePassed => !self.connected,
                ServeEvent::ClientEnded(_) => self.clients > 0,
                ServeEvent::ClientLost => self.clients > 0,
                ServeEvent::Stopped => true,
                ServeEvent::Started(_) => false,
            },
            ServeStage::Starting => event is Started,
            ServeStage::Draining(_) => (event is ClientEnded || event is ClientLost) && self.clients
                > 0,
            ServeStage::Ended => false,
        }
    }

    /// More events are awaited.
    pub open spec fn awaiting(self) -> (ConnectionsView, ServeAction) {
        (
            ConnectionsView { stage: ServeStage::Serving, ..self },
            ServeAction::Await {
                accept: self.clients < MAX_CLIENTS,
                deadline: !self.connected,
                client: self.clients > 0,
            },
        )
    }

    /// The connections that are left are awaited, if any.
    pub open spec fn draining(self, result: Result<(), Error>) -> (ConnectionsView, ServeAction) {
        if self.clients == 0 {
            (
                ConnectionsView { stage: ServeStage::Ended, ..self },
                ServeAction::Finish(result),
            )
        } else {
            (
                ConnectionsView { stage: ServeStage::Draining(result), ..self },
                ServeAction::Drain,
            )
        }
    }

    /// The connections without one that has ended.
    pub open spec fn without_one(self) -> ConnectionsView {
        ConnectionsView { clients: (self.clients - 1) as nat, ..self }
    }

    /// What the end of a connection came to.
    pub open spec fn ended(event: ServeEvent) -> Result<(), Error> {
        match event {
            ServeEvent::ClientEnded(Err(error)) => Err(error),
            ServeEvent::ClientLost => Err(Error::ConnectionTaskFailed),
            _ => Ok(()),
        }
    }

    /// One step in serving connections: each gets a coding server of its own; one that goes
    /// away leaves the others alone, while one that logs out, or fails, ends them all.
    pub open spec fn next(self, event: ServeEvent) -> (ConnectionsView, ServeAction) {
        match (self.stage, event) {
            (ServeStage::Serving, ServeEvent::Stopped) => self.draining(Ok(())),
            (ServeStage::Serving, ServeEvent::DeadlinePassed) => self.draining(
                Err(Error::TerminalNotConnected),
            ),
            (ServeStage::Serving, ServeEvent::Accepted) => (
                ConnectionsView { stage: ServeStage::Starting, ..self },
                ServeAction::StartServer,
            ),
            (ServeStage::Serving, ServeEvent::AcceptFailed(error)) => self.draining(Err(error)),
            (
                ServeStage::Serving,
                ServeEvent::ClientEnded(Ok(Exit::Disconnected)),
            ) => self.without_one().awaiting(),
            (ServeStage::Serving, _) => self.without_one().draining(ConnectionsView::ended(event)),
            (ServeStage::Starting, ServeEvent::Started(Ok(_))) => ConnectionsView {
                clients: self.clients + 1,
                connected: true,
                ..self
            }.awaiting(),
            (ServeStage::Starting, ServeEvent::Started(Err(error))) => self.draining(Err(error)),
            (ServeStage::Draining(result), _) => self.without_one().draining(
                both(result, ConnectionsView::ended(event)),
            ),
            _ => self.draining(Ok(())),
        }
    }
}

fn client_end(event: ServeEvent) -> (result: Result<(), Error>)
    ensures
        result == ConnectionsView::ended(event),
{
    match event {
        ServeEvent::ClientEnded(Err(error)) => Err(error),
        ServeEvent::ClientLost => Err(Error::ConnectionTaskFailed),
        _ => Ok(()),
    }
}

impl Connections {
    /// Before the first connection; what is awaited at first.
    pub fn new() -> (begun: (Connections, ServeAction))
        ensures
            (begun.0@, begun.1) == (ConnectionsView {
                stage: ServeStage::Serving,
                clients: 0,
                connected: false,
            }).awaiting(),
            begun.0@.wf(),
    {
        let mut connections = Connections {
            stage: ServeStage::Serving,
            clients: 0,
            connected: false,
        };
        let action = connections.wait();
        (connections, action)
    }

    fn wait(&mut self) -> (action: ServeAction)
        ensures
            (final(self)@, action) == old(self)@.awaiting(),
    {
        self.stage = ServeStage::Serving;
        ServeAction::Await {
            accept: self.clients < MAX_CLIENTS,
            deadline: !self.connected,
            client: self.clients > 0,
        }
    }

    fn drain(&mut self, result: Result<(), Error>) -> (action: ServeAction)
        ensures
            (final(self)@, action) == old(self)@.draining(result),
    {
        if self.clients == 0 {
            self.stage = ServeStage::Ended;
            ServeAction::Finish(result)
        } else {
            self.stage = ServeStage::Draining(result);
            ServeAction::Drain
        }
    }

    /// One step in serving connections.
    pub fn serve_connections(&mut self, event: ServeEvent) -> (action: ServeAction)
        requires
            old(self)@.wf(),
            old(self)@.expects(event),
        ensures
            (final(self)@, action) == old(self)@.next(event),
            final(self)@.wf(),
    {
        let mut stage = ServeStage::Ended;
        std::mem::swap(&mut stage, &mut self.stage);
        match (stage, event) {
            (ServeStage::Serving, ServeEvent::Stopped) => self.drain(Ok(())),
            (ServeStage::Serving, ServeEvent::DeadlinePassed) => self.drain(
                Err(Error::TerminalNotConnected),
            ),
            (ServeStage::Serving, ServeEvent::Accepted) => {
                self.stage = ServeStage::Starting;
                ServeAction::StartServer
            },
            (ServeStage::Serving, ServeEvent::AcceptFailed(error)) => self.drain(Err(error)),
            (ServeStage::Serving, ServeEvent::ClientEnded(Ok(Exit::Disconnected))) => {
                self.clients = self.clients - 1;
                self.wait()
            },
            (ServeStage::Serving, ended) => {
                self.clients = self.clients - 1;
                let result = client_end(ended);
                self.drain(result)
            },
            (ServeStage::Starting, ServeEvent::Started(Ok(_))) => {
                self.clients = self.clients + 1;
                self.connected = true;
                self.wait()
            },
            (ServeStage::Starting, ServeEvent::Started(Err(error))) => self.drain(Err(error)),
            (ServeStage::Draining(result), ended) => {
                self.clients = self.clients - 1;
                let result = combine(result, client_end(ended));
                self.drain(result)
            },
            _ => self.drain(Ok(())),
        }
    }
}

/// What one connection came to: its own end, unless its server could not be stopped.
pub fn client_result(result: Result<Exit, Error>, stopped: Result<(), Error>) -> (ended: Result<
    Exit,
    Error,
>)
    ensures
        ended == settled(result, stopped, Ok(())),
{
    settle(result, stopped, Ok(()))
}

/// How far one connection has come.
pub enum ClientStage {
    /// The host is asked for the credentials.
    Asking,
    /// Messages go between the terminal and the coding server.
    Serving,
    /// The coding server is being stopped; what came before.
    Stopping(Result<Exit, Error>),
    /// It is over.
    Ended,
}

/// What happened on one connection.
pub enum ClientEvent {
    /// The host's answer.
    LoggedIn(Result<Json, Error>),
    /// The terminal went away or logged out, or why it cannot be served.
    Served(Result<Exit, Error>),
    /// The connection was told to end.
    Cancelled,
    /// The coding server was stopped, or why it could not be.
    Stopped(Result<(), Error>),
}

/// What an event on one connection says.
pub enum ClientEventView {
    LoggedIn(Result<JsonView, Error>),
    Served(Result<Exit, Error>),
    Cancelled,
    Stopped(Result<(), Error>),
}

impl View for ClientEvent {
    type V = ClientEventView;

    open spec fn view(&self) -> ClientEventView {
        match self {
            ClientEvent::LoggedIn(Ok(login)) => ClientEventView::LoggedIn(Ok(login@)),
            ClientEvent::LoggedIn(Err(error)) => ClientEventView::LoggedIn(Err(*error)),
            ClientEvent::Served(result) => ClientEventView::Served(*result),
            ClientEvent::Cancelled => ClientEventView::Cancelled,
            ClientEvent::Stopped(result) => ClientEventView::Stopped(*result),
        }
    }
}

/// What is to be done next for one connection.
pub enum ClientAction {
    /// Ask the host, unless the connection is told to end first.
    AskHost(AuthRequest),
    /// Serve the terminal with these credentials, unless the connection is told to end first.
    Serve(Json),
    /// Stop the coding server.
    StopServer,
    Finish(Result<Exit, Error>),
}

/// What an action for one connection says.
pub enum ClientActionView {
    AskHost(AuthRequestView),
    Serve(JsonView),
    StopServer,
    Finish(Result<Exit, Error>),
}

impl View for ClientAction {
    type V = ClientActionView;

    open spec fn view(&self) -> ClientActionView {
        match self {
            ClientAction::AskHost(request) => ClientActionView::AskHost(request@),
            ClientAction::Serve(login) => ClientActionView::Serve(login@),
            ClientAction::StopServer => ClientActionView::StopServer,
            ClientAction::Finish(result) => ClientActionView::Finish(*result),
        }
    }
}

/// How a connection begins when its coding server runs: the host is asked for credentials.
pub open spec fn client_begun() -> (ClientStage, ClientActionView) {
    (ClientStage::Asking, ClientActionView::AskHost(AuthRequestView::Login))
}

/// Whether an event can follow a stage of one connection.
pub open spec fn client_expects(stage: ClientStage, event: ClientEventView) -> bool {
    match stage {
        ClientStage::Asking => event is LoggedIn || event is Cancelled,
        ClientStage::Serving => event is Served || event is Cancelled,
        ClientStage::Stopping(_) => event is Stopped,
        ClientStage::Ended => false,
    }
}

/// One step of one connection: it is served when the host gave credentials, and whatever came
/// of it, its coding server is stopped before it has ended.
pub open spec fn client_next(stage: ClientStage, event: ClientEventView) -> (
    ClientStage,
    ClientActionView,
) {
    match (stage, event) {
        (ClientStage::Asking, ClientEventView::LoggedIn(Ok(login))) => (
            ClientStage::Serving,
            ClientActionView::Serve(login),
        ),
        (ClientStage::Asking, ClientEventView::LoggedIn(Err(error))) => (
            ClientStage::Stopping(Err(error)),
            ClientActionView::StopServer,
        ),
        (ClientStage::Serving, ClientEventView::Served(result)) => (
            ClientStage::Stopping(result),
            ClientActionView::StopServer,
        ),
        (ClientStage::Stopping(result), ClientEventView::Stopped(stopped)) => (
            ClientStage::Ended,
            ClientActionView::Finish(settled(result, stopped, Ok(()))),
        ),
        _ => (ClientStage::Stopping(Ok(Exit::Disconnected)), ClientActionView::StopServer),
    }
}

/// Begins to serve a connection whose coding server runs.
pub fn begin_client() -> (begun: (ClientStage, ClientAction))
    ensures
        (begun.0, begun.1@) == client_begun(),
{
    (ClientStage::Asking, ClientAction::AskHost(login_params()))
}

/// Decides the next step of one connection.
pub fn serve_client(stage: ClientStage, event: ClientEvent) -> (next: (ClientStage, ClientAction))
    requires
        client_expects(stage, event@),
    ensures
        (next.0, next.1@) == client_next(stage, event@),
{
    match (stage, event) {
        (ClientStage::Asking, ClientEvent::LoggedIn(Ok(login))) => (
            ClientStage::Serving,
            ClientAction::Serve(login),
        ),
        (ClientStage::Asking, ClientEvent::LoggedIn(Err(error))) => (
            ClientStage::Stopping(Err(error)),
            ClientAction::StopServer,
        ),
        (ClientStage::Serving, ClientEvent::Served(result)) => (
            ClientStage::Stopping(result),
            ClientAction::StopServer,
        ),
        (ClientStage::Stopping(result), ClientEvent::Stopped(stopped)) => (
            ClientStage::Ended,
            ClientAction::Finish(client_result(result, stopped)),
        ),
        _ => (ClientStage::Stopping(Ok(Exit::Disconnected)), ClientAction::StopServer),
    }
}

/// A connection that goes away leaves the others alone, and makes room for another.
pub proof fn law_connections_are_independent(connections: ConnectionsView)
    requires
        connections.wf(),
        connections.stage is Serving,
        connections.clients > 0,
    ensures
        ({
            let (next, action) = connections.next(
                ServeEvent::ClientEnded(Ok(Exit::Disconnected)),
            );
            &&& next.stage is Serving
            &&& next.clients == connections.clients - 1
            &&& action == (ServeAction::Await {
                accept: true,
                deadline: false,
                client: next.clients > 0,
            })
        }),
{
}

/// After a logout on one connection no other is accepted, and those that are open are told to
/// end; the serving ends only when none is left, and then well unless one of them failed.
pub proof fn law_logout_ends_all_connections(connections: ConnectionsView, event: ServeEvent)
    requires
        connections.wf(),
        connections.expects(event),
    ensures
        ({
            let (next, action) = connections.next(event);
            &&& connections.stage is Serving && event == ServeEvent::ClientEnded(
                Ok(Exit::LoggedOut),
            ) ==> next.stage == ServeStage::Draining(Ok::<(), Error>(())) || action
                == ServeAction::Finish(Ok::<(), Error>(()))
            &&& connections.stage is Draining ==> next.stage is Draining || next.stage is Ended
            &&& action is Finish ==> next.clients == 0
            &&& (connections.stage matches ServeStage::Draining(Err(error)) ==> {
                ||| next.stage == ServeStage::Draining(Err::<(), Error>(error))
                ||| action == ServeAction::Finish(Err::<(), Error>(error))
            })
        }),
{
}

/// Codex has to connect in time, but only once: after the first connection the deadline no
/// longer counts, even when no connection is open.
pub proof fn law_deadline_is_for_the_first_connection(
    connections: ConnectionsView,
    event: ServeEvent,
)
    requires
        connections.wf(),
        connections.expects(event),
    ensures
        connections.connected ==> connections.next(event).0.connected,
        connections.connected ==> !(connections.next(event).1 matches ServeAction::Await {
            deadline: true,
            ..
        }),
        connections.next(event).1 matches ServeAction::Await { accept: true, .. }
            ==> connections.next(event).0.clients < MAX_CLIENTS,
{
}

} // verus!
