//! The terminal that the user sees: how it is set up, watched, and left as it was found.

use crate::error::Error;
use crate::process::{
    launch, stop, EndSignal, LaunchAction, LaunchEvent, LaunchStage, StopAction, StopEvent,
    StopStage,
};
use vstd::prelude::*;

use crate::process::{launch_expects, launch_next, stop_next};

verus! {

/// What makes the cursor of a terminal seen again and its text plain.
pub const PLAIN: &'static str = "\u{1b}[?25h\u{1b}[0m";

/// For how many seconds Codex may go on by itself when the run is over.
pub const FINISH_TIMEOUT: u64 = 5;

/// For how many seconds Codex is given time when it is told to end, and then its child to be
/// reaped.
pub const TERMINATE_TIMEOUT: u64 = 3;

/// A terminal in which Codex runs in the foreground.
pub struct Terminal {
    group: Option<u32>,
    foreground: i32,
}

/// What is known of a terminal.
pub struct TerminalView {
    /// The process group that may still be signalled, if any.
    pub group: Option<u32>,
    /// The process group that had the terminal before.
    pub foreground: i32,
}

impl View for Terminal {
    type V = TerminalView;

    closed spec fn view(&self) -> TerminalView {
        TerminalView { group: self.group, foreground: self.foreground }
    }
}

/// How far the setting up of a terminal has come.
pub enum SpawnStage {
    /// It is being found out whether the input is a terminal.
    Input,
    /// The terminal is being opened.
    Device,
    /// It is being found out who has the terminal.
    Foreground,
    /// The settings are being saved; who has the terminal.
    Settings(i32),
    /// Codex is being started; who had the terminal.
    Launch(i32, LaunchStage),
    /// The terminal is being left as it was found; why Codex was not started.
    Restoring(Error),
    /// It is over.
    Ended,
}

/// How the last action went.
pub enum SpawnEvent {
    /// Whether what was asked is so, or was done.
    Answer(bool),
    Opened,
    /// Who has the terminal, and the own group.
    Groups { foreground: i32, own: i32 },
    Launch(LaunchEvent),
    Restored,
    Failed(Error),
}

/// What is to be done next.
pub enum SpawnAction {
    OpenDevice,
    ReadGroups,
    SaveSettings,
    Launch(LaunchAction),
    /// Hand the terminal back to a group, put its saved settings back and write a text to it.
    Restore { foreground: i32, text: &'static str },
    Finish(Result<Terminal, Error>),
}

/// What an action says.
pub enum SpawnActionView {
    OpenDevice,
    ReadGroups,
    SaveSettings,
    Launch(LaunchAction),
    Restore { foreground: i32, text: Seq<char> },
    Finish(Result<TerminalView, Error>),
}

impl View for SpawnAction {
    type V = SpawnActionView;

    open spec fn view(&self) -> SpawnActionView {
        match self {
            SpawnAction::OpenDevice => SpawnActionView::OpenDevice,
            SpawnAction::ReadGroups => SpawnActionView::ReadGroups,
            SpawnAction::SaveSettings => SpawnActionView::SaveSettings,
            SpawnAction::Launch(action) => SpawnActionView::Launch(*action),
            SpawnAction::Restore { foreground, text } => SpawnActionView::Restore {
                foreground: *foreground,
                text: text@,
            },
            SpawnAction::Finish(Ok(terminal)) => SpawnActionView::Finish(Ok(terminal@)),
            SpawnAction::Finish(Err(error)) => SpawnActionView::Finish(Err(*error)),
        }
    }
}

/// Whether an event can follow a stage.
pub open spec fn spawn_expects(stage: SpawnStage, event: SpawnEvent) -> bool {
    match stage {
        SpawnStage::Input => event is Answer,
        SpawnStage::Device => event is Opened || event is Failed,
        SpawnStage::Foreground => event is Groups,
        SpawnStage::Settings(_) => event is Answer,
        SpawnStage::Launch(_, launch) => event matches SpawnEvent::Launch(launched)
            && launch_expects(launch, launched),
        SpawnStage::Restoring(_) => event is Restored,
        SpawnStage::Ended => false,
    }
}

/// A failure to start Codex, in words of its own.
pub open spec fn start_failure(stage: LaunchStage, event: LaunchEvent) -> LaunchEvent {
    if stage is Start && event is Failed {
        LaunchEvent::Failed(Error::CannotStartTerminal)
    } else {
        event
    }
}

/// One step in setting up a terminal: the input has to be one, this program has to have it,
/// and its settings have to be saved before Codex is started. From then on it is left as it was
/// found before a failure is reported.
pub open spec fn spawn_next(stage: SpawnStage, event: SpawnEvent) -> (SpawnStage, SpawnActionView)
    recommends
        spawn_expects(stage, event),
{
    let failed = |error: Error|
        (SpawnStage::Ended, SpawnActionView::Finish(Err::<TerminalView, Error>(error)));
    match (stage, event) {
        (SpawnStage::Input, SpawnEvent::Answer(true)) => (
            SpawnStage::Device,
            SpawnActionView::OpenDevice,
        ),
        (SpawnStage::Input, _) => failed(Error::NotInteractive),
        (SpawnStage::Device, SpawnEvent::Failed(error)) => failed(error),
        (SpawnStage::Device, _) => (SpawnStage::Foreground, SpawnActionView::ReadGroups),
        (SpawnStage::Foreground, SpawnEvent::Groups { foreground, own }) => if foreground == own {
            (SpawnStage::Settings(foreground), SpawnActionView::SaveSettings)
        } else {
            failed(Error::NotForeground)
        },
        (SpawnStage::Settings(foreground), SpawnEvent::Answer(true)) => (
            SpawnStage::Launch(foreground, LaunchStage::Begin),
            SpawnActionView::Launch(LaunchAction::BeginSpawn),
        ),
        (SpawnStage::Settings(_), _) => failed(Error::CannotSaveTerminal),
        (SpawnStage::Launch(foreground, launch), SpawnEvent::Launch(launched)) => {
            let (next, action) = launch_next(launch, start_failure(launch, launched));
            match action {
                LaunchAction::Finish(Ok(group)) => (
                    SpawnStage::Ended,
                    SpawnActionView::Finish(Ok(TerminalView { group: Some(group), foreground })),
                ),
                LaunchAction::Finish(Err(error)) => (
                    SpawnStage::Restoring(error),
                    SpawnActionView::Restore { foreground, text: PLAIN@ },
                ),
                other => (SpawnStage::Launch(foreground, next), SpawnActionView::Launch(other)),
            }
        },
        (SpawnStage::Restoring(error), _) => failed(error),
        _ => failed(Error::NotInteractive),
    }
}

/// How watching the terminal went.
pub enum Watched {
    /// Codex ended; whether it succeeded.
    Ended(bool),
    Failed(Error),
    /// It did not end in time.
    TimedOut,
}

/// What shutting a terminal down came to.
pub open spec fn shutdown_result(watched: Watched, stopped: Result<(), Error>) -> Result<
    (),
    Error,
> {
    match stopped {
        Err(error) => Err(error),
        Ok(()) => match watched {
            Watched::Ended(true) => Ok(()),
            Watched::Ended(false) => Err(Error::TerminalUnsuccessful),
            Watched::Failed(error) => Err(error),
            Watched::TimedOut => Err(Error::TerminalNotFinished),
        },
    }
}

/// How far the closing of a terminal has come.
pub enum CloseStage {
    /// Codex is given time to end by itself.
    Awaiting,
    /// The terminal is being ended; how watching it went, where it was watched.
    Stopping { watched: Option<Watched>, stage: StopStage },
    /// The terminal is being left as it was found; what came of all before.
    Restoring(Result<(), Error>),
    /// It is over.
    Ended,
}

/// How the last action went.
pub enum CloseEvent {
    /// Codex ended, or the time that it was given is over.
    Watched(Watched),
    Stop(StopEvent),
    Restored,
}

/// What is to be done next.
pub enum CloseAction {
    /// Wait for the group's leader to end, for so many seconds, and send it nothing.
    AwaitExit { group: u32, seconds: u64 },
    Stop(StopAction),
    /// Hand the terminal back to a group, put its saved settings back and write a text to it.
    Restore { foreground: i32, text: &'static str },
    Finish(Result<(), Error>),
}

/// What an action says.
pub enum CloseActionView {
    AwaitExit { group: u32, seconds: u64 },
    Stop(StopAction),
    Restore { foreground: i32, text: Seq<char> },
    Finish(Result<(), Error>),
}

impl View for CloseAction {
    type V = CloseActionView;

    open spec fn view(&self) -> CloseActionView {
        match self {
            CloseAction::AwaitExit { group, seconds } => CloseActionView::AwaitExit {
                group: *group,
                seconds: *seconds,
            },
            CloseAction::Stop(action) => CloseActionView::Stop(*action),
            CloseAction::Restore { foreground, text } => CloseActionView::Restore {
                foreground: *foreground,
                text: text@,
            },
            CloseAction::Finish(result) => CloseActionView::Finish(*result),
        }
    }
}

/// What closing a terminal came to, where it was watched before it was ended or not.
pub open spec fn close_result(watched: Option<Watched>, stopped: Result<(), Error>) -> Result<
    (),
    Error,
> {
    match watched {
        Some(seen) => shutdown_result(seen, stopped),
        None => stopped,
    }
}

/// A terminal, how far its closing has come, and what is to be done.
pub struct Closing {
    pub terminal: TerminalView,
    pub stage: CloseStage,
    pub action: CloseActionView,
}

impl TerminalView {
    /// One step in ending the terminal; it is left as it was found whatever that came to.
    pub open spec fn stopping(
        self,
        child: bool,
        watched: Option<Watched>,
        stage: StopStage,
        event: StopEvent,
    ) -> Closing {
        let stopped = stop_next(self.group, child, stage, event);
        let terminal = TerminalView { group: stopped.group, ..self };
        match stopped.action {
            StopAction::Finish(result) => Closing {
                terminal,
                stage: CloseStage::Restoring(close_result(watched, result)),
                action: CloseActionView::Restore { foreground: self.foreground, text: PLAIN@ },
            },
            action => Closing {
                terminal,
                stage: CloseStage::Stopping { watched, stage: stopped.stage },
                action: CloseActionView::Stop(action),
            },
        }
    }

    /// How closing begins: where Codex did well (`gentle`) it may first end by itself.
    pub open spec fn close_begun(self, child: bool, gentle: bool) -> Closing {
        if gentle {
            match self.group {
                Some(group) => Closing {
                    terminal: self,
                    stage: CloseStage::Awaiting,
                    action: CloseActionView::AwaitExit { group, seconds: FINISH_TIMEOUT },
                },
                None => self.stopping(
                    child,
                    Some(Watched::Failed(Error::TerminalStopped)),
                    StopStage::Begin,
                    StopEvent::Done,
                ),
            }
        } else {
            self.stopping(child, None, StopStage::Begin, StopEvent::Done)
        }
    }

    /// One step of closing.
    pub open spec fn close_next(self, child: bool, stage: CloseStage, event: CloseEvent) -> Closing {
        match (stage, event) {
            (CloseStage::Awaiting, CloseEvent::Watched(watched)) => self.stopping(
                child,
                Some(watched),
                StopStage::Begin,
                StopEvent::Done,
            ),
            (CloseStage::Stopping { watched, stage }, CloseEvent::Stop(event)) => self.stopping(
                child,
                watched,
                stage,
                event,
            ),
            (CloseStage::Restoring(result), _) => Closing {
                terminal: self,
                stage: CloseStage::Ended,
                action: CloseActionView::Finish(result),
            },
            _ => Closing {
                terminal: self,
                stage: CloseStage::Ended,
                action: CloseActionView::Finish(Ok(())),
            },
        }
    }
}

/// Whether an event can follow a stage of closing.
pub open spec fn close_expects(stage: CloseStage, event: CloseEvent) -> bool {
    match stage {
        CloseStage::Awaiting => event is Watched,
        CloseStage::Stopping { .. } => event is Stop,
        CloseStage::Restoring(_) => event is Restored,
        CloseStage::Ended => false,
    }
}

impl Terminal {
    /// Decides the next step in setting up a terminal.
    pub fn spawn(stage: SpawnStage, event: SpawnEvent) -> (next: (SpawnStage, SpawnAction))
        requires
            spawn_expects(stage, event),
        ensures
            (next.0, next.1@) == spawn_next(stage, event),
    {
        match (stage, event) {
            (SpawnStage::Input, SpawnEvent::Answer(true)) => (
                SpawnStage::Device,
                SpawnAction::OpenDevice,
            ),
            (SpawnStage::Input, _) => Terminal::failed(Error::NotInteractive),
            (SpawnStage::Device, SpawnEvent::Failed(error)) => Terminal::failed(error),
            (SpawnStage::Device, _) => (SpawnStage::Foreground, SpawnAction::ReadGroups),
            (
                SpawnStage::Foreground,
                SpawnEvent::Groups { foreground, own },
            ) => if foreground == own {
                (SpawnStage::Settings(foreground), SpawnAction::SaveSettings)
            } else {
                Terminal::failed(Error::NotForeground)
            },
            (SpawnStage::Settings(foreground), SpawnEvent::Answer(true)) => (
                SpawnStage::Launch(foreground, LaunchStage::Begin),
                SpawnAction::Launch(LaunchAction::BeginSpawn),
            ),
            (SpawnStage::Settings(_), _) => Terminal::failed(Error::CannotSaveTerminal),
            (SpawnStage::Launch(foreground, stage), SpawnEvent::Launch(event)) => {
                let event = match (&stage, event) {
                    (LaunchStage::Start, LaunchEvent::Failed(_)) => LaunchEvent::Failed(
                        Error::CannotStartTerminal,
                    ),
                    (_, other) => other,
                };
                match launch(stage, event) {
                    (_, LaunchAction::Finish(Ok(group))) => (
                        SpawnStage::Ended,
                        SpawnAction::Finish(Ok(Terminal { group: Some(group), foreground })),
                    ),
                    (_, LaunchAction::Finish(Err(error))) => (
                        SpawnStage::Restoring(error),
                        SpawnAction::Restore { foreground, text: PLAIN },
                    ),
                    (next, action) => (
                        SpawnStage::Launch(foreground, next),
                        SpawnAction::Launch(action),
                    ),
                }
            },
            (SpawnStage::Restoring(error), _) => Terminal::failed(error),
            _ => Terminal::failed(Error::NotInteractive),
        }
    }

    fn failed(error: Error) -> (next: (SpawnStage, SpawnAction))
        ensures
            next.0 == SpawnStage::Ended,
            next.1@ == SpawnActionView::Finish(Err::<TerminalView, Error>(error)),
    {
        (SpawnStage::Ended, SpawnAction::Finish(Err(error)))
    }

    /// The group whose exit is to be awaited; an error where the terminal was stopped.
    pub fn wait(&self) -> (group: Result<u32, Error>)
        ensures
            group == (match self@.group {
                Some(group) => Ok(group),
                None => Err(Error::TerminalStopped),
            }),
    {
        match self.group {
            Some(group) => Ok(group),
            None => Err(Error::TerminalStopped),
        }
    }

    /// The group that an interrupt is to be passed on to, if any.
    pub fn interrupt(&self) -> (group: Option<u32>)
        ensures
            group == self@.group,
    {
        self.group
    }

    /// One step in ending the terminal; `child` says whether there is a child to reap. The
    /// process group is forgotten before the child is reaped.
    pub fn terminate(&mut self, child: bool, stage: StopStage, event: StopEvent) -> (next: (
        StopStage,
        StopAction,
    ))
        ensures
            ({
                let stopped = stop_next(old(self)@.group, child, stage, event);
                &&& next == (stopped.stage, stopped.action)
                &&& final(self)@ == (TerminalView { group: stopped.group, ..old(self)@ })
            }),
    {
        let stopped = stop(self.group, child, stage, event);
        self.group = stopped.group;
        (stopped.stage, stopped.action)
    }

    /// What shutting a terminal down came to: Codex was given time to end by itself, and then
    /// the terminal was ended in any case. A failure of the latter comes first.
    pub fn shutdown(watched: Watched, stopped: Result<(), Error>) -> (result: Result<(), Error>)
        ensures
            result == shutdown_result(watched, stopped),
    {
        match stopped {
            Err(error) => Err(error),
            Ok(()) => match watched {
                Watched::Ended(true) => Ok(()),
                Watched::Ended(false) => Err(Error::TerminalUnsuccessful),
                Watched::Failed(error) => Err(error),
                Watched::TimedOut => Err(Error::TerminalNotFinished),
            },
        }
    }

    fn stop_and_restore(
        &mut self,
        child: bool,
        watched: Option<Watched>,
        stage: StopStage,
        event: StopEvent,
    ) -> (next: (CloseStage, CloseAction))
        ensures
            (Closing { terminal: final(self)@, stage: next.0, action: next.1@ })
                == old(self)@.stopping(child, watched, stage, event),
    {
        match self.terminate(child, stage, event) {
            (_, StopAction::Finish(stopped)) => {
                let result = match watched {
                    Some(seen) => Terminal::shutdown(seen, stopped),
                    None => stopped,
                };
                let (foreground, text) = self.restore();
                (CloseStage::Restoring(result), CloseAction::Restore { foreground, text })
            },
            (stage, action) => (
                CloseStage::Stopping { watched, stage },
                CloseAction::Stop(action),
            ),
        }
    }

    /// Begins to close the terminal. Where Codex did well (`gentle`) it may first end by
    /// itself, so that it can finish what it writes.
    pub fn begin_close(&mut self, child: bool, gentle: bool) -> (next: (CloseStage, CloseAction))
        ensures
            (Closing { terminal: final(self)@, stage: next.0, action: next.1@ })
                == old(self)@.close_begun(child, gentle),
    {
        if !gentle {
            return self.stop_and_restore(child, None, StopStage::Begin, StopEvent::Done);
        }
        match self.wait() {
            Ok(group) => (
                CloseStage::Awaiting,
                CloseAction::AwaitExit { group, seconds: FINISH_TIMEOUT },
            ),
            Err(error) => self.stop_and_restore(
                child,
                Some(Watched::Failed(error)),
                StopStage::Begin,
                StopEvent::Done,
            ),
        }
    }

    /// Decides the next step in closing the terminal.
    pub fn close(&mut self, child: bool, stage: CloseStage, event: CloseEvent) -> (next: (
        CloseStage,
        CloseAction,
    ))
        requires
            close_expects(stage, event),
        ensures
            (Closing { terminal: final(self)@, stage: next.0, action: next.1@ })
                == old(self)@.close_next(child, stage, event),
    {
        match (stage, event) {
            (CloseStage::Awaiting, CloseEvent::Watched(watched)) => self.stop_and_restore(
                child,
                Some(watched),
                StopStage::Begin,
                StopEvent::Done,
            ),
            (CloseStage::Stopping { watched, stage }, CloseEvent::Stop(event)) => {
                self.stop_and_restore(child, watched, stage, event)
            },
            (CloseStage::Restoring(result), _) => (
                CloseStage::Ended,
                CloseAction::Finish(result),
            ),
            _ => (CloseStage::Ended, CloseAction::Finish(Ok(()))),
        }
    }

    /// How the terminal is left as it was found: the group that it is handed back to, and what
    /// is written to it.
    pub fn restore(&self) -> (left: (i32, &'static str))
        ensures
            left.0 == self@.foreground,
            left.1@ == PLAIN@,
    {
        (self.foreground, PLAIN)
    }
}

/// Codex is started in a terminal only when the input is one, this program has it, and its
/// settings were saved; and what had the terminal is who gets it back. When Codex could not be
/// started, or not be recorded, the terminal is left as it was found before that is reported;
/// before its settings were saved it is not touched.
pub proof fn law_terminal_is_taken_with_care(stage: SpawnStage, event: SpawnEvent)
    requires
        spawn_expects(stage, event),
    ensures
        ({
            let (next, action) = spawn_next(stage, event);
            &&& next is Device ==> stage is Input && event == SpawnEvent::Answer(true)
            &&& next is Foreground ==> stage is Device && event is Opened
            &&& (next matches SpawnStage::Settings(foreground) ==> stage is Foreground && event
                == (SpawnEvent::Groups { foreground, own: foreground }))
            &&& (next matches SpawnStage::Launch(foreground, _) ==> {
                ||| stage == SpawnStage::Settings(foreground) && event == SpawnEvent::Answer(true)
                ||| stage matches SpawnStage::Launch(before, _) && before == foreground
            })
            &&& (action matches SpawnActionView::Finish(Ok(terminal)) ==> (
            stage matches SpawnStage::Launch(foreground, launch) && terminal.foreground
                == foreground && terminal.group is Some && launch == LaunchStage::Register(
                terminal.group->0,
            )))
            &&& (action matches SpawnActionView::Restore { foreground, text } ==> text == PLAIN@ && (
            stage matches SpawnStage::Launch(before, _) && before == foreground))
            &&& (stage is Launch && !(next is Launch) ==> next is Restoring && action is Restore
                || (action matches SpawnActionView::Finish(Ok(_))))
            &&& (stage matches SpawnStage::Restoring(error) ==> action == SpawnActionView::Finish(
                Err::<TerminalView, Error>(error),
            ))
        }),
{
}

/// A terminal, how far its closing has come, and all that was to be done so far.
pub struct Closed {
    pub terminal: TerminalView,
    pub stage: CloseStage,
    pub actions: Seq<CloseActionView>,
}

/// How a terminal is closed when these events follow one another.
pub open spec fn closed_by(
    terminal: TerminalView,
    child: bool,
    gentle: bool,
    events: Seq<CloseEvent>,
) -> Closed
    decreases events.len(),
{
    if events.len() == 0 {
        let begun = terminal.close_begun(child, gentle);
        Closed { terminal: begun.terminal, stage: begun.stage, actions: seq![begun.action] }
    } else {
        let before = closed_by(terminal, child, gentle, events.drop_last());
        let next = before.terminal.close_next(child, before.stage, events.last());
        Closed {
            terminal: next.terminal,
            stage: next.stage,
            actions: before.actions.push(next.action),
        }
    }
}

/// Whether each of these events can come when its turn is.
pub open spec fn can_close(
    terminal: TerminalView,
    child: bool,
    gentle: bool,
    events: Seq<CloseEvent>,
) -> bool
    decreases events.len(),
{
    events.len() == 0 || {
        &&& can_close(terminal, child, gentle, events.drop_last())
        &&& close_expects(
            closed_by(terminal, child, gentle, events.drop_last()).stage,
            events.last(),
        )
    }
}

/// Whether an action sends a signal.
pub open spec fn is_signal(action: CloseActionView) -> bool {
    action matches CloseActionView::Stop(StopAction::Signal { .. })
}

/// Codex is not signalled before it was given its time: whenever a terminal that did well is
/// closed, the first thing is to wait for Codex to end by itself, and every signal comes after
/// it ended or the time was over. What it writes last is complete.
pub proof fn law_no_signal_before_the_wait(
    terminal: TerminalView,
    child: bool,
    events: Seq<CloseEvent>,
    i: int,
)
    requires
        can_close(terminal, child, true, events),
        0 <= i <= events.len(),
        is_signal(closed_by(terminal, child, true, events).actions[i]),
    ensures
        i > 0,
        terminal.group is Some,
        closed_by(terminal, child, true, events).actions[0] == (CloseActionView::AwaitExit {
            group: terminal.group->0,
            seconds: FINISH_TIMEOUT,
        }),
        events[0] is Watched,
{
    lemma_waits_first(terminal, child, events);
}

proof fn lemma_waits_first(terminal: TerminalView, child: bool, events: Seq<CloseEvent>)
    requires
        can_close(terminal, child, true, events),
    ensures
        ({
            let closed = closed_by(terminal, child, true, events);
            &&& closed.actions.len() == events.len() + 1
            &&& closed.terminal.group is Some ==> closed.terminal.group == terminal.group
            &&& terminal.group matches Some(group) ==> {
                &&& closed.actions[0] == (CloseActionView::AwaitExit {
                    group,
                    seconds: FINISH_TIMEOUT,
                })
                &&& events.len() > 0 ==> events[0] is Watched
                &&& events.len() == 0 ==> closed.stage is Awaiting
            }
            &&& forall|i: int|
                0 <= i <= events.len() && #[trigger] is_signal(closed.actions[i]) ==> i > 0
                    && terminal.group is Some
        }),
    decreases events.len(),
{
    if events.len() > 0 {
        lemma_waits_first(terminal, child, events.drop_last());
        let before = closed_by(terminal, child, true, events.drop_last());
        let closed = closed_by(terminal, child, true, events);
        if events.len() > 1 {
            assert(events.drop_last()[0] == events[0]);
        }
        assert forall|i: int|
            0 <= i <= events.len() && #[trigger] is_signal(closed.actions[i]) implies i > 0
            && terminal.group is Some by {
            if i < events.len() {
                assert(closed.actions[i] == before.actions[i]);
                assert(is_signal(before.actions[i]));
            }
        }
    }
}

/// However closing goes, the terminal is left as it was found before the closing is over: it
/// is handed back, its settings are put back, and its cursor and text are made plain.
pub proof fn law_terminal_is_restored_in_every_case(
    terminal: TerminalView,
    child: bool,
    gentle: bool,
    events: Seq<CloseEvent>,
)
    requires
        can_close(terminal, child, gentle, events),
        closed_by(terminal, child, gentle, events).stage is Ended,
    ensures
        ({
            let actions = closed_by(terminal, child, gentle, events).actions;
            &&& events.len() > 0
            &&& actions.len() == events.len() + 1
            &&& actions.last() is Finish
            &&& actions[actions.len() - 2] == (CloseActionView::Restore {
                foreground: terminal.foreground,
                text: PLAIN@,
            })
        }),
{
    lemma_restored(terminal, child, gentle, events);
}

proof fn lemma_restored(
    terminal: TerminalView,
    child: bool,
    gentle: bool,
    events: Seq<CloseEvent>,
)
    requires
        can_close(terminal, child, gentle, events),
    ensures
        ({
            let closed = closed_by(terminal, child, gentle, events);
            let restore = CloseActionView::Restore {
                foreground: terminal.foreground,
                text: PLAIN@,
            };
            &&& closed.actions.len() == events.len() + 1
            &&& closed.terminal.foreground == terminal.foreground
            &&& closed.stage is Restoring ==> closed.actions.last() == restore
            &&& closed.stage is Ended ==> closed.actions.len() > 1 && closed.actions.last()
                is Finish && closed.actions[closed.actions.len() - 2] == restore
        }),
    decreases events.len(),
{
    if events.len() > 0 {
        lemma_restored(terminal, child, gentle, events.drop_last());
        let before = closed_by(terminal, child, gentle, events.drop_last());
        let closed = closed_by(terminal, child, gentle, events);
        assert(closed.actions[closed.actions.len() - 2] == before.actions.last());
    }
}

/// Whether nothing fails while a terminal is ended.
pub open spec fn ends_well(events: Seq<CloseEvent>) -> bool {
    forall|i: int|
        0 <= i < events.len() ==> !(#[trigger] events[i] matches CloseEvent::Stop(
            StopEvent::Failed(_),
        ))
}

/// A terminal whose end does not fail was shut down well if and only if Codex ended in its
/// time with success.
pub proof fn law_shutdown_tells_how_codex_ended(
    terminal: TerminalView,
    child: bool,
    events: Seq<CloseEvent>,
)
    requires
        can_close(terminal, child, true, events),
        closed_by(terminal, child, true, events).stage is Ended,
        terminal.group is Some,
        ends_well(events),
    ensures
        ({
            let actions = closed_by(terminal, child, true, events).actions;
            &&& events[0] matches CloseEvent::Watched(watched) && actions.last()
                == CloseActionView::Finish(shutdown_result(watched, Ok(())))
            &&& (actions.last() matches CloseActionView::Finish(Ok(_))) <==> events[0]
                == CloseEvent::Watched(Watched::Ended(true))
        }),
{
    lemma_watched_counts(terminal, child, events);
}

proof fn lemma_watched_counts(terminal: TerminalView, child: bool, events: Seq<CloseEvent>)
    requires
        can_close(terminal, child, true, events),
        terminal.group is Some,
        ends_well(events),
    ensures
        ({
            let closed = closed_by(terminal, child, true, events);
            &&& closed.stage is Awaiting <==> events.len() == 0
            &&& events.len() > 0 ==> (events[0] matches CloseEvent::Watched(watched) && {
                &&& (closed.stage matches CloseStage::Stopping { watched: held, .. } ==> held
                    == Some(watched))
                &&& (closed.stage matches CloseStage::Restoring(result) ==> result
                    == shutdown_result(watched, Ok(())))
                &&& (closed.stage is Ended ==> closed.actions.last() == CloseActionView::Finish(
                    shutdown_result(watched, Ok(())),
                ))
            })
        }),
    decreases events.len(),
{
    if events.len() > 0 {
        let earlier = events.drop_last();
        assert forall|i: int| 0 <= i < earlier.len() implies !(#[trigger] earlier[i] matches
            CloseEvent::Stop(StopEvent::Failed(_))) by {
            assert(earlier[i] == events[i]);
        }
        lemma_watched_counts(terminal, child, earlier);
        assert(!(events[events.len() - 1] matches CloseEvent::Stop(StopEvent::Failed(_))));
        if events.len() > 1 {
            assert(earlier[0] == events[0]);
        }
    }
}

/// What closing a terminal that did well takes when nothing fails, from first to last.
pub proof fn law_shutdown_course(terminal: TerminalView, watched: Watched)
    requires
        terminal.group is Some,
    ensures
        ({
            let group = terminal.group->0;
            let done = CloseEvent::Stop(StopEvent::Done);
            let events = seq![
                CloseEvent::Watched(watched),
                done,
                done,
                done,
                done,
                CloseEvent::Restored,
            ];
            let closed = closed_by(terminal, true, true, events);
            &&& can_close(terminal, true, true, events)
            &&& closed.stage is Ended
            &&& closed.actions == seq![
                CloseActionView::AwaitExit { group, seconds: FINISH_TIMEOUT },
                CloseActionView::Stop(
                    StopAction::Signal { group, signal: EndSignal::Terminate },
                ),
                CloseActionView::Stop(StopAction::AwaitExit { group }),
                CloseActionView::Stop(StopAction::Signal { group, signal: EndSignal::Kill }),
                CloseActionView::Stop(StopAction::Reap),
                CloseActionView::Restore { foreground: terminal.foreground, text: PLAIN@ },
                CloseActionView::Finish(shutdown_result(watched, Ok(()))),
            ]
        }),
{
    let done = CloseEvent::Stop(StopEvent::Done);
    let none = Seq::<CloseEvent>::empty();
    let one = none.push(CloseEvent::Watched(watched));
    let two = one.push(done);
    let three = two.push(done);
    let four = three.push(done);
    let five = four.push(done);
    let six = five.push(CloseEvent::Restored);
    assert(one.drop_last() =~= none);
    assert(two.drop_last() =~= one);
    assert(three.drop_last() =~= two);
    assert(four.drop_last() =~= three);
    assert(five.drop_last() =~= four);
    assert(six.drop_last() =~= five);
    assert(closed_by(terminal, true, true, none).stage is Awaiting);
    assert(closed_by(terminal, true, true, one).stage is Stopping);
    assert(closed_by(terminal, true, true, two).stage is Stopping);
    assert(closed_by(terminal, true, true, three).stage is Stopping);
    assert(closed_by(terminal, true, true, four).stage is Stopping);
    assert(closed_by(terminal, true, true, five).stage is Restoring);
    assert(can_close(terminal, true, true, none));
    assert(can_close(terminal, true, true, one));
    assert(can_close(terminal, true, true, two));
    assert(can_close(terminal, true, true, three));
    assert(can_close(terminal, true, true, four));
    assert(can_close(terminal, true, true, five));
    assert(six =~= seq![CloseEvent::Watched(watched), done, done, done, done, CloseEvent::Restored]);
}

} // verus!
