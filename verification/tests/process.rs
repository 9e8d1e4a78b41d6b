use coduck::error::Error;
use coduck::process::{
    exit_status, exited, group_target, launch, signal_after_exit, signal_group, stop, valid_group,
    Awaited, Delivery, EndSignal, ExitObservation, LaunchAction, LaunchEvent, LaunchStage,
    SignalNext, StopAction, StopEvent, StopStage,
};
use coduck::terminal::{
    CloseAction, CloseEvent, SpawnAction, SpawnEvent, SpawnStage, Terminal, Watched,
};

fn observed(pid: i32, exited: bool, status: i32) -> ExitObservation {
    ExitObservation::Observed { pid, exited, status }
}

#[test]
fn an_exit_is_a_success_only_with_status_zero() {
    assert_eq!(exit_status(&observed(7, true, 0)), Ok(Some(true)));
    assert_eq!(exit_status(&observed(7, true, 7)), Ok(Some(false)));
    assert_eq!(exit_status(&observed(7, false, 0)), Ok(Some(false)));
    assert_eq!(exit_status(&observed(0, true, 0)), Ok(None));
    assert_eq!(exit_status(&ExitObservation::Failed { interrupted: true }), Ok(None));
    let lost = ExitObservation::Failed { interrupted: false };
    assert_eq!(exit_status(&lost), Err(Error::CannotObserveExit));
    assert!(matches!(exited(&observed(7, true, 7)), Awaited::Ended(false)));
    assert!(matches!(exited(&observed(0, false, 0)), Awaited::Running));
    assert!(matches!(exited(&lost), Awaited::Failed(Error::CannotObserveExit)));
}

#[test]
fn groups_are_addressed_by_negative_numbers() {
    assert!(valid_group(1));
    assert!(valid_group(i32::MAX as u32));
    assert!(!valid_group(0));
    assert!(!valid_group(i32::MAX as u32 + 1));
    assert_eq!(group_target(1), -1);
    assert_eq!(group_target(i32::MAX as u32), -i32::MAX);
}

#[test]
fn a_signal_may_find_nobody() {
    assert!(matches!(signal_group(&Delivery::Sent), SignalNext::Done));
    assert!(matches!(signal_group(&Delivery::NoSuchGroup), SignalNext::Done));
    assert!(matches!(signal_group(&Delivery::NotPermitted), SignalNext::AskExit));
    assert!(matches!(
        signal_group(&Delivery::Failed),
        SignalNext::Failed(Error::CannotSignal)
    ));
    assert_eq!(signal_after_exit(&observed(7, false, 9)), Ok(()));
    assert_eq!(signal_after_exit(&observed(0, false, 0)), Err(Error::CannotSignal));
    assert_eq!(
        signal_after_exit(&ExitObservation::Failed { interrupted: false }),
        Err(Error::CannotObserveExit)
    );
}

#[test]
fn a_group_is_not_signalled_after_its_release() {
    let reaping = stop(Some(7), true, StopStage::Killing, StopEvent::Done);
    assert!(reaping.group.is_none());
    assert!(matches!(reaping.action, StopAction::Reap));
    for stage in [
        StopStage::Begin,
        StopStage::Terminating,
        StopStage::Waiting,
        StopStage::Killing,
        StopStage::Reaping,
        StopStage::Ended,
    ] {
        let next = stop(None, true, stage, StopEvent::Done);
        assert!(next.group.is_none());
        assert!(!matches!(next.action, StopAction::Signal { .. }));
    }
    let killing = stop(Some(7), true, StopStage::Waiting, StopEvent::Done);
    assert!(matches!(
        killing.action,
        StopAction::Signal { group: 7, signal: EndSignal::Kill }
    ));
    let lost = stop(None, true, StopStage::Reaping, StopEvent::Failed(Error::ShutdownTimedOut));
    assert!(matches!(lost.action, StopAction::Finish(Err(Error::ShutdownTimedOut))));
}

#[test]
fn a_child_is_noted_started_and_recorded() {
    let (stage, action) = launch(LaunchStage::Begin, LaunchEvent::Done);
    assert!(matches!(action, LaunchAction::Start));
    let (stage, action) = launch(stage, LaunchEvent::Started(Some(7)));
    assert!(matches!(action, LaunchAction::RegisterGroup(7)));
    let (_, action) = launch(stage, LaunchEvent::Done);
    assert!(matches!(action, LaunchAction::Finish(Ok(7))));
    let (_, action) = launch(LaunchStage::Begin, LaunchEvent::Failed(Error::UnrecordedSpawn));
    assert!(matches!(action, LaunchAction::Finish(Err(Error::UnrecordedSpawn))));
    let (_, action) = launch(LaunchStage::Start, LaunchEvent::Started(None));
    assert!(matches!(action, LaunchAction::Finish(Err(Error::MissingChildGroup))));
}

#[test]
fn a_child_that_does_not_start_is_withdrawn() {
    let failed = || launch(LaunchStage::Start, LaunchEvent::Failed(Error::CannotStartServer));
    assert!(matches!(failed().1, LaunchAction::CancelSpawn));
    let (_, action) = launch(failed().0, LaunchEvent::Done);
    assert!(matches!(action, LaunchAction::Finish(Err(Error::CannotStartServer))));
    let (_, action) = launch(failed().0, LaunchEvent::Failed(Error::NoPendingSpawn));
    assert!(matches!(action, LaunchAction::Finish(Err(Error::NoPendingSpawn))));
}

#[test]
fn a_child_that_cannot_be_recorded_is_stopped() {
    let event = LaunchEvent::Failed(Error::UnmarkedSpawn);
    let (stage, action) = launch(LaunchStage::Register(7), event);
    assert!(matches!(action, LaunchAction::Stop));
    let (_, action) = launch(stage, LaunchEvent::Failed(Error::ShutdownFailed));
    assert!(matches!(action, LaunchAction::Finish(Err(Error::UnmarkedSpawn))));
}

fn terminal() -> Terminal {
    let (stage, action) = Terminal::spawn(SpawnStage::Input, SpawnEvent::Answer(true));
    assert!(matches!(action, SpawnAction::OpenDevice));
    let (stage, action) = Terminal::spawn(stage, SpawnEvent::Opened);
    assert!(matches!(action, SpawnAction::ReadGroups));
    let (stage, action) =
        Terminal::spawn(stage, SpawnEvent::Groups { foreground: 5, own: 5 });
    assert!(matches!(action, SpawnAction::SaveSettings));
    let (stage, action) = Terminal::spawn(stage, SpawnEvent::Answer(true));
    assert!(matches!(action, SpawnAction::Launch(LaunchAction::BeginSpawn)));
    let (stage, action) = Terminal::spawn(stage, SpawnEvent::Launch(LaunchEvent::Done));
    assert!(matches!(action, SpawnAction::Launch(LaunchAction::Start)));
    let (stage, action) =
        Terminal::spawn(stage, SpawnEvent::Launch(LaunchEvent::Started(Some(7))));
    assert!(matches!(action, SpawnAction::Launch(LaunchAction::RegisterGroup(7))));
    match Terminal::spawn(stage, SpawnEvent::Launch(LaunchEvent::Done)).1 {
        SpawnAction::Finish(Ok(terminal)) => terminal,
        _ => panic!("the terminal was not set up"),
    }
}

fn refused(stage: SpawnStage, event: SpawnEvent) -> Error {
    match Terminal::spawn(stage, event).1 {
        SpawnAction::Finish(Err(error)) => error,
        _ => panic!("the terminal was not refused"),
    }
}

// once its settings are saved, a terminal is left as it was found before a failure is reported.
fn restoring(stage: SpawnStage, event: LaunchEvent) -> SpawnStage {
    match Terminal::spawn(stage, SpawnEvent::Launch(event)) {
        (stage, SpawnAction::Restore { foreground: 5, text: "\x1b[?25h\x1b[0m" }) => stage,
        _ => panic!("the terminal is not restored"),
    }
}

#[test]
fn a_terminal_is_taken_with_care() {
    assert_eq!(refused(SpawnStage::Input, SpawnEvent::Answer(false)), Error::NotInteractive);
    let lost = Error::Outside("no such device".to_owned());
    assert_eq!(
        refused(SpawnStage::Device, SpawnEvent::Failed(lost)).message(),
        "no such device"
    );
    assert_eq!(
        refused(SpawnStage::Foreground, SpawnEvent::Groups { foreground: 5, own: 6 }),
        Error::NotForeground
    );
    assert_eq!(
        refused(SpawnStage::Settings(5), SpawnEvent::Answer(false)),
        Error::CannotSaveTerminal
    );
    let failed = LaunchEvent::Failed(Error::Outside("not found".to_owned()));
    let (stage, action) =
        Terminal::spawn(SpawnStage::Launch(5, LaunchStage::Start), SpawnEvent::Launch(failed));
    assert!(matches!(action, SpawnAction::Launch(LaunchAction::CancelSpawn)));
    assert_eq!(
        refused(restoring(stage, LaunchEvent::Done), SpawnEvent::Restored),
        Error::CannotStartTerminal
    );
    let failed = LaunchEvent::Failed(Error::UnmarkedSpawn);
    let (stage, action) = Terminal::spawn(
        SpawnStage::Launch(5, LaunchStage::Register(7)),
        SpawnEvent::Launch(failed),
    );
    assert!(matches!(action, SpawnAction::Launch(LaunchAction::Stop)));
    assert_eq!(
        refused(restoring(stage, LaunchEvent::Done), SpawnEvent::Restored),
        Error::UnmarkedSpawn
    );
    let unnoted = LaunchEvent::Failed(Error::UnrecordedSpawn);
    let stage = SpawnStage::Launch(5, LaunchStage::Begin);
    assert_eq!(
        refused(restoring(stage, unnoted), SpawnEvent::Restored),
        Error::UnrecordedSpawn
    );
}

#[test]
fn a_terminal_is_left_as_it_was_found() {
    let mut terminal = terminal();
    assert_eq!(terminal.wait(), Ok(7));
    assert_eq!(terminal.interrupt(), Some(7));
    let mut stage = StopStage::Begin;
    let mut signals = Vec::new();
    let result = loop {
        let (next, action) = terminal.terminate(true, stage, StopEvent::Done);
        stage = next;
        match action {
            StopAction::Signal { signal, .. } => signals.push(signal),
            StopAction::AwaitExit { group } => assert_eq!(group, 7),
            StopAction::Reap => assert_eq!(terminal.interrupt(), None),
            StopAction::Finish(result) => break result,
        }
    };
    assert_eq!(result, Ok(()));
    assert_eq!(signals, vec![EndSignal::Terminate, EndSignal::Kill]);
    assert_eq!(terminal.wait(), Err(Error::TerminalStopped));
    assert_eq!(terminal.restore(), (5, "\x1b[?25h\x1b[0m"));
}

#[test]
fn a_terminal_is_given_time_to_end() {
    assert_eq!(Terminal::shutdown(Watched::Ended(true), Ok(())), Ok(()));
    assert_eq!(
        Terminal::shutdown(Watched::Ended(false), Ok(())),
        Err(Error::TerminalUnsuccessful)
    );
    assert_eq!(
        Terminal::shutdown(Watched::TimedOut, Ok(())),
        Err(Error::TerminalNotFinished)
    );
    assert_eq!(
        Terminal::shutdown(Watched::Failed(Error::CannotObserveExit), Ok(())),
        Err(Error::CannotObserveExit)
    );
    assert_eq!(
        Terminal::shutdown(Watched::Ended(true), Err(Error::CannotSignal)),
        Err(Error::CannotSignal)
    );
}

// what closing a terminal takes when its steps go as they are answered here, in words.
fn closing(
    mut terminal: Terminal,
    gentle: bool,
    watched: Watched,
    mut stopped: Vec<StopEvent>,
) -> (Vec<String>, Result<(), Error>) {
    let mut steps = Vec::new();
    let mut watched = Some(watched);
    let (mut stage, mut action) = terminal.begin_close(true, gentle);
    loop {
        let event = match action {
            CloseAction::AwaitExit { group, seconds } => {
                steps.push(format!("wait {group} {seconds}"));
                CloseEvent::Watched(watched.take().unwrap())
            }
            CloseAction::Stop(action) => {
                steps.push(match action {
                    StopAction::Signal { group, signal } => format!("signal {group} {signal:?}"),
                    StopAction::AwaitExit { group } => format!("exit {group}"),
                    StopAction::Reap => "reap".to_owned(),
                    StopAction::Finish(_) => panic!("the end is not a step"),
                });
                CloseEvent::Stop(if stopped.is_empty() { StopEvent::Done } else { stopped.remove(0) })
            }
            CloseAction::Restore { foreground, text } => {
                assert_eq!(text, "\x1b[?25h\x1b[0m");
                steps.push(format!("restore {foreground}"));
                CloseEvent::Restored
            }
            CloseAction::Finish(result) => return (steps, result),
        };
        (stage, action) = terminal.close(true, stage, event);
    }
}

#[test]
fn no_signal_precedes_the_wait() {
    let whole = ["wait 7 5", "signal 7 Terminate", "exit 7", "signal 7 Kill", "reap", "restore 5"];
    for (watched, ended) in [
        (Watched::Ended(true), Ok(())),
        (Watched::Ended(false), Err(Error::TerminalUnsuccessful)),
        (Watched::TimedOut, Err(Error::TerminalNotFinished)),
        (Watched::Failed(Error::CannotObserveExit), Err(Error::CannotObserveExit)),
    ] {
        let (steps, result) = closing(terminal(), true, watched, Vec::new());
        assert_eq!(steps, whole);
        assert_eq!(result, ended);
    }
    let (steps, result) = closing(terminal(), false, Watched::TimedOut, Vec::new());
    assert_eq!(steps, whole[1..]);
    assert_eq!(result, Ok(()));
}

#[test]
fn a_terminal_is_restored_whatever_fails() {
    let failed = || StopEvent::Failed(Error::CannotSignal);
    let (steps, result) = closing(terminal(), true, Watched::Ended(true), vec![failed()]);
    assert_eq!(steps.first().map(String::as_str), Some("wait 7 5"));
    assert_eq!(steps.last().map(String::as_str), Some("restore 5"));
    assert_eq!(result, Err(Error::CannotSignal));
    let reaped = vec![StopEvent::Done, StopEvent::Done, StopEvent::Done, failed()];
    let (steps, result) = closing(terminal(), false, Watched::TimedOut, reaped);
    assert_eq!(steps.last().map(String::as_str), Some("restore 5"));
    assert_eq!(result, Err(Error::CannotSignal));
}

#[test]
fn a_terminal_that_was_ended_is_not_waited_for() {
    let mut ended = terminal();
    let (mut stage, mut action) = ended.begin_close(true, false);
    while let CloseAction::Stop(_) = action {
        (stage, action) = ended.close(true, stage, CloseEvent::Stop(StopEvent::Done));
    }
    assert!(matches!(action, CloseAction::Restore { foreground: 5, .. }));
    assert!(matches!(
        ended.close(true, stage, CloseEvent::Restored).1,
        CloseAction::Finish(Ok(()))
    ));
    let (steps, result) = closing(ended, true, Watched::Ended(true), Vec::new());
    assert!(!steps.iter().any(|step| step.starts_with("wait") || step.starts_with("signal")));
    assert_eq!(steps.last().map(String::as_str), Some("restore 5"));
    assert_eq!(result, Err(Error::TerminalStopped));
}
