//! Child processes: what their exit, the signals sent to them and their end mean.

use crate::error::Error;
use vstd::prelude::*;

verus! {

/// For how many milliseconds nothing is done between two looks at a child.
pub const WATCH_PAUSE: u64 = 20;

/// What the system said when it was asked about a child's exit.
pub enum ExitObservation {
    /// The question failed; `interrupted` when a signal cut it short.
    Failed { interrupted: bool },
    /// The process that changed state, zero when none did; whether it ran to its end, and
    /// the status that it ended with.
    Observed { pid: i32, exited: bool, status: i32 },
}

/// Whether a child has ended, and if so whether it succeeded.
pub open spec fn exit_status_of(observation: ExitObservation) -> Result<Option<bool>, Error> {
    match observation {
        ExitObservation::Failed { interrupted } => if interrupted {
            Ok(None)
        } else {
            Err(Error::CannotObserveExit)
        },
        ExitObservation::Observed { pid, exited, status } => if pid != 0 {
            Ok(Some(exited && status == 0))
        } else {
            Ok(None)
        },
    }
}

/// Tells from an observation whether a child has ended, and if so whether it succeeded.
pub fn exit_status(observation: &ExitObservation) -> (status: Result<Option<bool>, Error>)
    ensures
        status == exit_status_of(*observation),
{
    match observation {
        ExitObservation::Failed { interrupted } => if *interrupted {
            Ok(None)
        } else {
            Err(Error::CannotObserveExit)
        },
        ExitObservation::Observed { pid, exited, status } => if *pid != 0 {
            Ok(Some(*exited && *status == 0))
        } else {
            Ok(None)
        },
    }
}

/// What comes of one look at a child that is awaited.
pub enum Awaited {
    /// It has ended; whether it succeeded.
    Ended(bool),
    /// It still runs: look again.
    Running,
    /// It cannot be observed.
    Failed(Error),
}

/// Decides from one look at a child whether to look again.
pub fn exited(observation: &ExitObservation) -> (awaited: Awaited)
    ensures
        awaited == (match exit_status_of(*observation) {
            Ok(Some(success)) => Awaited::Ended(success),
            Ok(None) => Awaited::Running,
            Err(error) => Awaited::Failed(error),
        }),
{
    match exit_status(observation) {
        Ok(Some(success)) => Awaited::Ended(success),
        Ok(None) => Awaited::Running,
        Err(error) => Awaited::Failed(error),
    }
}

/// Whether a number can name a process group.
pub open spec fn is_group(pid: u32) -> bool {
    0 < pid <= i32::MAX
}

/// Tells whether a number can name a process group.
pub fn valid_group(pid: u32) -> (valid: bool)
    ensures
        valid == is_group(pid),
{
    pid != 0 && pid <= i32::MAX as u32
}

/// The number by which the system addresses a whole process group.
pub fn group_target(pid: u32) -> (target: i32)
    requires
        is_group(pid),
    ensures
        target == -(pid as int),
{
    -(pid as i32)
}

/// What the system said when a signal was sent to a process group.
pub enum Delivery {
    Sent,
    NoSuchGroup,
    NotPermitted,
    Failed,
}

/// What follows the sending of a signal.
pub enum SignalNext {
    /// The group has the signal, or has nobody left to get it.
    Done,
    /// Whether this is a failure depends on whether the leader has ended.
    AskExit,
    Failed(Error),
}

/// Decides what the sending of a signal to an owned group came to.
pub fn signal_group(delivery: &Delivery) -> (next: SignalNext)
    ensures
        next == (match delivery {
            Delivery::Sent => SignalNext::Done,
            Delivery::NoSuchGroup => SignalNext::Done,
            Delivery::NotPermitted => SignalNext::AskExit,
            Delivery::Failed => SignalNext::Failed(Error::CannotSignal),
        }),
{
    match delivery {
        Delivery::Sent => SignalNext::Done,
        Delivery::NoSuchGroup => SignalNext::Done,
        // some systems deny a signal to a group that holds only an unreaped zombie.
        Delivery::NotPermitted => SignalNext::AskExit,
        Delivery::Failed => SignalNext::Failed(Error::CannotSignal),
    }
}

/// Decides whether a signal that was not permitted is a failure: it is none once the
/// leader of the group has ended.
pub fn signal_after_exit(observation: &ExitObservation) -> (result: Result<(), Error>)
    ensures
        result == (match exit_status_of(*observation) {
            Ok(Some(success)) => Ok(()),
            Ok(None) => Err(Error::CannotSignal),
            Err(error) => Err(error),
        }),
{
    match exit_status(observation) {
        Ok(Some(_)) => Ok(()),
        Ok(None) => Err(Error::CannotSignal),
        Err(error) => Err(error),
    }
}

/// A signal that ends processes.
#[derive(Clone, Copy, Debug, PartialEq, Eq, Structural)]
pub enum EndSignal {
    /// Asks for an end.
    Terminate,
    /// Enforces it.
    Kill,
}

/// How far the ending of an owned process group has come.
#[derive(Clone, Copy, Debug, PartialEq, Eq, Structural)]
pub enum StopStage {
    /// Nothing was done yet.
    Begin,
    /// The group is being asked to end.
    Terminating,
    /// The leader is given time to end.
    Waiting,
    /// The group is being killed.
    Killing,
    /// The child is being reaped.
    Reaping,
    /// It is over.
    Ended,
}

/// How the last action went.
pub enum StopEvent {
    /// It was done; a wait is done also when its time ran out.
    Done,
    Failed(Error),
}

/// What is to be done next.
pub enum StopAction {
    Signal { group: u32, signal: EndSignal },
    /// Wait for the leader to end, for a limited time.
    AwaitExit { group: u32 },
    /// Wait for the child and release its process number.
    Reap,
    Finish(Result<(), Error>),
}

/// The state of an owned child: the group that may still be signalled, if any.
pub struct Stopped {
    pub group: Option<u32>,
    pub stage: StopStage,
    pub action: StopAction,
}

/// One step in ending an owned process group: the group is asked to end, its leader is
/// given time, the group is killed, and only when nothing more will be sent to it the child
/// is reaped.
pub open spec fn stop_next(
    group: Option<u32>,
    child: bool,
    stage: StopStage,
    event: StopEvent,
) -> Stopped {
    let reap = if child {
        Stopped { group: None, stage: StopStage::Reaping, action: StopAction::Reap }
    } else {
        Stopped { group: None, stage: StopStage::Ended, action: StopAction::Finish(Ok(())) }
    };
    match (stage, event, group) {
        (StopStage::Begin, _, None) => reap,
        (StopStage::Begin, _, Some(pid)) => Stopped {
            group,
            stage: StopStage::Terminating,
            action: StopAction::Signal { group: pid, signal: EndSignal::Terminate },
        },
        (StopStage::Terminating, StopEvent::Done, Some(pid)) => Stopped {
            group,
            stage: StopStage::Waiting,
            action: StopAction::AwaitExit { group: pid },
        },
        (StopStage::Waiting, _, Some(pid)) => Stopped {
            group,
            stage: StopStage::Killing,
            action: StopAction::Signal { group: pid, signal: EndSignal::Kill },
        },
        (StopStage::Killing, StopEvent::Done, _) => reap,
        (StopStage::Terminating, StopEvent::Done, None) => reap,
        (StopStage::Waiting, _, None) => reap,
        (StopStage::Reaping, StopEvent::Done, _) => Stopped {
            group,
            stage: StopStage::Ended,
            action: StopAction::Finish(Ok(())),
        },
        (StopStage::Ended, StopEvent::Done, _) => Stopped {
            group,
            stage: StopStage::Ended,
            action: StopAction::Finish(Ok(())),
        },
        (_, StopEvent::Failed(error), _) => Stopped {
            group,
            stage: StopStage::Ended,
            action: StopAction::Finish(Err(error)),
        },
    }
}

fn reap(child: bool) -> (next: Stopped)
    ensures
        next == (if child {
            Stopped { group: None, stage: StopStage::Reaping, action: StopAction::Reap }
        } else {
            Stopped { group: None, stage: StopStage::Ended, action: StopAction::Finish(Ok(())) }
        }),
{
    if child {
        Stopped { group: None, stage: StopStage::Reaping, action: StopAction::Reap }
    } else {
        Stopped { group: None, stage: StopStage::Ended, action: StopAction::Finish(Ok(())) }
    }
}

/// Decides the next step in ending an owned process group. `child` says whether there is a
/// child to reap.
pub fn stop(group: Option<u32>, child: bool, stage: StopStage, event: StopEvent) -> (next: Stopped)
    ensures
        next == stop_next(group, child, stage, event),
{
    match (stage, event, group) {
        (StopStage::Begin, _, None) => reap(child),
        (StopStage::Begin, _, Some(pid)) => Stopped {
            group,
            stage: StopStage::Terminating,
            action: StopAction::Signal { group: pid, signal: EndSignal::Terminate },
        },
        (StopStage::Terminating, StopEvent::Done, Some(pid)) => Stopped {
            group,
            stage: StopStage::Waiting,
            action: StopAction::AwaitExit { group: pid },
        },
        (StopStage::Waiting, _, Some(pid)) => Stopped {
            group,
            stage: StopStage::Killing,
            action: StopAction::Signal { group: pid, signal: EndSignal::Kill },
        },
        // never signal the saved group after releasing its leader's process number.
        (StopStage::Killing, StopEvent::Done, _) => reap(child),
        (StopStage::Terminating, StopEvent::Done, None) => reap(child),
        (StopStage::Waiting, _, None) => reap(child),
        (StopStage::Reaping, StopEvent::Done, _) => Stopped {
            group,
            stage: StopStage::Ended,
            action: StopAction::Finish(Ok(())),
        },
        (StopStage::Ended, StopEvent::Done, _) => Stopped {
            group,
            stage: StopStage::Ended,
            action: StopAction::Finish(Ok(())),
        },
        (_, StopEvent::Failed(error), _) => Stopped {
            group,
            stage: StopStage::Ended,
            action: StopAction::Finish(Err(error)),
        },
    }
}

/// A process group is signalled only while it is held, and once the child is being reaped
/// no group is held any more: no signal can reach a process that took over the number.
pub proof fn law_no_signal_after_release(
    group: Option<u32>,
    child: bool,
    stage: StopStage,
    event: StopEvent,
)
    ensures
        ({
            let next = stop_next(group, child, stage, event);
            &&& (next.action matches StopAction::Signal { group: target, .. } ==> group == Some(
                target,
            ) && next.group == group)
            &&& (next.action is Reap ==> next.group is None)
            &&& (group is None ==> next.group is None && !(next.action is Signal))
            &&& (next.group is Some ==> next.group == group)
        }),
{
}

/// The group is killed only after it was asked to end and its leader was given time.
pub proof fn law_kill_comes_after_waiting(
    group: Option<u32>,
    child: bool,
    stage: StopStage,
    event: StopEvent,
)
    ensures
        stop_next(group, child, stage, event).action matches StopAction::Signal {
            signal: EndSignal::Kill,
            ..
        } ==> stage == StopStage::Waiting,
        stop_next(group, child, stage, event).stage == StopStage::Waiting ==> stage
            == StopStage::Terminating && event is Done,
        stop_next(group, child, stage, event).stage == StopStage::Terminating ==> stage
            == StopStage::Begin,
{
}

/// How far the starting of a child that is to be recorded has come.
pub enum LaunchStage {
    /// The start is being noted.
    Begin,
    /// The child is being started.
    Start,
    /// The note is being withdrawn, for the given reason.
    Cancel(Error),
    /// The child's group is being recorded.
    Register(u32),
    /// The child is being stopped, for the given reason.
    Stop(Error),
    /// It is over.
    Ended,
}

/// How the last action went.
pub enum LaunchEvent {
    Done,
    /// The child runs; its group, where it is known.
    Started(Option<u32>),
    Failed(Error),
}

/// What is to be done next.
pub enum LaunchAction {
    /// Note that a child is about to be started.
    BeginSpawn,
    Start,
    /// Withdraw the note.
    CancelSpawn,
    RegisterGroup(u32),
    Stop,
    /// The group of the child that runs and is recorded, or why there is none.
    Finish(Result<u32, Error>),
}

/// Whether an event can follow a stage.
pub open spec fn launch_expects(stage: LaunchStage, event: LaunchEvent) -> bool {
    match stage {
        LaunchStage::Begin => !(event is Started),
        LaunchStage::Start => !(event is Done),
        LaunchStage::Cancel(_) => !(event is Started),
        LaunchStage::Register(_) => !(event is Started),
        LaunchStage::Stop(_) => !(event is Started),
        LaunchStage::Ended => false,
    }
}

/// One step in starting a child that is to be recorded: the start is noted before it, so that
/// no child can run unrecorded without a trace; a child that did not start is withdrawn from
/// the note, and one that cannot be recorded is stopped.
pub open spec fn launch_next(stage: LaunchStage, event: LaunchEvent) -> (LaunchStage, LaunchAction)
    recommends
        launch_expects(stage, event),
{
    match (stage, event) {
        (LaunchStage::Begin, LaunchEvent::Done) => (LaunchStage::Start, LaunchAction::Start),
        (LaunchStage::Start, LaunchEvent::Started(Some(group))) => (
            LaunchStage::Register(group),
            LaunchAction::RegisterGroup(group),
        ),
        (LaunchStage::Start, LaunchEvent::Started(None)) => (
            LaunchStage::Ended,
            LaunchAction::Finish(Err(Error::MissingChildGroup)),
        ),
        (LaunchStage::Start, LaunchEvent::Failed(error)) => (
            LaunchStage::Cancel(error),
            LaunchAction::CancelSpawn,
        ),
        (LaunchStage::Cancel(error), LaunchEvent::Done) => (
            LaunchStage::Ended,
            LaunchAction::Finish(Err(error)),
        ),
        (LaunchStage::Register(group), LaunchEvent::Done) => (
            LaunchStage::Ended,
            LaunchAction::Finish(Ok(group)),
        ),
        (LaunchStage::Register(_), LaunchEvent::Failed(error)) => (
            LaunchStage::Stop(error),
            LaunchAction::Stop,
        ),
        (LaunchStage::Stop(error), _) => (LaunchStage::Ended, LaunchAction::Finish(Err(error))),
        (_, LaunchEvent::Failed(error)) => (
            LaunchStage::Ended,
            LaunchAction::Finish(Err(error)),
        ),
        _ => (LaunchStage::Ended, LaunchAction::Finish(Err(Error::MissingChildGroup))),
    }
}

/// Decides the next step in starting a child that is to be recorded.
pub fn launch(stage: LaunchStage, event: LaunchEvent) -> (next: (LaunchStage, LaunchAction))
    requires
        launch_expects(stage, event),
    ensures
        next == launch_next(stage, event),
{
    match (stage, event) {
        (LaunchStage::Begin, LaunchEvent::Done) => (LaunchStage::Start, LaunchAction::Start),
        (LaunchStage::Start, LaunchEvent::Started(Some(group))) => (
            LaunchStage::Register(group),
            LaunchAction::RegisterGroup(group),
        ),
        (LaunchStage::Start, LaunchEvent::Failed(error)) => (
            LaunchStage::Cancel(error),
            LaunchAction::CancelSpawn,
        ),
        (LaunchStage::Cancel(error), LaunchEvent::Done) => (
            LaunchStage::Ended,
            LaunchAction::Finish(Err(error)),
        ),
        (LaunchStage::Register(group), LaunchEvent::Done) => (
            LaunchStage::Ended,
            LaunchAction::Finish(Ok(group)),
        ),
        (LaunchStage::Register(_), LaunchEvent::Failed(error)) => (
            LaunchStage::Stop(error),
            LaunchAction::Stop,
        ),
        (LaunchStage::Stop(error), _) => (LaunchStage::Ended, LaunchAction::Finish(Err(error))),
        (_, LaunchEvent::Failed(error)) => (
            LaunchStage::Ended,
            LaunchAction::Finish(Err(error)),
        ),
        _ => (LaunchStage::Ended, LaunchAction::Finish(Err(Error::MissingChildGroup))),
    }
}

/// A child is started only once its start was noted, success is reported only of a child that
/// was recorded, one that did not start is withdrawn from the note, and one that runs but
/// could not be recorded is stopped before the failure is reported.
pub proof fn law_children_are_recorded_or_stopped(stage: LaunchStage, event: LaunchEvent)
    requires
        launch_expects(stage, event),
    ensures
        ({
            let (next, action) = launch_next(stage, event);
            &&& action is Start ==> stage is Begin && event is Done
            &&& (action matches LaunchAction::Finish(Ok(group)) ==> stage == LaunchStage::Register(
                group,
            ) && event is Done)
            &&& stage is Start && event is Failed ==> action is CancelSpawn
            &&& stage is Register && event is Failed ==> action is Stop && next is Stop
            &&& (stage matches LaunchStage::Stop(error) ==> action == LaunchAction::Finish(
                Err::<u32, Error>(error),
            ))
        }),
{
}

} // verus!
