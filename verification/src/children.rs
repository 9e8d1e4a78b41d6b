//! What holds of the children that are started, watched and ended, and of the terminal that
//! one of them is given, said of what goes into a call and what comes out of it.

use crate::codex::{
    candidates, check_version, find_executable, program, ChildCommand, Codex, FileFacts,
    VersionReply,
};
use crate::error::Error;
use crate::process::{
    exit_status, exited, group_target, launch, signal_after_exit, signal_group, stop, valid_group,
    Awaited, Delivery, EndSignal, ExitObservation, LaunchAction, LaunchEvent, LaunchStage,
    SignalNext, StopAction, StopEvent, StopStage, Stopped,
};
use crate::terminal::{
    CloseEvent, CloseStage, SpawnAction, SpawnEvent, SpawnStage, Terminal, Watched,
};
use vstd::prelude::*;

use crate::codex::{
    bytes_list, candidates_of, environment_changes, has_directory, is_component, is_executable,
    is_hidden, removals, EnvChangeView,
};
use crate::path::{is_rooted, joined_path, path_bytes};
use crate::store::{inside, lemma_inside};
use crate::terminal::{CloseActionView, SpawnActionView, TerminalView};
use crate::text::{
    law_first_part_ends_at_the_first_mark, law_parts_are_cut_at_each_mark,
    law_text_without_marks_is_one_part, split_parts,
};

verus! {

/// A child has ended where the system names a process that changed its state, and has
/// succeeded where that one ran to its end with the status zero. A question that a signal cut
/// short says nothing, and any other failure is one.
pub proof fn law_ends_of_children(
    observation: &ExitObservation,
    status: Result<Option<bool>, Error>,
    awaited: Awaited,
    signalled: Result<(), Error>,
)
    requires
        call_ensures(exit_status, (observation,), status),
        call_ensures(exited, (observation,), awaited),
        call_ensures(signal_after_exit, (observation,), signalled),
    ensures
        *observation matches ExitObservation::Observed { pid, exited, status: code } ==> {
            &&& pid == 0 ==> status == Ok::<Option<bool>, Error>(None) && awaited is Running
                && signalled == Err::<(), Error>(Error::CannotSignal)
            &&& pid != 0 ==> signalled == Ok::<(), Error>(())
            &&& pid != 0 && exited && code == 0 ==> status == Ok::<Option<bool>, Error>(Some(true))
                && awaited == Awaited::Ended(true)
            &&& pid != 0 && (!exited || code != 0) ==> status == Ok::<Option<bool>, Error>(
                Some(false),
            ) && awaited == Awaited::Ended(false)
        },
        *observation matches ExitObservation::Failed { interrupted } ==> {
            &&& interrupted ==> status == Ok::<Option<bool>, Error>(None) && awaited is Running
                && signalled == Err::<(), Error>(Error::CannotSignal)
            &&& !interrupted ==> status == Err::<Option<bool>, Error>(Error::CannotObserveExit)
                && awaited == Awaited::Failed(Error::CannotObserveExit) && signalled == Err::<
                (),
                Error,
            >(Error::CannotObserveExit)
        },
{
}

/// A group has a number from one to the largest signed one of 32 bits, and is addressed by
/// that number with its sign turned.
pub proof fn law_numbers_of_groups(pid: u32, valid: bool, target: i32)
    requires
        call_ensures(valid_group, (pid,), valid),
        call_ensures(group_target, (pid,), target),
    ensures
        valid <==> 1 <= pid <= 2147483647,
        target + pid == 0,
{
}

/// A signal has done its work where it was sent or nobody is left; where it was not permitted
/// the leader decides, and anything else is a failure.
pub proof fn law_deliveries_of_signals(delivery: &Delivery, next: SignalNext)
    requires
        call_ensures(signal_group, (delivery,), next),
    ensures
        next is Done <==> *delivery is Sent || *delivery is NoSuchGroup,
        next is AskExit <==> *delivery is NotPermitted,
        next is Failed <==> *delivery is Failed,
        next matches SignalNext::Failed(error) ==> error == Error::CannotSignal,
{
}

/// What ending a group takes next: it is asked to end, its leader is given time, which may run
/// out or be cut short, the group is killed, and the child is reaped when the group is
/// forgotten. What fails but the wait ends it, and the group is then still known.
pub proof fn law_course_of_an_end(
    group: Option<u32>,
    child: bool,
    stage: StopStage,
    event: StopEvent,
    next: Stopped,
)
    requires
        call_ensures(stop, (group, child, stage, event), next),
    ensures
        group matches Some(pid) ==> {
            &&& stage is Begin ==> next == (Stopped {
                group: Some(pid),
                stage: StopStage::Terminating,
                action: StopAction::Signal { group: pid, signal: EndSignal::Terminate },
            })
            &&& stage is Terminating && event is Done ==> next == (Stopped {
                group: Some(pid),
                stage: StopStage::Waiting,
                action: StopAction::AwaitExit { group: pid },
            })
            &&& stage is Waiting ==> next == (Stopped {
                group: Some(pid),
                stage: StopStage::Killing,
                action: StopAction::Signal { group: pid, signal: EndSignal::Kill },
            })
        },
        (stage is Begin || stage is Waiting || stage is Terminating && event is Done)
            && group is None || stage is Killing && event is Done ==> next == (if child {
            Stopped { group: None, stage: StopStage::Reaping, action: StopAction::Reap }
        } else {
            Stopped { group: None, stage: StopStage::Ended, action: StopAction::Finish(Ok(())) }
        }),
        stage is Reaping && event is Done ==> next == (Stopped {
            group,
            stage: StopStage::Ended,
            action: StopAction::Finish(Ok(())),
        }),
        event matches StopEvent::Failed(error) ==> (!(stage is Begin) && !(stage is Waiting) ==> next
            == (Stopped {
            group,
            stage: StopStage::Ended,
            action: StopAction::Finish(Err(error)),
        })),
{
}

/// What starting a child takes next: the start is noted, the child is started, its group is
/// recorded, and that group is what comes of it.
pub proof fn law_course_of_a_start(
    stage: LaunchStage,
    event: LaunchEvent,
    next: (LaunchStage, LaunchAction),
)
    requires
        call_ensures(launch, (stage, event), next),
    ensures
        stage is Begin && event is Done ==> next == (LaunchStage::Start, LaunchAction::Start),
        stage is Start ==> (event matches LaunchEvent::Started(Some(group)) ==> next == (
            LaunchStage::Register(group),
            LaunchAction::RegisterGroup(group),
        )),
        stage matches LaunchStage::Register(group) ==> (event is Done ==> next == (
            LaunchStage::Ended,
            LaunchAction::Finish(Ok::<u32, Error>(group)),
        )),
        stage is Start && event == LaunchEvent::Started(None) ==> next == (
            LaunchStage::Ended,
            LaunchAction::Finish(Err::<u32, Error>(Error::MissingChildGroup)),
        ),
{
}

/// What follows a failure to start a child: one that could not be noted ends at once, one that
/// did not start is withdrawn first, and one that could not be recorded is stopped first. The
/// first failure is the one that is told, but for that of a withdrawal.
pub proof fn law_failures_of_a_start(
    stage: LaunchStage,
    error: Error,
    next: (LaunchStage, LaunchAction),
    done: (LaunchStage, LaunchAction),
)
    requires
        call_ensures(launch, (stage, LaunchEvent::Failed(error)), next),
        call_ensures(launch, (stage, LaunchEvent::Done), done),
    ensures
        stage is Begin ==> next == (
            LaunchStage::Ended,
            LaunchAction::Finish(Err::<u32, Error>(error)),
        ),
        stage is Start ==> next == (LaunchStage::Cancel(error), LaunchAction::CancelSpawn),
        stage is Register ==> next == (LaunchStage::Stop(error), LaunchAction::Stop),
        stage matches LaunchStage::Cancel(first) ==> done == (
            LaunchStage::Ended,
            LaunchAction::Finish(Err::<u32, Error>(first)),
        ) && next == (LaunchStage::Ended, LaunchAction::Finish(Err::<u32, Error>(error))),
        stage matches LaunchStage::Stop(first) ==> done == (
            LaunchStage::Ended,
            LaunchAction::Finish(Err::<u32, Error>(first)),
        ) && next == done,
{
}

/// What setting up a terminal takes next, while nothing fails: the input is a terminal, it is
/// opened, this program has it, its settings are saved, and then Codex is started as any child
/// is; the terminal that comes of it knows the group of Codex and who had it before.
pub proof fn law_course_of_a_terminal(
    stage: SpawnStage,
    event: SpawnEvent,
    next: (SpawnStage, SpawnAction),
)
    requires
        call_ensures(Terminal::spawn, (stage, event), next),
    ensures
        stage is Input && event == SpawnEvent::Answer(true) ==> next.0 is Device && next.1@
            is OpenDevice,
        stage is Device && event is Opened ==> next.0 is Foreground && next.1@ is ReadGroups,
        stage is Foreground ==> (event matches SpawnEvent::Groups { foreground, own } ==> (
        foreground == own ==> next.0 == SpawnStage::Settings(foreground) && next.1@
            is SaveSettings)),
        stage matches SpawnStage::Settings(foreground) ==> (event == SpawnEvent::Answer(true)
            ==> next.0 == SpawnStage::Launch(foreground, LaunchStage::Begin) && next.1@
            == SpawnActionView::Launch(LaunchAction::BeginSpawn)),
        stage matches SpawnStage::Launch(foreground, LaunchStage::Begin) ==> (event
            == SpawnEvent::Launch(LaunchEvent::Done) ==> next.0 == SpawnStage::Launch(
            foreground,
            LaunchStage::Start,
        ) && next.1@ == SpawnActionView::Launch(LaunchAction::Start)),
        stage matches SpawnStage::Launch(foreground, LaunchStage::Start) ==> (
        event matches SpawnEvent::Launch(LaunchEvent::Started(Some(group))) ==> next.0
            == SpawnStage::Launch(foreground, LaunchStage::Register(group)) && next.1@
            == SpawnActionView::Launch(LaunchAction::RegisterGroup(group))),
        stage matches SpawnStage::Launch(foreground, LaunchStage::Register(group)) ==> (event
            == SpawnEvent::Launch(LaunchEvent::Done) ==> next.1@ == SpawnActionView::Finish(
            Ok::<TerminalView, Error>(TerminalView { group: Some(group), foreground }),
        )),
{
}

/// What stands in the way of a terminal is told by name. Before its settings are saved the
/// terminal is not touched; afterwards it is handed back to whom had it, and its cursor and
/// text are made plain, before the failure is told.
pub proof fn law_failures_of_a_terminal(
    stage: SpawnStage,
    event: SpawnEvent,
    next: (SpawnStage, SpawnAction),
)
    requires
        call_ensures(Terminal::spawn, (stage, event), next),
    ensures
        stage is Input && event == SpawnEvent::Answer(false) ==> next.1@ == SpawnActionView::Finish(
            Err::<TerminalView, Error>(Error::NotInteractive),
        ),
        stage is Device ==> (event matches SpawnEvent::Failed(error) ==> next.1@
            == SpawnActionView::Finish(Err::<TerminalView, Error>(error))),
        stage is Foreground ==> (event matches SpawnEvent::Groups { foreground, own } ==> (
        foreground != own ==> next.1@ == SpawnActionView::Finish(
            Err::<TerminalView, Error>(Error::NotForeground),
        ))),
        stage is Settings && event == SpawnEvent::Answer(false) ==> next.1@
            == SpawnActionView::Finish(Err::<TerminalView, Error>(Error::CannotSaveTerminal)),
        stage matches SpawnStage::Launch(foreground, LaunchStage::Begin) ==> (
        event matches SpawnEvent::Launch(LaunchEvent::Failed(error)) ==> next.0
            == SpawnStage::Restoring(error) && next.1@ == (SpawnActionView::Restore {
            foreground,
            text: "\u{1b}[?25h\u{1b}[0m"@,
        })),
        stage matches SpawnStage::Launch(foreground, LaunchStage::Start) ==> (
        event matches SpawnEvent::Launch(LaunchEvent::Failed(_)) ==> next.0 == SpawnStage::Launch(
            foreground,
            LaunchStage::Cancel(Error::CannotStartTerminal),
        ) && next.1@ == SpawnActionView::Launch(LaunchAction::CancelSpawn)),
        stage matches SpawnStage::Launch(foreground, LaunchStage::Start) ==> (event
            == SpawnEvent::Launch(LaunchEvent::Started(None)) ==> next.0 == SpawnStage::Restoring(
            Error::MissingChildGroup,
        ) && next.1@ == (SpawnActionView::Restore {
            foreground,
            text: "\u{1b}[?25h\u{1b}[0m"@,
        })),
        stage matches SpawnStage::Launch(foreground, LaunchStage::Register(_)) ==> (
        event matches SpawnEvent::Launch(LaunchEvent::Failed(error)) ==> next.0
            == SpawnStage::Launch(foreground, LaunchStage::Stop(error)) && next.1@
            == SpawnActionView::Launch(LaunchAction::Stop)),
        stage matches SpawnStage::Launch(foreground, LaunchStage::Cancel(error)) ==> (event
            == SpawnEvent::Launch(LaunchEvent::Done) ==> next.0 == SpawnStage::Restoring(error)
            && next.1@ == (SpawnActionView::Restore {
            foreground,
            text: "\u{1b}[?25h\u{1b}[0m"@,
        })),
        stage matches SpawnStage::Launch(foreground, LaunchStage::Stop(error)) ==> (
        event is Launch ==> next.0 == SpawnStage::Restoring(error) && next.1@ == (
        SpawnActionView::Restore { foreground, text: "\u{1b}[?25h\u{1b}[0m"@ })),
        stage matches SpawnStage::Restoring(error) ==> next.1@ == SpawnActionView::Finish(
            Err::<TerminalView, Error>(error),
        ),
{
}

/// What shutting a terminal down came to: a failure to end it comes first, and then how Codex
/// ended tells the rest.
pub proof fn law_outcome_of_a_shutdown(
    watched: Watched,
    stopped: Result<(), Error>,
    result: Result<(), Error>,
)
    requires
        call_ensures(Terminal::shutdown, (watched, stopped), result),
    ensures
        stopped is Err ==> result == stopped,
        stopped is Ok ==> {
            &&& watched == Watched::Ended(true) ==> result == Ok::<(), Error>(())
            &&& watched == Watched::Ended(false) ==> result == Err::<(), Error>(
                Error::TerminalUnsuccessful,
            )
            &&& watched is TimedOut ==> result == Err::<(), Error>(Error::TerminalNotFinished)
            &&& (watched matches Watched::Failed(error) ==> result == Err::<(), Error>(error))
        },
{
}

/// What a terminal tells of itself: the group to wait for and to interrupt is that of Codex,
/// and it is left to whom had it, with its cursor seen and its text plain.
pub proof fn law_what_a_terminal_tells(
    terminal: &Terminal,
    awaited: Result<u32, Error>,
    interrupted: Option<u32>,
    left: (i32, &'static str),
)
    requires
        call_ensures(Terminal::wait, (terminal,), awaited),
        call_ensures(Terminal::interrupt, (terminal,), interrupted),
        call_ensures(Terminal::restore, (terminal,), left),
    ensures
        interrupted == terminal@.group,
        terminal@.group matches Some(group) ==> awaited == Ok::<u32, Error>(group),
        terminal@.group is None ==> awaited == Err::<u32, Error>(Error::TerminalStopped),
        left.0 == terminal@.foreground,
        left.1@ == "\u{1b}[?25h\u{1b}[0m"@,
{
}

/// How the closing of a terminal begins: Codex that did well is given five seconds to end by
/// itself, and any other is asked to end at once. Where Codex was ended before, only the rest
/// is done.
pub proof fn law_beginning_of_a_close(terminal: TerminalView, child: bool)
    ensures
        terminal.group matches Some(group) ==> {
            let gentle = terminal.close_begun(child, true);
            let harsh = terminal.close_begun(child, false);
            &&& gentle.terminal == terminal
            &&& gentle.stage is Awaiting
            &&& gentle.action == (CloseActionView::AwaitExit { group, seconds: 5 })
            &&& harsh.terminal == terminal
            &&& harsh.stage == (CloseStage::Stopping {
                watched: None,
                stage: StopStage::Terminating,
            })
            &&& harsh.action == CloseActionView::Stop(
                StopAction::Signal { group, signal: EndSignal::Terminate },
            )
        },
        terminal.group is None ==> {
            let gentle = terminal.close_begun(false, true);
            let harsh = terminal.close_begun(false, false);
            let restore = CloseActionView::Restore {
                foreground: terminal.foreground,
                text: "\u{1b}[?25h\u{1b}[0m"@,
            };
            &&& gentle.stage == CloseStage::Restoring(Err::<(), Error>(Error::TerminalStopped))
            &&& gentle.action == restore
            &&& harsh.stage == CloseStage::Restoring(Ok::<(), Error>(()))
            &&& harsh.action == restore
            &&& terminal.close_begun(true, true).action == CloseActionView::Stop(StopAction::Reap)
            &&& terminal.close_begun(true, false).action == CloseActionView::Stop(StopAction::Reap)
        },
{
}

/// What closing a terminal takes next, of which one step follows the other whatever Codex did:
/// it is ended as any child is, and what that comes to, or else how Codex ended, is what the
/// closing comes to when the terminal is left as it was found.
pub proof fn law_course_of_a_close(
    terminal: TerminalView,
    child: bool,
    watched: Option<Watched>,
    error: Error,
    result: Result<(), Error>,
)
    requires
        terminal.group is Some,
    ensures
        ({
            let group = terminal.group->0;
            let forgotten = TerminalView { group: None, foreground: terminal.foreground };
            let restore = CloseActionView::Restore {
                foreground: terminal.foreground,
                text: "\u{1b}[?25h\u{1b}[0m"@,
            };
            let done = CloseEvent::Stop(StopEvent::Done);
            let failed = CloseEvent::Stop(StopEvent::Failed(error));
            let told = terminal.close_next(
                child,
                CloseStage::Stopping { watched, stage: StopStage::Terminating },
                done,
            );
            let waited = terminal.close_next(
                child,
                CloseStage::Stopping { watched, stage: StopStage::Waiting },
                done,
            );
            let killed = terminal.close_next(
                true,
                CloseStage::Stopping { watched, stage: StopStage::Killing },
                done,
            );
            let reaped = forgotten.close_next(
                true,
                CloseStage::Stopping { watched, stage: StopStage::Reaping },
                done,
            );
            let refused = terminal.close_next(
                child,
                CloseStage::Stopping { watched, stage: StopStage::Terminating },
                failed,
            );
            let over = forgotten.close_next(
                child,
                CloseStage::Restoring(result),
                CloseEvent::Restored,
            );
            &&& told.terminal == terminal
            &&& told.stage == (CloseStage::Stopping { watched, stage: StopStage::Waiting })
            &&& told.action == CloseActionView::Stop(StopAction::AwaitExit { group })
            &&& waited.terminal == terminal
            &&& waited.stage == (CloseStage::Stopping { watched, stage: StopStage::Killing })
            &&& waited.action == CloseActionView::Stop(
                StopAction::Signal { group, signal: EndSignal::Kill },
            )
            &&& killed.terminal == forgotten
            &&& killed.stage == (CloseStage::Stopping { watched, stage: StopStage::Reaping })
            &&& killed.action == CloseActionView::Stop(StopAction::Reap)
            &&& reaped.action == restore
            &&& (watched is None ==> reaped.stage == CloseStage::Restoring(Ok::<(), Error>(())))
            &&& (watched == Some(Watched::Ended(true)) ==> reaped.stage == CloseStage::Restoring(
                Ok::<(), Error>(()),
            ))
            &&& (watched == Some(Watched::Ended(false)) ==> reaped.stage == CloseStage::Restoring(
                Err::<(), Error>(Error::TerminalUnsuccessful),
            ))
            &&& (watched == Some(Watched::TimedOut) ==> reaped.stage == CloseStage::Restoring(
                Err::<(), Error>(Error::TerminalNotFinished),
            ))
            &&& (watched matches Some(Watched::Failed(first)) ==> reaped.stage
                == CloseStage::Restoring(Err::<(), Error>(first)))
            &&& refused.action == restore
            &&& refused.stage == CloseStage::Restoring(Err::<(), Error>(error))
            &&& over.action == CloseActionView::Finish(result)
        }),
{
}

/// What follows the time that Codex was given: it is asked to end, whatever it did.
pub proof fn law_time_of_a_close(terminal: TerminalView, child: bool, watched: Watched)
    requires
        terminal.group is Some,
    ensures
        ({
            let next = terminal.close_next(
                child,
                CloseStage::Awaiting,
                CloseEvent::Watched(watched),
            );
            &&& next.terminal == terminal
            &&& next.stage == (CloseStage::Stopping {
                watched: Some(watched),
                stage: StopStage::Terminating,
            })
            &&& next.action == CloseActionView::Stop(
                StopAction::Signal { group: terminal.group->0, signal: EndSignal::Terminate },
            )
        }),
{
}

/// Whether bytes begin with those of a text.
pub open spec fn begins(bytes: Seq<u8>, text: Seq<char>) -> bool {
    let start = vstd::utf8::encode_utf8(text);
    bytes.len() >= start.len() && bytes.take(start.len() as int) == start
}

/// Whether a variable would tell Codex what to do: its name begins with `CODEX_` or with
/// `OPENAI_`, and it does not choose a certificate authority.
pub open spec fn steers_codex(key: Seq<u8>) -> bool {
    ||| begins(key, "CODEX_"@) && key != vstd::utf8::encode_utf8("CODEX_CA_CERTIFICATE"@)
    ||| begins(key, "OPENAI_"@)
}

/// Whether changes take from an environment of the given variables those that would tell Codex
/// what to do, in their order, and the log level, and then set the home and forbid a control
/// from elsewhere.
pub open spec fn keeps_apart(
    changes: Seq<EnvChangeView>,
    keys: Seq<Seq<u8>>,
    home: Seq<u8>,
) -> bool {
    let count = changes.len() - 3;
    &&& count >= 0
    &&& changes.take(count) == keys.filter(|key: Seq<u8>| steers_codex(key)).map_values(
        |key: Seq<u8>| EnvChangeView { key, value: None },
    )
    &&& changes[count] == (EnvChangeView {
        key: vstd::utf8::encode_utf8("RUST_LOG"@),
        value: None,
    })
    &&& changes[count + 1] == (EnvChangeView {
        key: vstd::utf8::encode_utf8("CODEX_HOME"@),
        value: Some(home),
    })
    &&& changes[count + 2] == (EnvChangeView {
        key: vstd::utf8::encode_utf8("CODEX_INTERNAL_APP_SERVER_REMOTE_CONTROL_DISABLED"@),
        value: Some(vstd::utf8::encode_utf8("1"@)),
    })
}

proof fn lemma_hidden(key: Seq<u8>)
    ensures
        is_hidden(key) <==> steers_codex(key),
{
    assert(path_bytes("CODEX_"@).is_prefix_of(key) <==> begins(key, "CODEX_"@)) by {
        if begins(key, "CODEX_"@) {
            assert(key.subrange(0, path_bytes("CODEX_"@).len() as int) =~= path_bytes("CODEX_"@));
        }
        if path_bytes("CODEX_"@).is_prefix_of(key) {
            assert(key.take(path_bytes("CODEX_"@).len() as int) =~= path_bytes("CODEX_"@));
        }
    }
    assert(path_bytes("OPENAI_"@).is_prefix_of(key) <==> begins(key, "OPENAI_"@)) by {
        if begins(key, "OPENAI_"@) {
            assert(key.subrange(0, path_bytes("OPENAI_"@).len() as int) =~= path_bytes(
                "OPENAI_"@,
            ));
        }
        if path_bytes("OPENAI_"@).is_prefix_of(key) {
            assert(key.take(path_bytes("OPENAI_"@).len() as int) =~= path_bytes("OPENAI_"@));
        }
    }
}

proof fn lemma_removed(keys: Seq<Seq<u8>>)
    ensures
        removals(keys) == keys.filter(|key: Seq<u8>| steers_codex(key)).map_values(
            |key: Seq<u8>| EnvChangeView { key, value: None },
        ),
    decreases keys.len(),
{
    reveal(Seq::filter);
    let pred = |key: Seq<u8>| steers_codex(key);
    let gone = |key: Seq<u8>| EnvChangeView { key, value: None };
    if keys.len() == 0 {
        assert(keys.filter(pred).map_values(gone) =~= Seq::<EnvChangeView>::empty());
    } else {
        lemma_removed(keys.drop_last());
        lemma_hidden(keys.last());
        let before = keys.drop_last().filter(pred);
        if steers_codex(keys.last()) {
            assert(keys.filter(pred) == before.push(keys.last()));
            assert(before.push(keys.last()).map_values(gone) =~= before.map_values(gone).push(
                gone(keys.last()),
            ));
        }
    }
}

proof fn lemma_kept_apart(changes: Seq<EnvChangeView>, keys: Seq<Seq<u8>>, home: Seq<u8>)
    requires
        changes == environment_changes(keys, home),
    ensures
        keeps_apart(changes, keys, home),
{
    lemma_removed(keys);
    let count = changes.len() - 3;
    assert(changes.take(count) =~= removals(keys));
}

/// The helper is the executable in the home that it is given, with the keyring as the place of
/// its credentials.
pub proof fn law_command_of_the_helper(
    codex: &Codex,
    home: &[u8],
    keys: &Vec<Vec<u8>>,
    command: ChildCommand,
)
    requires
        call_ensures(Codex::helper, (codex, home, keys), command),
    ensures
        command@.program == codex@.executable,
        command@.cwd == home@,
        command@.args == seq![
            vstd::utf8::encode_utf8("-c"@),
            vstd::utf8::encode_utf8("cli_auth_credentials_store=\"keyring\""@),
            vstd::utf8::encode_utf8("app-server"@),
            vstd::utf8::encode_utf8("--stdio"@),
        ],
        keeps_apart(command@.environment, bytes_list(keys@), home@),
{
    lemma_kept_apart(command@.environment, bytes_list(keys@), home@);
}

/// A coding server is the executable in the working directory, with the home of the user, and
/// keeps its credentials in memory alone.
pub proof fn law_command_of_a_server(codex: &Codex, keys: &Vec<Vec<u8>>, command: ChildCommand)
    requires
        call_ensures(Codex::coding, (codex, keys), command),
    ensures
        command@.program == codex@.executable,
        command@.cwd == codex@.cwd,
        command@.args == seq![
            vstd::utf8::encode_utf8("-c"@),
            vstd::utf8::encode_utf8("cli_auth_credentials_store=\"ephemeral\""@),
            vstd::utf8::encode_utf8("app-server"@),
            vstd::utf8::encode_utf8("--stdio"@),
        ],
        keeps_apart(command@.environment, bytes_list(keys@), codex@.home),
{
    lemma_kept_apart(command@.environment, bytes_list(keys@), codex@.home);
}

/// The terminal is the executable in the working directory, with the home of the user and
/// credentials in memory alone, at the socket that it is given; a session to continue stands
/// behind a mark, so that it is never taken for an option.
pub proof fn law_command_of_the_terminal(
    codex: &Codex,
    socket: &str,
    resume: Option<&str>,
    keys: &Vec<Vec<u8>>,
    command: ChildCommand,
)
    requires
        call_ensures(Codex::terminal, (codex, socket, resume, keys), command),
    ensures
        command@.program == codex@.executable,
        command@.cwd == codex@.cwd,
        command@.args.take(4) == seq![
            vstd::utf8::encode_utf8("-c"@),
            vstd::utf8::encode_utf8("cli_auth_credentials_store=\"ephemeral\""@),
            vstd::utf8::encode_utf8("--remote"@),
            vstd::utf8::encode_utf8("unix://"@) + vstd::utf8::encode_utf8(socket@),
        ],
        resume is None ==> command@.args.len() == 4,
        resume matches Some(session) ==> command@.args.skip(4) == seq![
            vstd::utf8::encode_utf8("resume"@),
            vstd::utf8::encode_utf8("--"@),
            vstd::utf8::encode_utf8(session@),
        ],
        keeps_apart(command@.environment, bytes_list(keys@), codex@.home),
{
    lemma_kept_apart(command@.environment, bytes_list(keys@), codex@.home);
}

/// Codex is asked for its version with nothing else, and the one answer that is taken is that
/// of the version that is supported, on a line of its own.
pub proof fn law_versions(
    codex: &Codex,
    keys: &Vec<Vec<u8>>,
    command: ChildCommand,
    reply: &VersionReply,
    result: Result<(), Error>,
)
    requires
        call_ensures(Codex::version, (codex, keys), command),
        call_ensures(check_version, (reply,), result),
    ensures
        command@.program == codex@.executable,
        command@.cwd == codex@.cwd,
        command@.args == seq![vstd::utf8::encode_utf8("--version"@)],
        keeps_apart(command@.environment, bytes_list(keys@), codex@.home),
        *reply is TimedOut ==> result == Err::<(), Error>(Error::VersionTimedOut),
        *reply is Failed ==> result == Err::<(), Error>(Error::CannotExecuteCodex),
        *reply matches VersionReply::Finished { success, output } ==> {
            let told = success && output@ == vstd::utf8::encode_utf8("codex-cli 0.154.0"@).push(
                10u8,
            );
            &&& told ==> result == Ok::<(), Error>(())
            &&& !told ==> result == Err::<(), Error>(Error::UnsupportedVersion)
        },
{
    lemma_kept_apart(command@.environment, bytes_list(keys@), codex@.home);
}

/// The program that is looked for is the one that is configured, or else `codex`; one that is
/// configured as nothing is an error.
pub proof fn law_programs(configured: Option<&[u8]>, named: Result<Vec<u8>, Error>)
    requires
        call_ensures(program, (configured,), named),
    ensures
        configured is None ==> named is Ok && named->Ok_0@ == vstd::utf8::encode_utf8("codex"@),
        configured is Some && configured->0@.len() > 0 ==> named is Ok && named->Ok_0@
            == configured->0@,
        configured is Some && configured->0@.len() == 0 ==> named == Err::<Vec<u8>, Error>(
            Error::EmptyCodexPath,
        ),
{
}

/// Codex keeps its state where `CODEX_HOME` says, taken from the working directory, or else in
/// `.codex` of the home directory; a variable that is set to nothing is an error.
pub proof fn law_homes_of_codex(
    executable: Vec<u8>,
    cwd: Vec<u8>,
    configured: Option<&[u8]>,
    home: Option<&[u8]>,
    codex: Result<Codex, Error>,
)
    requires
        call_ensures(Codex::resolve, (executable, cwd, configured, home), codex),
    ensures
        codex is Ok ==> codex->Ok_0@.executable == executable@ && codex->Ok_0@.cwd == cwd@,
        configured is Some && configured->0@.len() > 0 ==> codex is Ok && codex->Ok_0@.home == (
        if configured->0@[0] == 47u8 {
            configured->0@
        } else if cwd@.len() == 0 || cwd@.last() == 47u8 {
            cwd@ + configured->0@
        } else {
            cwd@.push(47u8) + configured->0@
        }),
        configured is Some && configured->0@.len() == 0 ==> codex == Err::<Codex, Error>(
            Error::EmptyCodexHome,
        ),
        configured is None && home is Some && home->0@.len() > 0 ==> codex is Ok
            && codex->Ok_0@.home == inside(home->0@, ".codex"@),
        configured is None && (home is None || home->0@.len() == 0) ==> codex == Err::<
            Codex,
            Error,
        >(Error::HomeUnset),
{
    if home is Some {
        reveal_strlit(".codex");
        lemma_inside(home->0@, ".codex"@);
    }
}

/// The first file that someone may execute is chosen; where there is none, Codex is not found.
pub proof fn law_chosen_executables(facts: &Vec<Option<FileFacts>>, chosen: Result<usize, Error>)
    requires
        call_ensures(find_executable, (facts,), chosen),
    ensures
        chosen matches Ok(i) ==> {
            &&& i < facts@.len()
            &&& can_be_run(facts@[i as int])
            &&& forall|j: int| 0 <= j < i ==> !#[trigger] can_be_run(facts@[j])
        },
        chosen matches Err(error) ==> {
            &&& error == Error::CodexNotFound
            &&& forall|j: int| 0 <= j < facts@.len() ==> !#[trigger] can_be_run(facts@[j])
        },
{
    assert forall|j: int|
        0 <= j < facts@.len() && !is_executable(#[trigger] facts@[j]) implies !can_be_run(
        facts@[j],
    ) by {}
}

/// Whether a file is a regular one that its owner, its group or anyone may execute.
pub open spec fn can_be_run(facts: Option<FileFacts>) -> bool {
    facts matches Some(known) && known.file && known.mode & 0o111 != 0
}

/// A program whose path begins at the root lies there and nowhere else.
pub proof fn law_rooted_programs(path: &[u8], search: &[u8], paths: Vec<Vec<u8>>)
    requires
        call_ensures(candidates, (path, search), paths),
        path@.len() > 0,
        path@[0] == 47u8,
    ensures
        paths@.len() == 1,
        paths@[0]@ == path@,
{
    assert(bytes_list(paths@).len() == 1);
    assert(bytes_list(paths@)[0] == paths@[0]@);
}

/// A program without a separator in its path is looked for in the directories of the search
/// path, which stand between colons: the first comes first, and the others follow as they do
/// by themselves.
pub proof fn law_bare_programs(
    path: &[u8],
    first: &[u8],
    rest: &[u8],
    search: &[u8],
    alone: Vec<Vec<u8>>,
    others: Vec<Vec<u8>>,
    all: Vec<Vec<u8>>,
)
    requires
        call_ensures(candidates, (path, first), alone),
        call_ensures(candidates, (path, rest), others),
        call_ensures(candidates, (path, search), all),
        !path@.contains(47u8),
        path@.len() > 0,
        !first@.contains(58u8),
        search@ == first@.push(58u8) + rest@,
    ensures
        alone@.len() == 1,
        alone@[0]@ == (if first@.len() == 0 || first@.last() == 47u8 {
            first@ + path@
        } else {
            first@.push(47u8) + path@
        }),
        bytes_list(all@) == bytes_list(alone@) + bytes_list(others@),
{
    law_text_without_marks_is_one_part(path@, 47u8);
    let parts = split_parts(path@, 47u8);
    assert(!has_directory(path@)) by {
        assert(parts.len() == 1);
    }
    assert(path@.contains(path@[0]));
    assert(!is_rooted(path@));
    law_text_without_marks_is_one_part(first@, 58u8);
    law_parts_are_cut_at_each_mark(first@, 58u8, rest@);
    let place = |directory: Seq<u8>| joined_path(directory, path@);
    assert(candidates_of(path@, first@) =~= seq![place(first@)]);
    assert(bytes_list(alone@).len() == 1);
    assert(bytes_list(alone@)[0] == alone@[0]@);
    assert((seq![first@] + split_parts(rest@, 58u8)).map_values(place) =~= seq![
        place(first@),
    ] + split_parts(rest@, 58u8).map_values(place));
}

/// A program whose path has a part and, behind a separator, another that is neither empty nor a
/// single dot, whatever follows, lies at that path and nowhere else.
pub proof fn law_placed_programs(
    path: &[u8],
    directory: Seq<u8>,
    rest: Seq<u8>,
    n: int,
    search: &[u8],
    paths: Vec<Vec<u8>>,
)
    requires
        call_ensures(candidates, (path, search), paths),
        path@ == directory.push(47u8) + rest,
        directory.len() > 0,
        !directory.contains(47u8),
        1 <= n <= rest.len(),
        forall|i: int| 0 <= i < n ==> rest[i] != 47u8,
        n < rest.len() ==> rest[n] == 47u8,
        rest.take(n) != vstd::utf8::encode_utf8("."@),
    ensures
        paths@.len() == 1,
        paths@[0]@ == path@,
{
    law_parts_are_cut_at_each_mark(directory, 47u8, rest);
    law_first_part_ends_at_the_first_mark(rest, 47u8, n);
    let parts = split_parts(path@, 47u8);
    assert(parts[0] == directory);
    assert(parts[1] == rest.take(n));
    assert(is_component(parts, 0));
    assert(is_component(parts, 1));
    assert(has_directory(path@));
    assert(bytes_list(paths@).len() == 1);
    assert(bytes_list(paths@)[0] == paths@[0]@);
}

/// Codex in a terminal is ended as any child is, and its group is forgotten when that one's is;
/// who had the terminal stays known.
pub proof fn law_terminals_are_ended(
    terminal: &mut Terminal,
    child: bool,
    stage: StopStage,
    event: StopEvent,
    next: (StopStage, StopAction),
    stopped: Stopped,
)
    requires
        call_ensures(Terminal::terminate, (terminal, child, stage, event), next),
        call_ensures(stop, (old(terminal)@.group, child, stage, event), stopped),
    ensures
        next == (stopped.stage, stopped.action),
        final(terminal)@.group == stopped.group,
        final(terminal)@.foreground == old(terminal)@.foreground,
{
}

} // verus!
