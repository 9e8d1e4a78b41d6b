//! The course of each command from its first step to its last: what is done after what, what is
//! said to the user, and what comes of a failure on the way.

use crate::error::Error;
use vstd::prelude::*;

use crate::auth::{Login, LoginOutcome};
use crate::cli::ActionView;
use crate::flow::{
    both, login_next, settled, ExecuteAction, ExecuteEventView, ExecuteStageView, ExecutionView,
    LoginActionView, LoginEvent, LoginStage,
};
use crate::profile::Identity;
use crate::session::{
    run_next, watch_next, RunActionView, RunEventView, RunStageView, WatchAction, WatchEvent,
    WatchStage,
};

verus! {

/// What was done and the tidying up after it succeed together: a failure of the work counts
/// first, then one of the stopping, then one of the clearing; and what was found is handed on
/// only where nothing failed.
pub proof fn law_first_failure_counts<T>(
    result: Result<T, Error>,
    stopped: Result<(), Error>,
    cleared: Result<(), Error>,
)
    ensures
        settled(result, stopped, cleared) is Ok <==> result is Ok && stopped is Ok && cleared is Ok,
        result is Ok && stopped is Ok && cleared is Ok ==> settled(result, stopped, cleared)
            == result,
        result matches Err(error) ==> settled(result, stopped, cleared) == Err::<T, Error>(error),
        result is Ok && stopped is Err ==> settled(result, stopped, cleared) == Err::<T, Error>(
            stopped->Err_0,
        ),
        result is Ok && stopped is Ok && cleared is Err ==> settled(result, stopped, cleared)
            == Err::<T, Error>(cleared->Err_0),
        both(stopped, cleared) is Ok <==> stopped is Ok && cleared is Ok,
        stopped is Err ==> both(stopped, cleared) == stopped,
        stopped is Ok ==> both(stopped, cleared) == cleared,
{
}

/// A run: the helper is started and the account verified, the helper is stopped and its record
/// cleared, and only then the terminal is set up and served; a run that went well gives the
/// terminal time to end, and any other ends it at once.
pub proof fn law_course_of_a_run(session: Result<Option<Seq<char>>, Error>, error: Error)
    ensures
        ({
            let one = run_next(RunStageView::Opening, RunEventView::Done);
            let two = run_next(one.0, RunEventView::Done);
            let three = run_next(
                two.0,
                RunEventView::Finished { stopped: Ok(()), cleared: Ok(()) },
            );
            let four = run_next(three.0, RunEventView::Done);
            let five = run_next(four.0, RunEventView::Done);
            let six = run_next(five.0, RunEventView::Served(session));
            let seven = run_next(six.0, RunEventView::Done);
            let unclosed = run_next(six.0, RunEventView::Failed(error));
            &&& one.1 is VerifyProfile
            &&& two.1 is FinishAuth
            &&& three.1 is Listen
            &&& four.1 is SpawnTerminal
            &&& five.1 is Serve
            &&& session is Ok ==> six.1 is ShutdownTerminal
            &&& session is Err ==> six.1 is TerminateTerminal
            &&& seven.1 == RunActionView::Finish(session)
            &&& session is Ok ==> unclosed.1 == RunActionView::Finish(
                Err::<Option<Seq<char>>, Error>(error),
            )
            &&& session is Err ==> unclosed.1 == RunActionView::Finish(session)
            &&& seven.0 is Ended && unclosed.0 is Ended
        }),
{
}

/// What fails in a run before Codex is served ends it with that failure; an account that could
/// not be verified ends it only after the helper was stopped.
pub proof fn law_failures_of_a_run(
    error: Error,
    stopped: Result<(), Error>,
    cleared: Result<(), Error>,
)
    ensures
        ({
            let failed = RunEventView::Failed(error);
            let end = RunActionView::Finish(Err::<Option<Seq<char>>, Error>(error));
            let unverified = run_next(RunStageView::Verifying, failed);
            let verified = run_next(RunStageView::Verifying, RunEventView::Done);
            let finished = RunEventView::Finished { stopped, cleared };
            &&& run_next(RunStageView::Opening, failed).1 == end
            &&& run_next(RunStageView::Listening, failed).1 == end
            &&& run_next(RunStageView::Spawning, failed).1 == end
            &&& unverified.1 is FinishAuth
            &&& run_next(unverified.0, finished).1 == end
            &&& stopped matches Err(first) ==> run_next(verified.0, finished).1
                == RunActionView::Finish(Err::<Option<Seq<char>>, Error>(first))
            &&& stopped is Ok && cleared is Err ==> run_next(verified.0, finished).1
                == RunActionView::Finish(Err::<Option<Seq<char>>, Error>(cleared->Err_0))
        }),
{
}

/// While Codex is served: whatever ends first, the rest is told to end and awaited, and the first
/// failure counts, in the order in which the ends are awaited. A terminal that ends without
/// success is a failure.
pub proof fn law_course_of_a_watch(
    terminal: Result<bool, Error>,
    connections: Result<(), Error>,
    authentication: Result<(), Error>,
)
    ensures
        ({
            let seen = match terminal {
                Ok(true) => Ok(()),
                Ok(false) => Err(Error::TerminalUnsuccessful),
                Err(error) => Err(error),
            };
            let first = |a: Result<(), Error>, b: Result<(), Error>|
                if a is Err {
                    a
                } else {
                    b
                };
            let served = WatchEvent::Connections(connections);
            let hosted = WatchEvent::Authentication(authentication);
            // the terminal ends first.
            let one = watch_next(WatchStage::Watching, WatchEvent::Terminal(terminal));
            let two = watch_next(one.0, served);
            let three = watch_next(two.0, hosted);
            // the connections end first.
            let early = watch_next(WatchStage::Watching, served);
            let late = watch_next(early.0, hosted);
            // the authentication ends first.
            let alone = watch_next(WatchStage::Watching, hosted);
            let last = watch_next(alone.0, served);
            &&& one.1 is AwaitConnections
            &&& two.1 is AwaitAuthentication
            &&& three.1 == WatchAction::Finish(first(first(seen, connections), authentication))
            &&& early.1 is AwaitAuthentication
            &&& late.1 == WatchAction::Finish(first(connections, authentication))
            &&& alone.1 is AwaitConnections
            &&& last.1 == WatchAction::Finish(first(authentication, connections))
        }),
{
}

/// An interrupt belongs to the terminal and ends nothing by itself; any other signal, and an
/// interrupt that cannot be passed on, ends the run with a failure.
pub proof fn law_signals_during_a_watch(
    error: Error,
    connections: Result<(), Error>,
    authentication: Result<(), Error>,
)
    requires
        connections is Ok,
        authentication is Ok,
    ensures
        ({
            let served = WatchEvent::Connections(connections);
            let hosted = WatchEvent::Authentication(authentication);
            let interrupted = watch_next(
                WatchStage::Watching,
                WatchEvent::Signal { interrupt: true },
            );
            let passed = watch_next(interrupted.0, WatchEvent::Interrupted(Ok(())));
            let stuck = watch_next(interrupted.0, WatchEvent::Interrupted(Err(error)));
            let ended = watch_next(WatchStage::Watching, WatchEvent::Signal { interrupt: false });
            &&& interrupted.1 is Interrupt
            &&& passed.1 is Watch && passed.0 is Watching
            &&& stuck.1 is AwaitConnections
            &&& watch_next(watch_next(stuck.0, served).0, hosted).1 == WatchAction::Finish(
                Err::<(), Error>(error),
            )
            &&& ended.1 is AwaitConnections
            &&& watch_next(watch_next(ended.0, served).0, hosted).1 == WatchAction::Finish(
                Err::<(), Error>(Error::Interrupted),
            )
        }),
{
}

/// The first steps of every command but the list: the profiles are located, Codex is found, and
/// the profile is locked, which is made only in order to log in.
pub proof fn law_beginning_of_a_command(command: ActionView, error: Error)
    requires
        !(command is List),
    ensures
        ({
            let begun = ExecutionView { command, stage: ExecuteStageView::Locating };
            let one = begun.next(ExecuteEventView::Done);
            let two = one.0.next(ExecuteEventView::Done);
            let three = two.0.next(ExecuteEventView::Done);
            let failed = ExecuteEventView::Failed(error);
            &&& one.1.action is Resolve && one.1.print is None
            &&& two.1.action == (ExecuteAction::Lock { create: command is Login })
            &&& two.1.print is None
            &&& command is Run ==> three.1.action is Run && three.0.stage is Running
            &&& !(command is Run) ==> three.1.action is StartHelper && three.0.stage is Starting
            &&& three.0.command == command
            &&& begun.next(failed).1.action == ExecuteAction::Finish(Err::<(), Error>(error))
            &&& one.0.next(failed).1.action == ExecuteAction::Finish(Err::<(), Error>(error))
            &&& two.0.next(failed).1.action == ExecuteAction::Finish(Err::<(), Error>(error))
            &&& one.0.next(ExecuteEventView::Interrupted).1.action == ExecuteAction::Finish(
                Err::<(), Error>(Error::Interrupted),
            )
        }),
{
}

/// The list: the profiles are located and read, and what is shown of them is printed.
pub proof fn law_course_of_a_list(text: Seq<char>, error: Error)
    ensures
        ({
            let begun = ExecutionView {
                command: ActionView::List,
                stage: ExecuteStageView::Locating,
            };
            let one = begun.next(ExecuteEventView::Done);
            let two = one.0.next(ExecuteEventView::Listed(text));
            let failed = one.0.next(ExecuteEventView::Failed(error));
            &&& one.1.action is ListProfiles && one.1.print is None
            &&& two.1.print == Some(text)
            &&& two.1.action matches ExecuteAction::Finish(result) && result is Ok
            &&& failed.1.print is None
            &&& failed.1.action == ExecuteAction::Finish(Err::<(), Error>(error))
        }),
{
}

/// A run of Codex that went well tells the user how to continue its session, if it had one,
/// under the profile's name; the record of children is cleared first. A run that failed, and a
/// record that could not be cleared, say nothing.
pub proof fn law_end_of_a_run(
    name: Seq<char>,
    resume: Option<Seq<char>>,
    session: Result<Option<Seq<char>>, Error>,
    error: Error,
)
    ensures
        ({
            let running = ExecutionView {
                command: ActionView::Run { name, resume },
                stage: ExecuteStageView::Running,
            };
            let one = running.next(ExecuteEventView::Ran(session));
            let two = one.0.next(ExecuteEventView::Done);
            let unclear = one.0.next(ExecuteEventView::Failed(error));
            &&& one.1.action is ClearRuntime && one.1.print is None
            &&& session matches Ok(Some(thread)) ==> two.1.print == Some(
                "To continue this session with Coduck, run:\n  coduck run "@ + name
                    + " --resume "@ + thread + "\n"@,
            )
            &&& session matches Ok(None) ==> two.1.print is None
            &&& session is Ok ==> (two.1.action matches ExecuteAction::Finish(result) && result
                is Ok)
            &&& session is Err ==> two.1.print is None && two.1.action == ExecuteAction::Finish(
                Err::<(), Error>(session->Err_0),
            )
            &&& unclear.1.print is None
            &&& session is Ok ==> unclear.1.action == ExecuteAction::Finish(
                Err::<(), Error>(error),
            )
            &&& session is Err ==> unclear.1.action == ExecuteAction::Finish(
                Err::<(), Error>(session->Err_0),
            )
        }),
{
}

/// A login and a logout: the helper is started and introduced, does its work, is stopped whatever
/// came of it, and the record of children is cleared; the first failure counts. Only a logout
/// that succeeded is told to the user, by the profile's name.
pub proof fn law_helper_commands(
    command: ActionView,
    work: Result<(), Error>,
    stopped: Result<(), Error>,
    cleared: Result<(), Error>,
)
    requires
        command is Login || command is Logout,
    ensures
        ({
            let event = |result: Result<(), Error>|
                match result {
                    Ok(_) => ExecuteEventView::Done,
                    Err(error) => ExecuteEventView::Failed(error),
                };
            let starting = ExecutionView { command, stage: ExecuteStageView::Starting };
            let one = starting.next(ExecuteEventView::Done);
            let two = one.0.next(ExecuteEventView::Done);
            let three = two.0.next(event(work));
            let four = three.0.next(event(stopped));
            let five = four.0.next(event(cleared));
            &&& one.1.action is Initialize && one.1.print is None
            &&& command is Login ==> two.1.action is LogIn
            &&& command is Logout ==> two.1.action is LogOut
            &&& two.1.print is None
            &&& three.1.action is StopHelper
            &&& three.1.print == (match command {
                ActionView::Logout { name } => if work is Ok {
                    Some("Removed local login for "@ + name + ".\n"@)
                } else {
                    None
                },
                _ => None,
            })
            &&& four.1.action is ClearRuntime && four.1.print is None
            &&& five.1.print is None
            &&& work is Err ==> five.1.action == ExecuteAction::Finish(work)
            &&& work is Ok && stopped is Err ==> five.1.action == ExecuteAction::Finish(stopped)
            &&& work is Ok && stopped is Ok && cleared is Err ==> five.1.action
                == ExecuteAction::Finish(cleared)
            &&& work is Ok && stopped is Ok && cleared is Ok ==> (
            five.1.action matches ExecuteAction::Finish(result) && result is Ok)
        }),
{
}

/// A helper that does not start leaves no record behind, one that is not introduced is stopped,
/// and an interrupted logout tells the user to try again; each is reported as it is.
pub proof fn law_failures_of_helper_commands(command: ActionView, error: Error, other: Error)
    requires
        command is Login || command is Logout,
    ensures
        ({
            let starting = ExecutionView { command, stage: ExecuteStageView::Starting };
            let started = ExecutionView { command, stage: ExecuteStageView::Initializing };
            let working = ExecutionView { command, stage: ExecuteStageView::Working };
            let unstarted = starting.next(ExecuteEventView::Failed(error));
            let shy = started.next(ExecuteEventView::Failed(error));
            let cut = started.next(ExecuteEventView::Interrupted);
            let stopped = working.next(ExecuteEventView::Interrupted);
            let end = |execution: ExecutionView|
                execution.next(ExecuteEventView::Done).0.next(ExecuteEventView::Done).1.action;
            &&& unstarted.1.action is ClearRuntime
            &&& unstarted.0.next(ExecuteEventView::Done).1.action == ExecuteAction::Finish(
                Err::<(), Error>(error),
            )
            &&& unstarted.0.next(ExecuteEventView::Failed(other)).1.action
                == ExecuteAction::Finish(Err::<(), Error>(error))
            &&& shy.1.action is StopHelper && end(shy.0) == ExecuteAction::Finish(
                Err::<(), Error>(error),
            )
            &&& cut.1.action is StopHelper && end(cut.0) == ExecuteAction::Finish(
                Err::<(), Error>(Error::Interrupted),
            )
            &&& command is Logout ==> stopped.1.action is StopHelper && stopped.1.print is None
                && end(stopped.0) == ExecuteAction::Finish(
                Err::<(), Error>(Error::LogoutInterrupted),
            )
        }),
{
}

/// How an account is shown: by its address, or else by its account.
pub open spec fn shown(identity: Identity) -> Seq<char> {
    match identity.email {
        Some(email) => email@,
        None => identity.account_id@,
    }
}

/// A login: an account that is signed in is verified as it is; otherwise the user is told the
/// address, which the browser opens too, and the login is awaited. In the end the verified
/// account is shown.
pub proof fn law_course_of_a_login(login: Login, identity: Identity)
    ensures
        ({
            let signed_in = login_next(LoginStage::Asking, LoginEvent::SignedIn(true));
            let one = login_next(LoginStage::Asking, LoginEvent::SignedIn(false));
            let two = login_next(one.0, LoginEvent::Begun(login));
            let three = login_next(two.0, LoginEvent::Done);
            let ready = login_next(three.0, LoginEvent::Completed(LoginOutcome::Ready));
            let open = login_next(three.0, LoginEvent::Completed(LoginOutcome::Unconfirmed));
            let anew = login_next(open.0, LoginEvent::Done);
            let end = login_next(ready.0, LoginEvent::Verified(identity));
            &&& signed_in.1.action is VerifyProfile && signed_in.1.print is None
            &&& one.1.action is BeginLogin && one.1.print is None
            &&& two.1.action == (LoginActionView::OpenBrowser { url: login.auth_url@ })
            &&& two.1.print == Some(
                "Complete login in your browser:\n"@ + login.auth_url@ + "\n"@,
            )
            &&& three.1.action is AwaitLogin && three.1.print is None
            &&& ready.1.action is VerifyProfile && ready.1.print is None
            &&& open.1.action is RestartHelper
            &&& anew.1.action is VerifyProfile
            &&& signed_in.0 == ready.0 && anew.0 == ready.0
            &&& end.1.print == Some(
                "Verified "@ + shown(identity) + " ("@ + identity.plan_type@ + ")\n"@,
            )
            &&& end.1.action matches LoginActionView::Finish(result) && result is Ok
        }),
{
}

/// What fails in a login ends it with that failure. A login that is awaited is given up first, by
/// its identifier; and an interrupt says what was interrupted.
pub proof fn law_failures_of_a_login(login: Login, error: Error)
    ensures
        ({
            let failed = LoginEvent::Failed(error);
            let end = LoginActionView::Finish(Err::<(), Error>(error));
            let given_up = LoginActionView::CancelLogin { login_id: login.login_id@ };
            let lost = login_next(LoginStage::Waiting(login), failed);
            let cut = login_next(LoginStage::Waiting(login), LoginEvent::Interrupted);
            let interrupted = LoginActionView::Finish(Err::<(), Error>(Error::LoginInterrupted));
            let unverified = LoginActionView::Finish(
                Err::<(), Error>(Error::VerificationInterrupted),
            );
            &&& login_next(LoginStage::Asking, failed).1.action == end
            &&& login_next(LoginStage::Beginning, failed).1.action == end
            &&& login_next(LoginStage::Restarting, failed).1.action == end
            &&& login_next(LoginStage::Verifying, failed).1.action == end
            &&& lost.1.action == given_up
            &&& login_next(lost.0, LoginEvent::Done).1.action == end
            &&& cut.1.action == given_up
            &&& login_next(cut.0, LoginEvent::Done).1.action == interrupted
            &&& login_next(LoginStage::Asking, LoginEvent::Interrupted).1.action == interrupted
            &&& login_next(LoginStage::Beginning, LoginEvent::Interrupted).1.action == interrupted
            &&& login_next(LoginStage::Restarting, LoginEvent::Interrupted).1.action == unverified
            &&& login_next(LoginStage::Verifying, LoginEvent::Interrupted).1.action == unverified
        }),
{
}

} // verus!
