//! The course of a command: what is done after what, and what is left behind when something
//! fails.

use crate::auth::{Login, LoginOutcome, Token};
use crate::cli::Action;
use crate::error::Error;
use crate::profile::{Identity, Metadata};
use vstd::prelude::*;
use vstd::string::*;

use crate::cli::ActionView;
use crate::profile::{text_view, IdentityView};

verus! {

/// For how many seconds the lock of a profile is waited for.
pub const LOCK_TIMEOUT: u64 = 7;

/// For how many milliseconds nothing is done before a lock, or the record of children, is
/// tried again.
pub const RETRY_PAUSE: u64 = 20;

/// For how many seconds the browser may take to open.
pub const BROWSER_TIMEOUT: u64 = 5;

/// For how many seconds a login that is given up is waited for.
pub const CANCEL_TIMEOUT: u64 = 3;

/// What work and the tidying up after it came to: the first failure counts, and what was
/// found is handed on only where nothing failed.
pub open spec fn settled<T>(
    result: Result<T, Error>,
    stopped: Result<(), Error>,
    cleared: Result<(), Error>,
) -> Result<T, Error> {
    match result {
        Err(error) => Err(error),
        Ok(value) => match stopped {
            Err(error) => Err(error),
            Ok(_) => match cleared {
                Err(error) => Err(error),
                Ok(_) => Ok(value),
            },
        },
    }
}

/// Decides what work and the tidying up after it came to.
pub fn settle<T>(
    result: Result<T, Error>,
    stopped: Result<(), Error>,
    cleared: Result<(), Error>,
) -> (settlement: Result<T, Error>)
    ensures
        settlement == settled(result, stopped, cleared),
{
    match result {
        Err(error) => Err(error),
        Ok(value) => match stopped {
            Err(error) => Err(error),
            Ok(_) => match cleared {
                Err(error) => Err(error),
                Ok(_) => Ok(value),
            },
        },
    }
}

/// How an attempt to take a lock went.
pub enum LockAttempt {
    Acquired,
    /// Somebody else has it.
    Busy,
    Failed(Error),
    /// The time is up.
    TimedOut,
}

/// What follows an attempt to take a lock.
pub enum LockNext {
    Go,
    /// Try again after a moment.
    Retry,
    Failed(Error),
}

/// Decides what follows an attempt to take the lock of a profile: somebody else's short use
/// of it is waited for.
pub fn wait_for_profile_lock(attempt: LockAttempt) -> (next: LockNext)
    ensures
        next == (match attempt {
            LockAttempt::Acquired => LockNext::Go,
            LockAttempt::Busy => LockNext::Retry,
            LockAttempt::Failed(error) => LockNext::Failed(error),
            LockAttempt::TimedOut => LockNext::Failed(Error::ProfileBusy),
        }),
{
    match attempt {
        LockAttempt::Acquired => LockNext::Go,
        LockAttempt::Busy => LockNext::Retry,
        LockAttempt::Failed(error) => LockNext::Failed(error),
        LockAttempt::TimedOut => LockNext::Failed(Error::ProfileBusy),
    }
}

/// How often the record of children is looked at again before its state is final.
pub const CLEAR_RETRIES: usize = 50;

/// What follows an attempt to clear the record of children.
pub enum ClearStep {
    Done,
    /// Try again after a moment.
    Retry,
    Failed(Error),
}

/// Decides what follows an attempt to clear the record of children, after `retries` others:
/// children that lost their parent can take a moment to vanish.
pub fn clear_runtime(retries: usize, outcome: Result<(), Error>) -> (next: ClearStep)
    ensures
        next == (match outcome {
            Ok(_) => ClearStep::Done,
            Err(error) => if retries < CLEAR_RETRIES {
                ClearStep::Retry
            } else {
                ClearStep::Failed(error)
            },
        }),
{
    match outcome {
        Ok(_) => ClearStep::Done,
        Err(error) => if retries < CLEAR_RETRIES {
            ClearStep::Retry
        } else {
            ClearStep::Failed(error)
        },
    }
}

/// What is to be remembered of a profile whose token was verified at the given time, if the
/// token is for the account that is remembered.
pub fn verify_profile(saved: &Option<Metadata>, token: &Token, now: u64) -> (record: Result<
    Metadata,
    Error,
>)
    ensures
        match saved {
            Some(metadata) => if metadata.identity@.same_account(token@.identity) {
                record is Ok
            } else {
                record == Err::<Metadata, Error>(Error::IdentityChanged)
            },
            None => record is Ok,
        },
        record matches Ok(kept) ==> kept.identity@ == token@.identity && kept.last_verified == now,
{
    match Metadata::accept(saved, token.identity()) {
        Ok(()) => Ok(Metadata::verified_at(token.identity().clone(), now)),
        Err(error) => Err(error),
    }
}

/// How far a command has come.
pub enum ExecuteStage {
    /// The place of the profiles is being found.
    Locating,
    /// The profiles are being read.
    Listing,
    /// Codex is being found.
    Resolving,
    /// The profile is being locked.
    Locking,
    /// Codex runs.
    Running,
    /// The record of children is being cleared after Codex ran; what came of it.
    ClearingRun(Result<Option<String>, Error>),
    /// The helper is being started.
    Starting,
    /// The record of children is being cleared after the helper did not start.
    ClearingStart(Error),
    /// The helper is being initialized.
    Initializing,
    /// The helper logs in or out.
    Working,
    /// The helper is being stopped; what came of its work.
    Stopping(Result<(), Error>),
    /// The record of children is being cleared; what came of all before.
    Clearing(Result<(), Error>),
    /// It is over.
    Ended,
}

/// What the stage of a command says.
pub enum ExecuteStageView {
    Locating,
    Listing,
    Resolving,
    Locking,
    Running,
    ClearingRun(Result<Option<Seq<char>>, Error>),
    Starting,
    ClearingStart(Error),
    Initializing,
    Working,
    Stopping(Result<(), Error>),
    Clearing(Result<(), Error>),
    Ended,
}

/// What the session that a run ended with says.
pub open spec fn session_view(session: Result<Option<String>, Error>) -> Result<
    Option<Seq<char>>,
    Error,
> {
    match session {
        Ok(thread) => Ok(text_view(thread)),
        Err(error) => Err(error),
    }
}

impl View for ExecuteStage {
    type V = ExecuteStageView;

    open spec fn view(&self) -> ExecuteStageView {
        match self {
            ExecuteStage::Locating => ExecuteStageView::Locating,
            ExecuteStage::Listing => ExecuteStageView::Listing,
            ExecuteStage::Resolving => ExecuteStageView::Resolving,
            ExecuteStage::Locking => ExecuteStageView::Locking,
            ExecuteStage::Running => ExecuteStageView::Running,
            ExecuteStage::ClearingRun(session) => ExecuteStageView::ClearingRun(
                session_view(*session),
            ),
            ExecuteStage::Starting => ExecuteStageView::Starting,
            ExecuteStage::ClearingStart(error) => ExecuteStageView::ClearingStart(*error),
            ExecuteStage::Initializing => ExecuteStageView::Initializing,
            ExecuteStage::Working => ExecuteStageView::Working,
            ExecuteStage::Stopping(result) => ExecuteStageView::Stopping(*result),
            ExecuteStage::Clearing(result) => ExecuteStageView::Clearing(*result),
            ExecuteStage::Ended => ExecuteStageView::Ended,
        }
    }
}

/// How the last action went.
pub enum ExecuteEvent {
    Done,
    /// What is shown of the profiles.
    Listed(String),
    /// Codex ran; the session that it ended with.
    Ran(Result<Option<String>, Error>),
    Failed(Error),
    /// A signal asked for an end.
    Interrupted,
}

/// What an event says.
pub enum ExecuteEventView {
    Done,
    Listed(Seq<char>),
    Ran(Result<Option<Seq<char>>, Error>),
    Failed(Error),
    Interrupted,
}

impl View for ExecuteEvent {
    type V = ExecuteEventView;

    open spec fn view(&self) -> ExecuteEventView {
        match self {
            ExecuteEvent::Done => ExecuteEventView::Done,
            ExecuteEvent::Listed(text) => ExecuteEventView::Listed(text@),
            ExecuteEvent::Ran(session) => ExecuteEventView::Ran(session_view(*session)),
            ExecuteEvent::Failed(error) => ExecuteEventView::Failed(*error),
            ExecuteEvent::Interrupted => ExecuteEventView::Interrupted,
        }
    }
}

/// What is to be done next.
pub enum ExecuteAction {
    ListProfiles,
    /// Find Codex; a signal cuts this short.
    Resolve,
    /// Lock the profile; `create` says whether it may be made.
    Lock { create: bool },
    Run,
    ClearRuntime,
    StartHelper,
    /// Initialize the helper; a signal cuts this short.
    Initialize,
    LogIn,
    /// Log out; a signal cuts this short.
    LogOut,
    StopHelper,
    Finish(Result<(), Error>),
}

/// What is to be printed, and what is to be done after that.
pub struct ExecuteStep {
    pub print: Option<String>,
    pub action: ExecuteAction,
}

/// What a step says.
pub struct ExecuteStepView {
    pub print: Option<Seq<char>>,
    pub action: ExecuteAction,
}

impl View for ExecuteStep {
    type V = ExecuteStepView;

    open spec fn view(&self) -> ExecuteStepView {
        ExecuteStepView { print: text_view(self.print), action: self.action }
    }
}

/// A command and how far it has come.
pub struct Execution {
    command: Action,
    stage: ExecuteStage,
}

/// What a command and its stage say.
pub struct ExecutionView {
    pub command: ActionView,
    pub stage: ExecuteStageView,
}

impl View for Execution {
    type V = ExecutionView;

    closed spec fn view(&self) -> ExecutionView {
        ExecutionView { command: self.command@, stage: self.stage@ }
    }
}

/// How a session is continued.
pub open spec fn resume_notice(name: Seq<char>, thread: Seq<char>) -> Seq<char> {
    "To continue this session with Coduck, run:\n  coduck run "@ + name + " --resume "@ + thread
        + "\n"@
}

/// What is said of a profile that was logged out.
pub open spec fn logout_notice(name: Seq<char>) -> Seq<char> {
    "Removed local login for "@ + name + ".\n"@
}

/// The name of the profile that a command is about.
pub open spec fn profile_of(command: ActionView) -> Seq<char> {
    match command {
        ActionView::Login { name } => name,
        ActionView::List => Seq::empty(),
        ActionView::Run { name, .. } => name,
        ActionView::Logout { name } => name,
    }
}

/// One result after another: the first failure counts.
pub open spec fn both(first: Result<(), Error>, second: Result<(), Error>) -> Result<(), Error> {
    match first {
        Ok(_) => second,
        Err(error) => Err(error),
    }
}

impl ExecuteEventView {
    /// What an event means to someone who asked only for success.
    pub open spec fn outcome(self) -> Result<(), Error> {
        match self {
            ExecuteEventView::Failed(error) => Err(error),
            ExecuteEventView::Interrupted => Err(Error::Interrupted),
            _ => Ok(()),
        }
    }
}

impl ExecutionView {
    /// The command goes on.
    pub open spec fn going(self, stage: ExecuteStageView, action: ExecuteAction) -> (
        ExecutionView,
        ExecuteStepView,
    ) {
        (ExecutionView { stage, ..self }, ExecuteStepView { print: None, action })
    }

    /// The command is over.
    pub open spec fn over(self, print: Option<Seq<char>>, result: Result<(), Error>) -> (
        ExecutionView,
        ExecuteStepView,
    ) {
        (
            ExecutionView { stage: ExecuteStageView::Ended, ..self },
            ExecuteStepView { print, action: ExecuteAction::Finish(result) },
        )
    }

    /// Whether an event can come at this stage.
    pub open spec fn expects(self, event: ExecuteEventView) -> bool {
        match self.stage {
            ExecuteStageView::Listing => event is Listed || event is Failed,
            ExecuteStageView::Running => event is Ran,
            ExecuteStageView::Resolving => event is Done || event is Failed || event is Interrupted,
            ExecuteStageView::Initializing => event is Done || event is Failed || event
                is Interrupted,
            ExecuteStageView::Working => event is Done || event is Failed || event is Interrupted
                && self.command is Logout,
            ExecuteStageView::Ended => false,
            _ => event is Done || event is Failed,
        }
    }

    /// One step of a command.
    pub open spec fn next(self, event: ExecuteEventView) -> (ExecutionView, ExecuteStepView) {
        let outcome = event.outcome();
        match self.stage {
            ExecuteStageView::Locating => match outcome {
                Err(error) => self.over(None, Err(error)),
                Ok(_) => if self.command is List {
                    self.going(ExecuteStageView::Listing, ExecuteAction::ListProfiles)
                } else {
                    self.going(ExecuteStageView::Resolving, ExecuteAction::Resolve)
                },
            },
            ExecuteStageView::Listing => match event {
                ExecuteEventView::Listed(text) => self.over(Some(text), Ok(())),
                _ => self.over(None, outcome),
            },
            ExecuteStageView::Resolving => match outcome {
                Err(error) => self.over(None, Err(error)),
                Ok(_) => self.going(
                    ExecuteStageView::Locking,
                    ExecuteAction::Lock { create: self.command is Login },
                ),
            },
            ExecuteStageView::Locking => match outcome {
                Err(error) => self.over(None, Err(error)),
                Ok(_) => if self.command is Run {
                    self.going(ExecuteStageView::Running, ExecuteAction::Run)
                } else {
                    self.going(ExecuteStageView::Starting, ExecuteAction::StartHelper)
                },
            },
            ExecuteStageView::Running => match event {
                ExecuteEventView::Ran(session) => self.going(
                    ExecuteStageView::ClearingRun(session),
                    ExecuteAction::ClearRuntime,
                ),
                _ => self.over(None, outcome),
            },
            ExecuteStageView::ClearingRun(session) => match settled(session, Ok(()), outcome) {
                Err(error) => self.over(None, Err(error)),
                Ok(None) => self.over(None, Ok(())),
                Ok(Some(thread)) => self.over(
                    Some(resume_notice(profile_of(self.command), thread)),
                    Ok(()),
                ),
            },
            ExecuteStageView::Starting => match outcome {
                Err(error) => self.going(
                    ExecuteStageView::ClearingStart(error),
                    ExecuteAction::ClearRuntime,
                ),
                Ok(_) => self.going(ExecuteStageView::Initializing, ExecuteAction::Initialize),
            },
            ExecuteStageView::ClearingStart(error) => self.over(None, Err(error)),
            ExecuteStageView::Initializing => match outcome {
                Err(error) => self.going(
                    ExecuteStageView::Stopping(Err(error)),
                    ExecuteAction::StopHelper,
                ),
                Ok(_) => self.going(
                    ExecuteStageView::Working,
                    if self.command is Logout {
                        ExecuteAction::LogOut
                    } else {
                        ExecuteAction::LogIn
                    },
                ),
            },
            ExecuteStageView::Working => {
                let result = if event is Interrupted {
                    Err(Error::LogoutInterrupted)
                } else {
                    outcome
                };
                (
                    ExecutionView { stage: ExecuteStageView::Stopping(result), ..self },
                    ExecuteStepView {
                        print: if result is Ok && self.command is Logout {
                            Some(logout_notice(profile_of(self.command)))
                        } else {
                            None
                        },
                        action: ExecuteAction::StopHelper,
                    },
                )
            },
            ExecuteStageView::Stopping(result) => self.going(
                ExecuteStageView::Clearing(both(result, outcome)),
                ExecuteAction::ClearRuntime,
            ),
            ExecuteStageView::Clearing(result) => self.over(None, both(result, outcome)),
            ExecuteStageView::Ended => self.over(None, outcome),
        }
    }
}

/// Puts one result after another: the first failure counts.
pub fn combine(first: Result<(), Error>, second: Result<(), Error>) -> (result: Result<(), Error>)
    ensures
        result == both(first, second),
{
    match first {
        Ok(_) => second,
        Err(error) => Err(error),
    }
}

impl Execution {
    /// A command at its beginning: the place of the profiles is to be found first.
    pub fn new(command: Action) -> (execution: Execution)
        ensures
            execution@ == (ExecutionView {
                command: command@,
                stage: ExecuteStageView::Locating,
            }),
    {
        Execution { command, stage: ExecuteStage::Locating }
    }

    /// What the command asks for.
    pub fn command(&self) -> (command: &Action)
        ensures
            command@ == self@.command,
    {
        &self.command
    }

    fn go(&mut self, stage: ExecuteStage, action: ExecuteAction) -> (step: ExecuteStep)
        ensures
            (final(self)@, step@) == old(self)@.going(stage@, action),
    {
        self.stage = stage;
        ExecuteStep { print: None, action }
    }

    fn end(&mut self, print: Option<String>, result: Result<(), Error>) -> (step: ExecuteStep)
        ensures
            (final(self)@, step@) == old(self)@.over(text_view(print), result),
    {
        self.stage = ExecuteStage::Ended;
        ExecuteStep { print, action: ExecuteAction::Finish(result) }
    }

    fn profile(&self) -> (name: &str)
        ensures
            name@ == profile_of(self@.command),
    {
        match &self.command {
            Action::Login { name } => name.as_str(),
            Action::List => {
                proof {
                    reveal_strlit("");
                    assert(""@ =~= Seq::<char>::empty());
                }
                ""
            },
            Action::Run { name, .. } => name.as_str(),
            Action::Logout { name } => name.as_str(),
        }
    }

    /// One step of the command.
    pub fn execute(&mut self, event: ExecuteEvent) -> (step: ExecuteStep)
        requires
            old(self)@.expects(event@),
        ensures
            (final(self)@, step@) == old(self)@.next(event@),
    {
        let mut stage = ExecuteStage::Ended;
        std::mem::swap(&mut stage, &mut self.stage);
        let listing = matches!(self.command, Action::List);
        let running = matches!(self.command, Action::Run { .. });
        let login = matches!(self.command, Action::Login { .. });
        let logout = matches!(self.command, Action::Logout { .. });
        let interrupted = matches!(event, ExecuteEvent::Interrupted);
        let mut listed: Option<String> = None;
        let mut ran: Option<Result<Option<String>, Error>> = None;
        let outcome: Result<(), Error> = match event {
            ExecuteEvent::Done => Ok(()),
            ExecuteEvent::Listed(text) => {
                listed = Some(text);
                Ok(())
            },
            ExecuteEvent::Ran(session) => {
                ran = Some(session);
                Ok(())
            },
            ExecuteEvent::Failed(error) => Err(error),
            ExecuteEvent::Interrupted => Err(Error::Interrupted),
        };
        match stage {
            ExecuteStage::Locating => match outcome {
                Err(error) => self.end(None, Err(error)),
                Ok(_) => if listing {
                    self.go(ExecuteStage::Listing, ExecuteAction::ListProfiles)
                } else {
                    self.go(ExecuteStage::Resolving, ExecuteAction::Resolve)
                },
            },
            ExecuteStage::Listing => match listed {
                Some(text) => self.end(Some(text), Ok(())),
                None => self.end(None, outcome),
            },
            ExecuteStage::Resolving => match outcome {
                Err(error) => self.end(None, Err(error)),
                Ok(_) => self.go(ExecuteStage::Locking, ExecuteAction::Lock { create: login }),
            },
            ExecuteStage::Locking => match outcome {
                Err(error) => self.end(None, Err(error)),
                Ok(_) => if running {
                    self.go(ExecuteStage::Running, ExecuteAction::Run)
                } else {
                    self.go(ExecuteStage::Starting, ExecuteAction::StartHelper)
                },
            },
            ExecuteStage::Running => match ran {
                Some(session) => self.go(
                    ExecuteStage::ClearingRun(session),
                    ExecuteAction::ClearRuntime,
                ),
                None => self.end(None, outcome),
            },
            ExecuteStage::ClearingRun(session) => match settle(session, Ok(()), outcome) {
                Err(error) => self.end(None, Err(error)),
                Ok(None) => self.end(None, Ok(())),
                Ok(Some(thread)) => {
                    let mut notice = "To continue this session with Coduck, run:\n  coduck run ".to_owned();
                    notice.append(self.profile());
                    notice.append(" --resume ");
                    notice.append(thread.as_str());
                    notice.append("\n");
                    self.end(Some(notice), Ok(()))
                },
            },
            ExecuteStage::Starting => match outcome {
                Err(error) => self.go(
                    ExecuteStage::ClearingStart(error),
                    ExecuteAction::ClearRuntime,
                ),
                Ok(_) => self.go(ExecuteStage::Initializing, ExecuteAction::Initialize),
            },
            ExecuteStage::ClearingStart(error) => self.end(None, Err(error)),
            ExecuteStage::Initializing => match outcome {
                Err(error) => self.go(
                    ExecuteStage::Stopping(Err(error)),
                    ExecuteAction::StopHelper,
                ),
                Ok(_) => self.go(
                    ExecuteStage::Working,
                    if logout {
                        ExecuteAction::LogOut
                    } else {
                        ExecuteAction::LogIn
                    },
                ),
            },
            ExecuteStage::Working => {
                let result = if interrupted {
                    Err(Error::LogoutInterrupted)
                } else {
                    outcome
                };
                let mut print: Option<String> = None;
                if result.is_ok() && logout {
                    let mut notice = "Removed local login for ".to_owned();
                    notice.append(self.profile());
                    notice.append(".\n");
                    print = Some(notice);
                }
                self.stage = ExecuteStage::Stopping(result);
                ExecuteStep { print, action: ExecuteAction::StopHelper }
            },
            ExecuteStage::Stopping(result) => self.go(
                ExecuteStage::Clearing(combine(result, outcome)),
                ExecuteAction::ClearRuntime,
            ),
            ExecuteStage::Clearing(result) => self.end(None, combine(result, outcome)),
            ExecuteStage::Ended => self.end(None, outcome),
        }
    }
}

/// Once a helper was started, or Codex ran, the command ends only after the helper was stopped
/// and the record of children was cleared; and it ends well only if all of that went well.
pub proof fn law_commands_tidy_up(execution: ExecutionView, event: ExecuteEventView)
    requires
        execution.expects(event),
    ensures
        ({
            let (next, step) = execution.next(event);
            let stage = execution.stage;
            &&& stage is Running ==> step.action is ClearRuntime
            &&& stage is Starting && event is Failed ==> step.action is ClearRuntime
            &&& stage is Initializing && !(event is Done) ==> step.action is StopHelper
            &&& stage is Working ==> step.action is StopHelper
            &&& stage is Stopping ==> step.action is ClearRuntime
            &&& (step.action matches ExecuteAction::Finish(result) ==> {
                &&& !(stage is Running || stage is Starting || stage is Initializing || stage
                    is Working || stage is Stopping)
                &&& next.stage is Ended
                &&& result is Ok ==> !(event is Failed) && !(event is Interrupted)
                &&& (stage matches ExecuteStageView::Clearing(earlier) ==> (result is Ok ==> earlier
                    is Ok))
                &&& (stage matches ExecuteStageView::ClearingRun(session) ==> (result is Ok
                    ==> session is Ok))
            })
        }),
{
}

/// A profile is made only in order to log in, and Codex is found before any profile is locked.
pub proof fn law_only_a_login_makes_a_profile(execution: ExecutionView, event: ExecuteEventView)
    requires
        execution.expects(event),
    ensures
        execution.next(event).1.action matches ExecuteAction::Lock { create } ==> (create
            <==> execution.command is Login) && execution.stage is Resolving && event is Done,
{
}

/// How far a login has come.
pub enum LoginStage {
    /// The helper is asked whether an account is signed in.
    Asking,
    /// The helper is asked to begin.
    Beginning,
    /// The browser is being opened.
    Opening(Login),
    /// The browser is awaited.
    Waiting(Login),
    /// The helper is started anew.
    Restarting,
    /// The login is being given up.
    Cancelling(Error),
    /// The account is being verified and remembered.
    Verifying,
    /// It is over.
    Ended,
}

/// How the last action went.
pub enum LoginEvent {
    Done,
    SignedIn(bool),
    Begun(Login),
    Completed(LoginOutcome),
    Verified(Identity),
    Failed(Error),
    /// A signal asked for an end.
    Interrupted,
}

/// What is to be done next.
pub enum LoginAction {
    BeginLogin,
    /// Open an address in the browser; a failure does not matter.
    OpenBrowser { url: String },
    AwaitLogin,
    RestartHelper,
    /// Give the login up; a failure does not matter.
    CancelLogin { login_id: String },
    VerifyProfile,
    Finish(Result<(), Error>),
}

/// What an action says.
pub enum LoginActionView {
    BeginLogin,
    OpenBrowser { url: Seq<char> },
    AwaitLogin,
    RestartHelper,
    CancelLogin { login_id: Seq<char> },
    VerifyProfile,
    Finish(Result<(), Error>),
}

impl View for LoginAction {
    type V = LoginActionView;

    open spec fn view(&self) -> LoginActionView {
        match self {
            LoginAction::BeginLogin => LoginActionView::BeginLogin,
            LoginAction::OpenBrowser { url } => LoginActionView::OpenBrowser { url: url@ },
            LoginAction::AwaitLogin => LoginActionView::AwaitLogin,
            LoginAction::RestartHelper => LoginActionView::RestartHelper,
            LoginAction::CancelLogin { login_id } => LoginActionView::CancelLogin {
                login_id: login_id@,
            },
            LoginAction::VerifyProfile => LoginActionView::VerifyProfile,
            LoginAction::Finish(result) => LoginActionView::Finish(*result),
        }
    }
}

/// What is to be printed, and what is to be done after that.
pub struct LoginStep {
    pub print: Option<String>,
    pub action: LoginAction,
}

/// What a step says.
pub struct LoginStepView {
    pub print: Option<Seq<char>>,
    pub action: LoginActionView,
}

impl View for LoginStep {
    type V = LoginStepView;

    open spec fn view(&self) -> LoginStepView {
        LoginStepView { print: text_view(self.print), action: self.action@ }
    }
}

/// How the user is asked to log in.
pub open spec fn login_notice(url: Seq<char>) -> Seq<char> {
    "Complete login in your browser:\n"@ + url + "\n"@
}

/// How a verified account is shown.
pub open spec fn verified_notice(identity: IdentityView) -> Seq<char> {
    "Verified "@ + identity.label() + " ("@ + identity.plan_type + ")\n"@
}

/// Whether an event can come at a stage.
pub open spec fn login_expects(stage: LoginStage, event: LoginEvent) -> bool {
    match stage {
        LoginStage::Asking => event is SignedIn || event is Failed || event is Interrupted,
        LoginStage::Beginning => event is Begun || event is Failed || event is Interrupted,
        LoginStage::Opening(_) => event is Done,
        LoginStage::Waiting(_) => event is Completed || event is Failed || event is Interrupted,
        LoginStage::Restarting => event is Done || event is Failed || event is Interrupted,
        LoginStage::Cancelling(_) => event is Done,
        LoginStage::Verifying => event is Verified || event is Failed || event is Interrupted,
        LoginStage::Ended => false,
    }
}

/// A step without anything to print.
pub open spec fn quietly(stage: LoginStage, action: LoginActionView) -> (
    LoginStage,
    LoginStepView,
) {
    (stage, LoginStepView { print: None, action })
}

/// The login is over without success.
pub open spec fn login_failed(error: Error) -> (LoginStage, LoginStepView) {
    quietly(LoginStage::Ended, LoginActionView::Finish(Err(error)))
}

/// One step of a login. An account that is signed in is verified without a new login; a login
/// that the browser reports as failed may have been saved all the same, so that the helper is
/// started anew and the account verified; and a login that is interrupted is given up.
pub open spec fn login_next(stage: LoginStage, event: LoginEvent) -> (LoginStage, LoginStepView)
    recommends
        login_expects(stage, event),
{
    let verify = quietly(LoginStage::Verifying, LoginActionView::VerifyProfile);
    match (stage, event) {
        (LoginStage::Asking, LoginEvent::SignedIn(true)) => verify,
        (LoginStage::Asking, LoginEvent::SignedIn(false)) => quietly(
            LoginStage::Beginning,
            LoginActionView::BeginLogin,
        ),
        (LoginStage::Asking, LoginEvent::Interrupted) => login_failed(Error::LoginInterrupted),
        (LoginStage::Beginning, LoginEvent::Begun(login)) => (
            LoginStage::Opening(login),
            LoginStepView {
                print: Some(login_notice(login.auth_url@)),
                action: LoginActionView::OpenBrowser { url: login.auth_url@ },
            },
        ),
        (LoginStage::Beginning, LoginEvent::Interrupted) => login_failed(Error::LoginInterrupted),
        (LoginStage::Opening(login), _) => quietly(
            LoginStage::Waiting(login),
            LoginActionView::AwaitLogin,
        ),
        (LoginStage::Waiting(_), LoginEvent::Completed(LoginOutcome::Ready)) => verify,
        (LoginStage::Waiting(_), LoginEvent::Completed(LoginOutcome::Unconfirmed)) => quietly(
            LoginStage::Restarting,
            LoginActionView::RestartHelper,
        ),
        (LoginStage::Waiting(login), LoginEvent::Failed(error)) => quietly(
            LoginStage::Cancelling(error),
            LoginActionView::CancelLogin { login_id: login.login_id@ },
        ),
        (LoginStage::Waiting(login), LoginEvent::Interrupted) => quietly(
            LoginStage::Cancelling(Error::LoginInterrupted),
            LoginActionView::CancelLogin { login_id: login.login_id@ },
        ),
        (LoginStage::Cancelling(error), _) => login_failed(error),
        (LoginStage::Restarting, LoginEvent::Done) => verify,
        (LoginStage::Verifying, LoginEvent::Verified(identity)) => (
            LoginStage::Ended,
            LoginStepView {
                print: Some(verified_notice(identity@)),
                action: LoginActionView::Finish(Ok(())),
            },
        ),
        (_, LoginEvent::Failed(error)) => login_failed(error),
        _ => login_failed(Error::VerificationInterrupted),
    }
}

fn quiet_login(stage: LoginStage, action: LoginAction) -> (next: (LoginStage, LoginStep))
    ensures
        (next.0, next.1@) == quietly(stage, action@),
{
    (stage, LoginStep { print: None, action })
}

fn fail_login(error: Error) -> (next: (LoginStage, LoginStep))
    ensures
        (next.0, next.1@) == login_failed(error),
{
    quiet_login(LoginStage::Ended, LoginAction::Finish(Err(error)))
}

/// Decides the next step of a login.
pub fn login(stage: LoginStage, event: LoginEvent) -> (next: (LoginStage, LoginStep))
    requires
        login_expects(stage, event),
    ensures
        (next.0, next.1@) == login_next(stage, event),
{
    match (stage, event) {
        (LoginStage::Asking, LoginEvent::SignedIn(true)) => quiet_login(
            LoginStage::Verifying,
            LoginAction::VerifyProfile,
        ),
        (LoginStage::Asking, LoginEvent::SignedIn(false)) => quiet_login(
            LoginStage::Beginning,
            LoginAction::BeginLogin,
        ),
        (LoginStage::Asking, LoginEvent::Interrupted) => fail_login(Error::LoginInterrupted),
        (LoginStage::Beginning, LoginEvent::Begun(login)) => {
            let mut notice = "Complete login in your browser:\n".to_owned();
            notice.append(login.auth_url.as_str());
            notice.append("\n");
            let url = login.auth_url.clone();
            (
                LoginStage::Opening(login),
                LoginStep { print: Some(notice), action: LoginAction::OpenBrowser { url } },
            )
        },
        (LoginStage::Beginning, LoginEvent::Interrupted) => fail_login(Error::LoginInterrupted),
        (LoginStage::Opening(login), _) => quiet_login(
            LoginStage::Waiting(login),
            LoginAction::AwaitLogin,
        ),
        (LoginStage::Waiting(_), LoginEvent::Completed(LoginOutcome::Ready)) => quiet_login(
            LoginStage::Verifying,
            LoginAction::VerifyProfile,
        ),
        // the browser can report a failure after the credentials were saved.
        (LoginStage::Waiting(_), LoginEvent::Completed(LoginOutcome::Unconfirmed)) => quiet_login(
            LoginStage::Restarting,
            LoginAction::RestartHelper,
        ),
        (LoginStage::Waiting(login), LoginEvent::Failed(error)) => quiet_login(
            LoginStage::Cancelling(error),
            LoginAction::CancelLogin { login_id: login.login_id },
        ),
        (LoginStage::Waiting(login), LoginEvent::Interrupted) => quiet_login(
            LoginStage::Cancelling(Error::LoginInterrupted),
            LoginAction::CancelLogin { login_id: login.login_id },
        ),
        (LoginStage::Cancelling(error), _) => fail_login(error),
        (LoginStage::Restarting, LoginEvent::Done) => quiet_login(
            LoginStage::Verifying,
            LoginAction::VerifyProfile,
        ),
        (LoginStage::Verifying, LoginEvent::Verified(identity)) => {
            let mut notice = "Verified ".to_owned();
            notice.append(identity.label());
            notice.append(" (");
            notice.append(identity.plan_type.as_str());
            notice.append(")\n");
            (
                LoginStage::Ended,
                LoginStep { print: Some(notice), action: LoginAction::Finish(Ok(())) },
            )
        },
        (_, LoginEvent::Failed(error)) => fail_login(error),
        _ => fail_login(Error::VerificationInterrupted),
    }
}

/// However a login comes about, it succeeds only when the account was verified.
pub proof fn law_logins_end_with_verification(stage: LoginStage, event: LoginEvent)
    requires
        login_expects(stage, event),
    ensures
        login_next(stage, event).1.action matches LoginActionView::Finish(Ok(_)) ==> stage
            is Verifying && event is Verified,
        login_next(stage, event).0 is Verifying ==> {
            ||| stage is Asking && event == LoginEvent::SignedIn(true)
            ||| stage is Waiting && event == LoginEvent::Completed(LoginOutcome::Ready)
            ||| stage is Restarting && event is Done
        },
        stage is Waiting && (event is Failed || event is Interrupted) ==> login_next(
            stage,
            event,
        ).1.action is CancelLogin,
{
}

/// How far the replacement of a helper has come.
pub enum RestartStage {
    /// The old helper is being stopped.
    Stopping,
    /// A new one is being started, with a record.
    Starting,
    /// This program introduces itself to the new one.
    Introducing,
    /// It is over.
    Ended,
}

/// How the last action went.
pub enum RestartEvent {
    Done,
    Failed(Error),
}

/// What is to be done next.
pub enum RestartAction {
    Start,
    Introduce,
    Finish(Result<(), Error>),
}

/// One step in the replacement of a helper: each waits for the one before it to succeed.
pub open spec fn restart_next(stage: RestartStage, event: RestartEvent) -> (
    RestartStage,
    RestartAction,
) {
    match (stage, event) {
        (RestartStage::Stopping, RestartEvent::Done) => (
            RestartStage::Starting,
            RestartAction::Start,
        ),
        (RestartStage::Starting, RestartEvent::Done) => (
            RestartStage::Introducing,
            RestartAction::Introduce,
        ),
        (_, RestartEvent::Done) => (RestartStage::Ended, RestartAction::Finish(Ok(()))),
        (_, RestartEvent::Failed(error)) => (
            RestartStage::Ended,
            RestartAction::Finish(Err(error)),
        ),
    }
}

/// Decides the next step in the replacement of a helper, which begins with stopping the old
/// one.
pub fn restart(stage: RestartStage, event: RestartEvent) -> (next: (RestartStage, RestartAction))
    requires
        !(stage is Ended),
    ensures
        next == restart_next(stage, event),
{
    match (stage, event) {
        (RestartStage::Stopping, RestartEvent::Done) => (
            RestartStage::Starting,
            RestartAction::Start,
        ),
        (RestartStage::Starting, RestartEvent::Done) => (
            RestartStage::Introducing,
            RestartAction::Introduce,
        ),
        (_, RestartEvent::Done) => (RestartStage::Ended, RestartAction::Finish(Ok(()))),
        (_, RestartEvent::Failed(error)) => (
            RestartStage::Ended,
            RestartAction::Finish(Err(error)),
        ),
    }
}

/// How far the replacement of a helper has come when its events are these.
pub open spec fn restarted(events: Seq<RestartEvent>) -> RestartStage
    decreases events.len(),
{
    if events.len() == 0 {
        RestartStage::Stopping
    } else {
        restart_next(restarted(events.drop_last()), events.last()).0
    }
}

/// A new helper is started only after the old one was stopped, and the replacement succeeds
/// only when a new one was started after that and answered the introduction; the first failure
/// ends it.
pub proof fn law_old_helper_is_stopped_first(events: Seq<RestartEvent>, event: RestartEvent)
    requires
        !(restarted(events) is Ended),
    ensures
        forall|i: int| 0 <= i < events.len() ==> (#[trigger] events[i]) is Done,
        ({
            let action = restart_next(restarted(events), event).1;
            &&& action is Start <==> events.len() == 0 && event is Done
            &&& action is Introduce <==> events.len() == 1 && event is Done
            &&& (action matches RestartAction::Finish(Ok(_))) <==> events.len() == 2 && event
                is Done
            &&& (event matches RestartEvent::Failed(error) ==> action == RestartAction::Finish(
                Err::<(), Error>(error),
            ))
        }),
{
    lemma_restarted(events);
}

proof fn lemma_restarted(events: Seq<RestartEvent>)
    requires
        !(restarted(events) is Ended),
    ensures
        forall|i: int| 0 <= i < events.len() ==> (#[trigger] events[i]) is Done,
        restarted(events) is Stopping <==> events.len() == 0,
        restarted(events) is Starting <==> events.len() == 1,
        restarted(events) is Introducing <==> events.len() == 2,
        events.len() <= 2,
    decreases events.len(),
{
    if events.len() > 0 {
        let earlier = events.drop_last();
        lemma_restarted(earlier);
        assert forall|i: int| 0 <= i < events.len() implies (#[trigger] events[i]) is Done by {
            if i < earlier.len() {
                assert(earlier[i] is Done);
            }
        }
    }
}

} // verus!
