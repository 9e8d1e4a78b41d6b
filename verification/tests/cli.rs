use base64::engine::general_purpose::URL_SAFE_NO_PAD;
use base64::Engine;
use coduck::auth::{token, Login, LoginOutcome, Token};
use coduck::cli::{list_profiles, Action, Args, Found, Refusal, VERSION};
use coduck::error::Error;
use coduck::flow::{
    clear_runtime, combine, login, restart, settle, verify_profile,
    wait_for_profile_lock, ClearStep, ExecuteAction, ExecuteEvent, ExecuteStep, Execution,
    LockAttempt, LockNext, LoginAction, LoginEvent, LoginStage, RestartAction, RestartEvent,
    RestartStage, CLEAR_RETRIES,
};
use coduck::helper::{begin_task, proceed, HelperAction, HelperEvent, HelperTask};
use coduck::json::Json;
use coduck::profile::{Identity, Metadata, ProfileStore, ProfileSummary};

fn line(words: &[&str]) -> Vec<String> {
    words.iter().map(|word| word.to_string()).collect()
}

fn parse(words: &[&str]) -> Result<Args, Refusal> {
    Args::try_parse_from(&line(words))
}

fn identity(account: &str, email: Option<&str>, plan: &str) -> Identity {
    Identity {
        account_id: account.to_owned(),
        user_id: "user".to_owned(),
        email: email.map(|text| text.to_owned()),
        plan_type: plan.to_owned(),
    }
}

fn summary(name: &str, metadata: Option<Metadata>) -> ProfileSummary {
    ProfileSummary { name: name.to_owned(), metadata }
}

fn response_for(account: &str, plan: &str) -> Json {
    let claims = format!(
        "{{\"exp\":4102444800,\"email\":\"me@example.invalid\",\"https://api.openai.com/auth\":\
         {{\"chatgpt_account_id\":\"{account}\",\"chatgpt_user_id\":\"user\",\
         \"chatgpt_plan_type\":\"{plan}\"}}}}"
    );
    let secret = format!("e30.{}.signature", URL_SAFE_NO_PAD.encode(claims));
    Json::object()
        .with("authMethod", Json::text("chatgpt"))
        .with("authToken", Json::text(&secret))
}

fn token_for(account: &str, plan: &str) -> Token {
    token(&response_for(account, plan), 100).ok().unwrap()
}

#[test]
fn command_line_requires_explicit_profile_and_resume_id() {
    assert!(parse(&["coduck", "run"]).is_err());
    assert!(parse(&["coduck", "run", "personal", "--resume"]).is_err());
    assert!(matches!(
        parse(&["coduck", "run", "personal", "--resume", "thread-id"]).ok().unwrap().command,
        Action::Run { resume: Some(_), .. }
    ));
}

#[test]
fn the_command_line_is_understood() {
    let named = |words: &[&str]| match parse(words).ok().unwrap().command {
        Action::Login { name } => format!("login {name}"),
        Action::List => "list".to_owned(),
        Action::Run { name, resume } => format!("run {name} {resume:?}"),
        Action::Logout { name } => format!("logout {name}"),
    };
    assert_eq!(named(&["coduck", "login", "work"]), "login work");
    assert_eq!(named(&["coduck", "list"]), "list");
    assert_eq!(named(&["coduck", "run", "work"]), "run work None");
    assert_eq!(named(&["coduck", "run", "--resume=id", "work"]), "run work Some(\"id\")");
    assert_eq!(named(&["coduck", "logout", "work"]), "logout work");
    for words in [
        vec!["coduck"],
        vec!["coduck", "login"],
        vec!["coduck", "list", "work"],
        vec!["coduck", "logout", "a", "b"],
        vec!["coduck", "unknown"],
        vec!["coduck", "login", "work", "--resume", "id"],
    ] {
        let refusal = parse(&words).err().unwrap();
        assert!(refusal.error);
        assert!(!refusal.text.is_empty());
    }
}

#[test]
fn help_and_version_are_no_errors() {
    let version = parse(&["coduck", "--version"]).err().unwrap();
    assert!(!version.error);
    assert_eq!(version.text, format!("coduck {VERSION}\n"));
    let help = parse(&["coduck", "--help"]).err().unwrap();
    assert!(!help.error);
    assert!(help.text.starts_with("Run Codex with a named ChatGPT account\n"));
    assert!(help.text.contains("Usage: coduck <COMMAND>"));
    for name in ["login", "list", "run", "logout"] {
        assert!(help.text.contains(name));
    }
    let help = parse(&["coduck", "run", "--help"]).err().unwrap();
    assert!(help.text.contains("Usage: coduck run [OPTIONS] <NAME>"));
    assert!(help.text.contains("--resume <RESUME>"));
}

#[test]
fn what_was_found_decides_the_action() {
    let found = |action: &str, values: Vec<(&str, Option<&str>)>| {
        Args::from_found(Ok(Some(Found {
            action: action.to_owned(),
            values: values
                .into_iter()
                .map(|(id, value)| (id.to_owned(), value.map(|text| text.to_owned())))
                .collect(),
        })))
    };
    assert!(matches!(found("list", vec![]).ok().unwrap().command, Action::List));
    assert!(matches!(
        found("login", vec![("name", Some("a"))]).ok().unwrap().command,
        Action::Login { name } if name == "a"
    ));
    assert!(matches!(
        found("run", vec![("resume", Some("id")), ("name", Some("a"))]).ok().unwrap().command,
        Action::Run { name, resume: Some(id) } if name == "a" && id == "id"
    ));
    assert!(matches!(
        found("run", vec![("name", Some("a")), ("resume", None)]).ok().unwrap().command,
        Action::Run { resume: None, .. }
    ));
    for refusal in [
        found("login", vec![]).err().unwrap(),
        found("logout", vec![("name", None)]).err().unwrap(),
        found("other", vec![("name", Some("a"))]).err().unwrap(),
        Args::from_found(Ok(None)).err().unwrap(),
    ] {
        assert!(refusal.error);
        assert_eq!(refusal.text, "error: a required subcommand or argument was not provided\n");
    }
    let refusal = Refusal { text: "no".to_owned(), error: false };
    let refusal = Args::from_found(Err(refusal)).err().unwrap();
    assert_eq!(refusal.text, "no");
    assert!(!refusal.error);
}

#[test]
fn offline_list_reports_cached_identity_and_incomplete_profiles() {
    let personal = Metadata {
        identity: identity("account", Some("me@example.invalid"), "plus"),
        last_verified: 123,
    };
    let work = Metadata {
        identity: identity("work", Some("work@example.invalid"), "self_serve_business_prolite"),
        last_verified: 456,
    };
    let profiles = ProfileStore::list(vec![
        summary("work", Some(work)),
        summary("unfinished", None),
        summary("personal", Some(personal)),
    ]);
    assert_eq!(
        list_profiles(&profiles),
        "PROFILE   CACHED IDENTITY       PLAN                         LAST VERIFIED (UNIX SECONDS)\n\
         personal  me@example.invalid    plus                         123\n\
         unfinished  incomplete; use coduck login unfinished\n\
         work      work@example.invalid  self_serve_business_prolite  456\n"
    );
}

#[test]
fn an_empty_list_says_how_to_begin() {
    assert_eq!(list_profiles(&Vec::new()), "No profiles. Use coduck login NAME.\n");
}

#[test]
fn columns_are_as_wide_as_their_longest_cell_in_bytes() {
    let metadata = Metadata { identity: identity("\u{e4}\u{f6}\u{fc}ccount-name", None, "go"), last_verified: 0 };
    let profiles = vec![summary("a-very-long-name", Some(metadata)), summary("b", None)];
    assert_eq!(
        list_profiles(&profiles),
        "PROFILE           CACHED IDENTITY    PLAN  LAST VERIFIED (UNIX SECONDS)\n\
         a-very-long-name  \u{e4}\u{f6}\u{fc}ccount-name     go    0\n\
         b                 incomplete; use coduck login b\n"
    );
}

#[test]
fn helper_identity_is_verified_before_cached_identity_changes() {
    let original = Metadata {
        identity: identity("account", Some("me@example.invalid"), "plus"),
        last_verified: 123,
    };
    let saved = Some(original);
    assert_eq!(
        verify_profile(&saved, &token_for("other", "pro"), 456),
        Err(Error::IdentityChanged)
    );
    let kept = verify_profile(&saved, &token_for("account", "pro"), 456).ok().unwrap();
    assert_eq!(kept.identity.plan_type, "pro");
    assert_eq!(kept.last_verified, 456);
    assert!(verify_profile(&None, &token_for("other", "pro"), 456).is_ok());
    for (account, changed) in [("other", true), ("account", false)] {
        let (stage, action) = begin_task(HelperTask::VerifyProfile);
        assert!(matches!(action, HelperAction::Ask(call) if call.method == "getAuthStatus"));
        let (stage, action) = proceed(stage, HelperEvent::Answer(response_for(account, "pro")));
        assert!(matches!(action, HelperAction::ReadMetadata));
        let original = Metadata {
            identity: identity("account", Some("me@example.invalid"), "plus"),
            last_verified: 123,
        };
        match proceed(stage, HelperEvent::Remembered(Some(original))).1 {
            HelperAction::SaveMetadata(record) => {
                assert!(!changed);
                assert_eq!(record.identity.plan_type, "pro");
                assert!(record.last_verified > 123);
            }
            HelperAction::Finish(Err(error)) => {
                assert!(changed);
                assert_eq!(error, Error::IdentityChanged);
            }
            _ => panic!("the identity is neither kept nor refused"),
        }
    }
}

#[test]
fn the_first_failure_counts() {
    let fault = || Err::<(), Error>(Error::ShutdownFailed);
    assert_eq!(settle(Ok(7), Ok(()), Ok(())), Ok(7));
    assert_eq!(settle(Err::<u8, _>(Error::Interrupted), fault(), fault()), Err(Error::Interrupted));
    assert_eq!(settle(Ok(7), fault(), Err(Error::ReadFailed)), Err(Error::ShutdownFailed));
    assert_eq!(settle(Ok(7), Ok(()), Err(Error::ReadFailed)), Err(Error::ReadFailed));
    assert_eq!(combine(Ok(()), fault()), fault());
    assert_eq!(combine(Err(Error::ReadFailed), fault()), Err(Error::ReadFailed));
}

#[test]
fn short_uses_of_a_lock_are_waited_for() {
    assert!(matches!(wait_for_profile_lock(LockAttempt::Acquired), LockNext::Go));
    assert!(matches!(wait_for_profile_lock(LockAttempt::Busy), LockNext::Retry));
    assert!(matches!(
        wait_for_profile_lock(LockAttempt::Failed(Error::WrongFileMode)),
        LockNext::Failed(Error::WrongFileMode)
    ));
    assert!(matches!(
        wait_for_profile_lock(LockAttempt::TimedOut),
        LockNext::Failed(Error::ProfileBusy)
    ));
}

#[test]
fn vanishing_children_are_waited_for() {
    assert!(matches!(clear_runtime(0, Ok(())), ClearStep::Done));
    assert!(matches!(clear_runtime(CLEAR_RETRIES, Ok(())), ClearStep::Done));
    for retries in [0, 1, CLEAR_RETRIES - 1] {
        assert!(matches!(clear_runtime(retries, Err(Error::ChildMayBeRunning)), ClearStep::Retry));
    }
    assert!(matches!(
        clear_runtime(CLEAR_RETRIES, Err(Error::ChildMayBeRunning)),
        ClearStep::Failed(Error::ChildMayBeRunning)
    ));
}

fn named(name: &str) -> String {
    name.to_owned()
}

fn shown(step: ExecuteStep) -> (String, ExecuteAction) {
    (step.print.unwrap_or_default(), step.action)
}

#[test]
fn a_list_needs_no_codex() {
    let mut execution = Execution::new(Action::List);
    assert!(matches!(execution.command(), Action::List));
    assert!(matches!(
        execution.execute(ExecuteEvent::Done).action,
        ExecuteAction::ListProfiles
    ));
    let (text, action) = shown(execution.execute(ExecuteEvent::Listed("the list\n".to_owned())));
    assert_eq!(text, "the list\n");
    assert!(matches!(action, ExecuteAction::Finish(Ok(()))));
}

#[test]
fn a_logout_says_what_it_did_and_tidies_up() {
    let mut execution = Execution::new(Action::Logout { name: named("work") });
    assert!(matches!(execution.execute(ExecuteEvent::Done).action, ExecuteAction::Resolve));
    assert!(matches!(
        execution.execute(ExecuteEvent::Done).action,
        ExecuteAction::Lock { create: false }
    ));
    assert!(matches!(execution.execute(ExecuteEvent::Done).action, ExecuteAction::StartHelper));
    assert!(matches!(execution.execute(ExecuteEvent::Done).action, ExecuteAction::Initialize));
    assert!(matches!(execution.execute(ExecuteEvent::Done).action, ExecuteAction::LogOut));
    let (text, action) = shown(execution.execute(ExecuteEvent::Done));
    assert_eq!(text, "Removed local login for work.\n");
    assert!(matches!(action, ExecuteAction::StopHelper));
    let action = execution.execute(ExecuteEvent::Failed(Error::ShutdownFailed)).action;
    assert!(matches!(action, ExecuteAction::ClearRuntime));
    assert!(matches!(
        execution.execute(ExecuteEvent::Done).action,
        ExecuteAction::Finish(Err(Error::ShutdownFailed))
    ));
}

#[test]
fn an_interrupted_logout_is_to_be_repeated() {
    let mut execution = Execution::new(Action::Logout { name: named("work") });
    for _ in 0..5 {
        execution.execute(ExecuteEvent::Done);
    }
    let (text, action) = shown(execution.execute(ExecuteEvent::Interrupted));
    assert_eq!(text, "");
    assert!(matches!(action, ExecuteAction::StopHelper));
    execution.execute(ExecuteEvent::Done);
    assert!(matches!(
        execution.execute(ExecuteEvent::Failed(Error::ChildMayBeRunning)).action,
        ExecuteAction::Finish(Err(Error::LogoutInterrupted))
    ));
}

#[test]
fn a_login_may_make_a_profile() {
    let mut execution = Execution::new(Action::Login { name: named("work") });
    execution.execute(ExecuteEvent::Done);
    assert!(matches!(
        execution.execute(ExecuteEvent::Done).action,
        ExecuteAction::Lock { create: true }
    ));
    execution.execute(ExecuteEvent::Done);
    let action = execution.execute(ExecuteEvent::Failed(Error::CannotStartServer)).action;
    assert!(matches!(action, ExecuteAction::ClearRuntime));
    assert!(matches!(
        execution.execute(ExecuteEvent::Failed(Error::ChildMayBeRunning)).action,
        ExecuteAction::Finish(Err(Error::CannotStartServer))
    ));
}

#[test]
fn a_login_that_is_interrupted_early_stops_its_helper() {
    let mut execution = Execution::new(Action::Login { name: named("work") });
    for _ in 0..4 {
        execution.execute(ExecuteEvent::Done);
    }
    let action = execution.execute(ExecuteEvent::Interrupted).action;
    assert!(matches!(action, ExecuteAction::StopHelper));
    execution.execute(ExecuteEvent::Done);
    assert!(matches!(
        execution.execute(ExecuteEvent::Done).action,
        ExecuteAction::Finish(Err(Error::Interrupted))
    ));
}

#[test]
fn a_run_says_how_it_is_continued() {
    let begin = || {
        let mut execution = Execution::new(Action::Run { name: named("work"), resume: None });
        execution.execute(ExecuteEvent::Done);
        execution.execute(ExecuteEvent::Done);
        assert!(matches!(execution.execute(ExecuteEvent::Done).action, ExecuteAction::Run));
        execution
    };
    let mut execution = begin();
    let action = execution.execute(ExecuteEvent::Ran(Ok(Some(named("id"))))).action;
    assert!(matches!(action, ExecuteAction::ClearRuntime));
    let (text, action) = shown(execution.execute(ExecuteEvent::Done));
    assert_eq!(
        text,
        "To continue this session with Coduck, run:\n  coduck run work --resume id\n"
    );
    assert!(matches!(action, ExecuteAction::Finish(Ok(()))));
    let mut execution = begin();
    execution.execute(ExecuteEvent::Ran(Ok(None)));
    let (text, action) = shown(execution.execute(ExecuteEvent::Done));
    assert_eq!(text, "");
    assert!(matches!(action, ExecuteAction::Finish(Ok(()))));
    let mut execution = begin();
    execution.execute(ExecuteEvent::Ran(Ok(Some(named("id")))));
    let (text, action) = shown(execution.execute(ExecuteEvent::Failed(Error::ChildMayBeRunning)));
    assert_eq!(text, "");
    assert!(matches!(action, ExecuteAction::Finish(Err(Error::ChildMayBeRunning))));
    let mut execution = begin();
    execution.execute(ExecuteEvent::Ran(Err(Error::TerminalUnsuccessful)));
    assert!(matches!(
        execution.execute(ExecuteEvent::Failed(Error::ChildMayBeRunning)).action,
        ExecuteAction::Finish(Err(Error::TerminalUnsuccessful))
    ));
}

#[test]
fn a_command_that_cannot_begin_ends_at_once() {
    let mut execution = Execution::new(Action::List);
    assert!(matches!(
        execution.execute(ExecuteEvent::Failed(Error::HomeUnset)).action,
        ExecuteAction::Finish(Err(Error::HomeUnset))
    ));
    let mut execution = Execution::new(Action::Run { name: named("work"), resume: None });
    execution.execute(ExecuteEvent::Done);
    assert!(matches!(
        execution.execute(ExecuteEvent::Interrupted).action,
        ExecuteAction::Finish(Err(Error::Interrupted))
    ));
    let mut execution = Execution::new(Action::Run { name: named("work"), resume: None });
    execution.execute(ExecuteEvent::Done);
    execution.execute(ExecuteEvent::Done);
    assert!(matches!(
        execution.execute(ExecuteEvent::Failed(Error::ProfileBusy)).action,
        ExecuteAction::Finish(Err(Error::ProfileBusy))
    ));
}

fn pending() -> Login {
    Login { auth_url: "https://auth.openai.com/x".to_owned(), login_id: "login".to_owned() }
}

#[test]
fn a_login_goes_through_the_browser_to_a_verified_account() {
    let (stage, step) = login(LoginStage::Asking, LoginEvent::SignedIn(false));
    assert!(matches!(step.action, LoginAction::BeginLogin));
    let (stage, step) = login(stage, LoginEvent::Begun(pending()));
    assert_eq!(
        step.print.as_deref(),
        Some("Complete login in your browser:\nhttps://auth.openai.com/x\n")
    );
    assert!(matches!(
        step.action,
        LoginAction::OpenBrowser { url } if url == "https://auth.openai.com/x"
    ));
    let (stage, step) = login(stage, LoginEvent::Done);
    assert!(matches!(step.action, LoginAction::AwaitLogin));
    let (stage, step) = login(stage, LoginEvent::Completed(LoginOutcome::Ready));
    assert!(matches!(step.action, LoginAction::VerifyProfile));
    let (_, step) = login(stage, LoginEvent::Verified(identity("account", None, "plus")));
    assert_eq!(step.print.as_deref(), Some("Verified account (plus)\n"));
    assert!(matches!(step.action, LoginAction::Finish(Ok(()))));
}

#[test]
fn an_unconfirmed_login_is_verified_by_a_new_helper() {
    let (stage, step) =
        login(LoginStage::Waiting(pending()), LoginEvent::Completed(LoginOutcome::Unconfirmed));
    assert!(matches!(step.action, LoginAction::RestartHelper));
    let (stage, step) = login(stage, LoginEvent::Done);
    assert!(matches!(step.action, LoginAction::VerifyProfile));
    let (_, step) = login(stage, LoginEvent::Interrupted);
    assert!(matches!(step.action, LoginAction::Finish(Err(Error::VerificationInterrupted))));
}

#[test]
fn a_login_that_fails_is_given_up() {
    for (event, error) in [
        (LoginEvent::Failed(Error::LoginTimedOut), Error::LoginTimedOut),
        (LoginEvent::Interrupted, Error::LoginInterrupted),
    ] {
        let (stage, step) = login(LoginStage::Waiting(pending()), event);
        assert!(matches!(
            step.action,
            LoginAction::CancelLogin { login_id } if login_id == "login"
        ));
        let (_, step) = login(stage, LoginEvent::Done);
        match step.action {
            LoginAction::Finish(result) => assert_eq!(result, Err(error)),
            _ => panic!("the login goes on"),
        }
    }
    for stage in [LoginStage::Asking, LoginStage::Beginning] {
        let (_, step) = login(stage, LoginEvent::Interrupted);
        assert!(matches!(step.action, LoginAction::Finish(Err(Error::LoginInterrupted))));
    }
}

#[test]
fn an_account_that_is_signed_in_is_only_verified() {
    let (_, step) = login(LoginStage::Asking, LoginEvent::SignedIn(true));
    assert!(matches!(step.action, LoginAction::VerifyProfile));
    let (_, step) = login(LoginStage::Restarting, LoginEvent::Failed(Error::ShutdownFailed));
    assert!(matches!(step.action, LoginAction::Finish(Err(Error::ShutdownFailed))));
}

#[test]
fn a_new_helper_starts_only_after_the_old_one_was_stopped() {
    let failed = |stage: RestartStage, error: Error| match restart(
        stage,
        RestartEvent::Failed(error),
    ) {
        (RestartStage::Ended, RestartAction::Finish(Err(error))) => error,
        _ => panic!("the helper is replaced"),
    };
    assert_eq!(failed(RestartStage::Stopping, Error::ShutdownFailed), Error::ShutdownFailed);
    let (stage, action) = restart(RestartStage::Stopping, RestartEvent::Done);
    assert!(matches!(action, RestartAction::Start));
    let (stage, action) = restart(stage, RestartEvent::Done);
    assert!(matches!(action, RestartAction::Introduce));
    let (_, action) = restart(stage, RestartEvent::Done);
    assert!(matches!(action, RestartAction::Finish(Ok(()))));
    assert_eq!(
        failed(RestartStage::Starting, Error::CannotStartServer),
        Error::CannotStartServer
    );
    assert_eq!(failed(RestartStage::Introducing, Error::ReadFailed), Error::ReadFailed);
}
