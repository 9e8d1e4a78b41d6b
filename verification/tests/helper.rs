use base64::engine::general_purpose::URL_SAFE_NO_PAD;
use base64::Engine;
use coduck::cli::VERSION;
use coduck::error::Error;
use coduck::helper::{
    begin_task, proceed, proceed_at, HelperAction, HelperEvent, HelperStage, HelperTask,
};
use coduck::json::Json;
use coduck::profile::{Identity, Metadata};
use coduck::rpc::FrameReader;

fn json(text: &str) -> Json {
    let line = format!("{text}\n");
    FrameReader::new().read_frame(line.as_bytes()).unwrap().frame.unwrap()
}

fn answer(text: &str) -> HelperEvent {
    HelperEvent::Answer(json(text))
}

fn token_answer(email: bool, exp: u64) -> HelperEvent {
    let email = if email { "\"email\":\"a@example.invalid\"," } else { "" };
    let claims = format!(
        "{{\"exp\":{exp},{email}\"https://api.openai.com/auth\":{{\"chatgpt_account_id\":\
         \"account\",\"user_id\":\"user\",\"chatgpt_plan_type\":\"plus\"}}}}"
    );
    let secret = format!("e30.{}.signature", URL_SAFE_NO_PAD.encode(claims));
    answer(&format!("{{\"authMethod\":\"chatgpt\",\"authToken\":\"{secret}\"}}"))
}

fn remembered(account: &str) -> HelperEvent {
    HelperEvent::Remembered(Some(Metadata {
        identity: Identity {
            account_id: account.to_owned(),
            user_id: "user".to_owned(),
            email: None,
            plan_type: "go".to_owned(),
        },
        last_verified: 1,
    }))
}

fn asked(action: HelperAction) -> &'static str {
    match action {
        HelperAction::Ask(call) => call.method,
        _ => panic!("the helper is not asked"),
    }
}

fn failure(action: HelperAction) -> Error {
    match action {
        HelperAction::Finish(Err(error)) => error,
        _ => panic!("the task goes on"),
    }
}

#[test]
fn a_helper_is_introduced_and_looked_at() {
    let (stage, action) = begin_task(HelperTask::Initialize);
    match action {
        HelperAction::Introduce(params) => {
            assert!(params.at("clientInfo").at("version").is_text(VERSION));
        }
        _ => panic!("the helper is not introduced"),
    }
    let (stage, action) = proceed(stage, HelperEvent::Done);
    assert_eq!(asked(action), "config/read");
    let config = "{\"config\":{\"cli_auth_credentials_store\":\"keyring\",\"chatgpt_base_url\":\"https://chatgpt.com/backend-api/\"}}";
    let (_, action) = proceed(stage, answer(config));
    assert!(matches!(action, HelperAction::Finish(Ok(None))));
    let (_, action) = proceed(HelperStage::Configuring, answer("{}"));
    assert_eq!(failure(action), Error::HelperStore);
    let (_, action) =
        proceed(HelperStage::Introducing, HelperEvent::Failed(Error::RequestTimedOut));
    assert_eq!(failure(action), Error::RequestTimedOut);
}

#[test]
fn a_logout_is_confirmed_before_anything_is_forgotten() {
    let (stage, action) = begin_task(HelperTask::LogOut);
    assert_eq!(asked(action), "account/logout");
    let (stage, action) = proceed(stage, answer("{}"));
    assert_eq!(asked(action), "account/read");
    let (stage, action) = proceed(stage, answer("{\"account\":null}"));
    assert!(matches!(action, HelperAction::RemoveMetadata));
    let (_, action) = proceed(stage, HelperEvent::Done);
    assert!(matches!(action, HelperAction::Finish(Ok(None))));
    for (response, error) in [
        ("{\"account\":{\"type\":\"chatgpt\"}}", Error::StillSignedIn),
        ("{}", Error::InvalidAccount),
    ] {
        let (_, action) = proceed(HelperStage::Confirming, answer(response));
        assert_eq!(failure(action), error);
    }
    let (_, action) = proceed(HelperStage::Leaving, HelperEvent::Failed(Error::RequestFailed));
    assert_eq!(failure(action), Error::RequestFailed);
}

#[test]
fn a_token_is_completed_by_the_account() {
    let (stage, action) = begin_task(HelperTask::RefreshToken);
    match action {
        HelperAction::Ask(call) => {
            assert_eq!(call.method, "getAuthStatus");
            assert_eq!(call.params.at("refreshToken").as_bool(), Some(true));
        }
        _ => panic!("the helper is not asked"),
    }
    let (stage, action) = proceed_at(stage, token_answer(false, 1000), Some(100));
    assert_eq!(asked(action), "account/read");
    let response = "{\"account\":{\"email\":\"b@example.invalid\"}}";
    match proceed_at(stage, answer(response), Some(100)).1 {
        HelperAction::Finish(Ok(Some(token))) => {
            assert_eq!(token.identity().label(), "b@example.invalid");
            assert_eq!(token.identity().account_id, "account");
        }
        _ => panic!("there is no token"),
    }
    let (stage, _) = begin_task(HelperTask::RefreshToken);
    match proceed_at(stage, token_answer(true, 1000), Some(100)).1 {
        HelperAction::Finish(Ok(Some(token))) => {
            assert_eq!(token.identity().label(), "a@example.invalid");
        }
        _ => panic!("there is no token"),
    }
}

#[test]
fn an_identity_is_held_against_what_is_remembered() {
    let read = || {
        let (stage, action) = begin_task(HelperTask::VerifyProfile);
        match action {
            HelperAction::Ask(call) => {
                assert_eq!(call.params.at("refreshToken").as_bool(), Some(false));
            }
            _ => panic!("the helper is not asked"),
        }
        let (stage, action) = proceed_at(stage, token_answer(true, 1000), Some(100));
        assert!(matches!(action, HelperAction::ReadMetadata));
        stage
    };
    for event in [remembered("account"), HelperEvent::Remembered(None)] {
        let (stage, action) = proceed_at(read(), event, Some(101));
        match action {
            HelperAction::SaveMetadata(record) => {
                assert_eq!(record.last_verified, 101);
                assert_eq!(record.identity.plan_type, "plus");
            }
            _ => panic!("nothing is remembered"),
        }
        let (_, action) = proceed_at(stage, HelperEvent::Done, Some(102));
        assert!(matches!(action, HelperAction::Finish(Ok(Some(_)))));
    }
    let (_, action) = proceed_at(read(), remembered("other"), Some(101));
    assert_eq!(failure(action), Error::IdentityChanged);
    let (_, action) = proceed_at(read(), remembered("other"), None);
    assert_eq!(failure(action), Error::IdentityChanged);
    let (_, action) = proceed_at(read(), remembered("account"), None);
    assert_eq!(failure(action), Error::ClockBeforeEpoch);
}

#[test]
fn a_token_is_judged_by_the_clock() {
    let asking = || HelperStage::AskingToken { remember: false };
    let (_, action) = proceed_at(asking(), token_answer(true, 1000), Some(1000));
    assert_eq!(failure(action), Error::TokenExpired);
    let (_, action) = proceed_at(asking(), token_answer(true, 1000), None);
    assert_eq!(failure(action), Error::ClockBeforeEpoch);
    let (_, action) = proceed_at(asking(), answer("{\"authMethod\":\"chatgpt\"}"), None);
    assert_eq!(failure(action), Error::MissingInformation);
    let (_, action) = proceed_at(asking(), answer("{}"), None);
    assert_eq!(failure(action), Error::NotManaged);
    let (_, action) = proceed(asking(), token_answer(true, 1000));
    assert_eq!(failure(action), Error::TokenExpired);
    let (_, action) = proceed(asking(), token_answer(true, 4_102_444_800));
    assert!(matches!(action, HelperAction::Finish(Ok(Some(_)))));
}
