//! Conversations with the helper that keeps a profile's credentials: what it is asked after
//! what, and when something is remembered or forgotten.

use crate::auth::{
    account_call, config_call, initialize, logout, logout_call, required_string, token,
    token_call, validate_config, Token,
};
use crate::cli::VERSION;
use crate::error::Error;
use crate::flow::verify_profile;
use crate::json::Json;
use crate::profile::{read_clock, Metadata};
use crate::rpc::Call;
use vstd::prelude::*;

use crate::auth::{
    client_params, helper_config_fault, signed_in_by, token_of, token_view, TokenView,
};
use crate::json::JsonView;
use crate::profile::{is_clock_reading, IdentityView, MetadataView};
use crate::rpc::CallView;

verus! {

/// What a helper is needed for.
#[derive(Clone, Copy, Debug, PartialEq, Eq, Structural)]
pub enum HelperTask {
    /// To be introduced and to have its configuration looked at.
    Initialize,
    /// To say whose the credentials are, which is then remembered.
    VerifyProfile,
    /// To give a fresh token.
    RefreshToken,
    /// To log out, after which what is remembered is forgotten.
    LogOut,
}

/// How far a task has come.
pub enum HelperStage {
    /// This program is being introduced.
    Introducing,
    /// The configuration is asked for.
    Configuring,
    /// A token is asked for; whether its identity is to be remembered.
    AskingToken { remember: bool },
    /// The account's address is asked for, which the token lacks.
    AskingEmail { remember: bool, token: Token },
    /// What is remembered is being read.
    Reading(Token),
    /// The identity is being remembered.
    Saving(Token),
    /// The helper is asked to log out.
    Leaving,
    /// The helper is asked whether it did.
    Confirming,
    /// What is remembered is being forgotten.
    Forgetting,
    /// It is over.
    Ended,
}

/// What a stage says.
pub enum HelperStageView {
    Introducing,
    Configuring,
    AskingToken { remember: bool },
    AskingEmail { remember: bool, token: TokenView },
    Reading(TokenView),
    Saving(TokenView),
    Leaving,
    Confirming,
    Forgetting,
    Ended,
}

impl View for HelperStage {
    type V = HelperStageView;

    open spec fn view(&self) -> HelperStageView {
        match self {
            HelperStage::Introducing => HelperStageView::Introducing,
            HelperStage::Configuring => HelperStageView::Configuring,
            HelperStage::AskingToken { remember } => HelperStageView::AskingToken {
                remember: *remember,
            },
            HelperStage::AskingEmail { remember, token } => HelperStageView::AskingEmail {
                remember: *remember,
                token: token@,
            },
            HelperStage::Reading(token) => HelperStageView::Reading(token@),
            HelperStage::Saving(token) => HelperStageView::Saving(token@),
            HelperStage::Leaving => HelperStageView::Leaving,
            HelperStage::Confirming => HelperStageView::Confirming,
            HelperStage::Forgetting => HelperStageView::Forgetting,
            HelperStage::Ended => HelperStageView::Ended,
        }
    }
}

/// How the last action went.
pub enum HelperEvent {
    /// The helper answered.
    Answer(Json),
    /// What is remembered was read.
    Remembered(Option<Metadata>),
    Done,
    Failed(Error),
}

/// What an event says.
pub enum HelperEventView {
    Answer(JsonView),
    Remembered(Option<MetadataView>),
    Done,
    Failed(Error),
}

impl View for HelperEvent {
    type V = HelperEventView;

    open spec fn view(&self) -> HelperEventView {
        match self {
            HelperEvent::Answer(response) => HelperEventView::Answer(response@),
            HelperEvent::Remembered(Some(record)) => HelperEventView::Remembered(
                Some(record@),
            ),
            HelperEvent::Remembered(None) => HelperEventView::Remembered(None),
            HelperEvent::Done => HelperEventView::Done,
            HelperEvent::Failed(error) => HelperEventView::Failed(*error),
        }
    }
}

/// What is to be done next.
pub enum HelperAction {
    /// Introduce this program with these parameters, and acknowledge the answer.
    Introduce(Json),
    /// Ask the helper.
    Ask(Call),
    ReadMetadata,
    SaveMetadata(Metadata),
    RemoveMetadata,
    /// The token, where the task is about one.
    Finish(Result<Option<Token>, Error>),
}

/// What an action says.
pub enum HelperActionView {
    Introduce(JsonView),
    Ask(CallView),
    ReadMetadata,
    SaveMetadata { identity: IdentityView, verified: u64 },
    RemoveMetadata,
    Finish(Result<Option<TokenView>, Error>),
}

impl View for HelperAction {
    type V = HelperActionView;

    open spec fn view(&self) -> HelperActionView {
        match self {
            HelperAction::Introduce(params) => HelperActionView::Introduce(params@),
            HelperAction::Ask(call) => HelperActionView::Ask(call@),
            HelperAction::ReadMetadata => HelperActionView::ReadMetadata,
            HelperAction::SaveMetadata(record) => HelperActionView::SaveMetadata {
                identity: record.identity@,
                verified: record.last_verified,
            },
            HelperAction::RemoveMetadata => HelperActionView::RemoveMetadata,
            HelperAction::Finish(Ok(Some(token))) => HelperActionView::Finish(Ok(Some(token@))),
            HelperAction::Finish(Ok(None)) => HelperActionView::Finish(Ok(None)),
            HelperAction::Finish(Err(error)) => HelperActionView::Finish(Err(*error)),
        }
    }
}

/// A question about the configuration.
pub open spec fn config_question() -> CallView {
    CallView {
        method: "config/read"@,
        params: JsonView::object().with("includeLayers"@, JsonView::Bool(false)),
    }
}

/// A question about the account.
pub open spec fn account_question() -> CallView {
    CallView {
        method: "account/read"@,
        params: JsonView::object().with("refreshToken"@, JsonView::Bool(false)),
    }
}

/// A question for a token, which is to be fresh or not.
pub open spec fn token_question(fresh: bool) -> CallView {
    CallView {
        method: "getAuthStatus"@,
        params: JsonView::object().with("includeToken"@, JsonView::Bool(true)).with(
            "refreshToken"@,
            JsonView::Bool(fresh),
        ),
    }
}

/// A request to log out.
pub open spec fn logout_question() -> CallView {
    CallView { method: "account/logout"@, params: JsonView::object() }
}

/// How a task begins.
pub open spec fn task_begun(task: HelperTask) -> (HelperStageView, HelperActionView) {
    match task {
        HelperTask::Initialize => (
            HelperStageView::Introducing,
            HelperActionView::Introduce(client_params(VERSION@)),
        ),
        HelperTask::VerifyProfile => (
            HelperStageView::AskingToken { remember: true },
            HelperActionView::Ask(token_question(false)),
        ),
        HelperTask::RefreshToken => (
            HelperStageView::AskingToken { remember: false },
            HelperActionView::Ask(token_question(true)),
        ),
        HelperTask::LogOut => (HelperStageView::Leaving, HelperActionView::Ask(logout_question())),
    }
}

/// The token in the helper's answer at a time; none where the clock is set before the
/// beginning of 1970.
pub open spec fn token_at(response: JsonView, now: Option<u64>) -> Result<TokenView, Error> {
    if response.at("authMethod"@) != JsonView::Text("chatgpt"@) {
        Err(Error::NotManaged)
    } else if response.at("authToken"@).as_filled_text() is None {
        Err(Error::MissingInformation)
    } else {
        match now {
            Some(seconds) => token_of(response, seconds),
            None => Err(Error::ClockBeforeEpoch),
        }
    }
}

/// A token with the address that the helper gives for the account.
pub open spec fn with_email(token: TokenView, response: JsonView) -> TokenView {
    TokenView {
        identity: IdentityView {
            email: response.at("account"@).at("email"@).as_text(),
            ..token.identity
        },
        ..token
    }
}

/// Whether an event can come at a stage.
pub open spec fn task_expects(stage: HelperStageView, event: HelperEventView) -> bool {
    match stage {
        HelperStageView::Introducing => event is Done || event is Failed,
        HelperStageView::Reading(_) => event is Remembered || event is Failed,
        HelperStageView::Saving(_) => event is Done || event is Failed,
        HelperStageView::Forgetting => event is Done || event is Failed,
        HelperStageView::Ended => false,
        _ => event is Answer || event is Failed,
    }
}

/// The task is over without success.
pub open spec fn task_failed(error: Error) -> (HelperStageView, HelperActionView) {
    (HelperStageView::Ended, HelperActionView::Finish(Err(error)))
}

/// The task is over; the token, where it is about one.
pub open spec fn task_done(token: Option<TokenView>) -> (HelperStageView, HelperActionView) {
    (HelperStageView::Ended, HelperActionView::Finish(Ok(token)))
}

/// A token is complete: it is handed on, or first held against what is remembered.
pub open spec fn token_complete(remember: bool, token: TokenView) -> (
    HelperStageView,
    HelperActionView,
) {
    if remember {
        (HelperStageView::Reading(token), HelperActionView::ReadMetadata)
    } else {
        task_done(Some(token))
    }
}

/// One step of a task, at a time. A logout counts only when the helper confirms that no
/// account is signed in, and only then is anything forgotten; an identity is remembered only
/// when it is the one that was remembered before, if any was.
pub open spec fn task_next(
    stage: HelperStageView,
    event: HelperEventView,
    now: Option<u64>,
) -> (HelperStageView, HelperActionView) {
    match (stage, event) {
        (_, HelperEventView::Failed(error)) => task_failed(error),
        (HelperStageView::Introducing, _) => (
            HelperStageView::Configuring,
            HelperActionView::Ask(config_question()),
        ),
        (HelperStageView::Configuring, HelperEventView::Answer(response)) => {
            match helper_config_fault(response.at("config"@)) {
                Some(error) => task_failed(error),
                None => task_done(None),
            }
        },
        (HelperStageView::AskingToken { remember }, HelperEventView::Answer(response)) => {
            match token_at(response, now) {
                Err(error) => task_failed(error),
                Ok(token) => if token.identity.email is None {
                    (
                        HelperStageView::AskingEmail { remember, token },
                        HelperActionView::Ask(account_question()),
                    )
                } else {
                    token_complete(remember, token)
                },
            }
        },
        (HelperStageView::AskingEmail { remember, token }, HelperEventView::Answer(response)) => {
            token_complete(remember, with_email(token, response))
        },
        (HelperStageView::Reading(token), HelperEventView::Remembered(saved)) => {
            if saved matches Some(record) && !record.identity.same_account(token.identity) {
                task_failed(Error::IdentityChanged)
            } else {
                match now {
                    None => task_failed(Error::ClockBeforeEpoch),
                    Some(seconds) => (
                        HelperStageView::Saving(token),
                        HelperActionView::SaveMetadata {
                            identity: token.identity,
                            verified: seconds,
                        },
                    ),
                }
            }
        },
        (HelperStageView::Saving(token), _) => task_done(Some(token)),
        (HelperStageView::Leaving, _) => (
            HelperStageView::Confirming,
            HelperActionView::Ask(account_question()),
        ),
        (HelperStageView::Confirming, HelperEventView::Answer(response)) => {
            match signed_in_by(response) {
                Err(error) => task_failed(error),
                Ok(true) => task_failed(Error::StillSignedIn),
                Ok(false) => (HelperStageView::Forgetting, HelperActionView::RemoveMetadata),
            }
        },
        _ => task_done(None),
    }
}

fn fail_task(error: Error) -> (next: (HelperStage, HelperAction))
    ensures
        (next.0@, next.1@) == task_failed(error),
{
    (HelperStage::Ended, HelperAction::Finish(Err(error)))
}

fn finish_task() -> (next: (HelperStage, HelperAction))
    ensures
        (next.0@, next.1@) == task_done(None),
{
    (HelperStage::Ended, HelperAction::Finish(Ok(None)))
}

fn complete_token(remember: bool, token: Token) -> (next: (HelperStage, HelperAction))
    ensures
        (next.0@, next.1@) == token_complete(remember, token@),
{
    if remember {
        (HelperStage::Reading(token), HelperAction::ReadMetadata)
    } else {
        (HelperStage::Ended, HelperAction::Finish(Ok(Some(token))))
    }
}

fn answered_token(response: &Json, now: Option<u64>) -> (answered: Result<Token, Error>)
    ensures
        token_view(answered) == token_at(response@, now),
{
    match now {
        Some(seconds) => token(response, seconds),
        None => {
            if !response.at("authMethod").is_text("chatgpt") {
                return Err(Error::NotManaged);
            }
            match required_string(response, "authToken") {
                Ok(_) => Err(Error::ClockBeforeEpoch),
                Err(error) => Err(error),
            }
        },
    }
}

/// Begins a task.
pub fn begin_task(task: HelperTask) -> (begun: (HelperStage, HelperAction))
    ensures
        (begun.0@, begun.1@) == task_begun(task),
{
    match task {
        HelperTask::Initialize => (
            HelperStage::Introducing,
            HelperAction::Introduce(initialize(VERSION)),
        ),
        HelperTask::VerifyProfile => (
            HelperStage::AskingToken { remember: true },
            HelperAction::Ask(token_call(false)),
        ),
        HelperTask::RefreshToken => (
            HelperStage::AskingToken { remember: false },
            HelperAction::Ask(token_call(true)),
        ),
        HelperTask::LogOut => (HelperStage::Leaving, HelperAction::Ask(logout_call())),
    }
}

/// Decides the next step of a task at the given time; none where the clock is set before the
/// beginning of 1970.
pub fn proceed_at(stage: HelperStage, event: HelperEvent, now: Option<u64>) -> (next: (
    HelperStage,
    HelperAction,
))
    requires
        task_expects(stage@, event@),
    ensures
        (next.0@, next.1@) == task_next(stage@, event@, now),
{
    match (stage, event) {
        (_, HelperEvent::Failed(error)) => fail_task(error),
        (HelperStage::Introducing, _) => (
            HelperStage::Configuring,
            HelperAction::Ask(config_call()),
        ),
        (HelperStage::Configuring, HelperEvent::Answer(response)) => {
            match validate_config(response.at("config")) {
                Err(error) => fail_task(error),
                Ok(()) => finish_task(),
            }
        },
        (HelperStage::AskingToken { remember }, HelperEvent::Answer(response)) => {
            match answered_token(&response, now) {
                Err(error) => fail_task(error),
                Ok(token) => if token.needs_email() {
                    (
                        HelperStage::AskingEmail { remember, token },
                        HelperAction::Ask(account_call()),
                    )
                } else {
                    complete_token(remember, token)
                },
            }
        },
        (HelperStage::AskingEmail { remember, token }, HelperEvent::Answer(response)) => {
            complete_token(remember, token.with_account_email(&response))
        },
        (HelperStage::Reading(token), HelperEvent::Remembered(saved)) => {
            let seconds: u64 = match now {
                Some(seconds) => seconds,
                None => 0,
            };
            match verify_profile(&saved, &token, seconds) {
                Err(error) => fail_task(error),
                Ok(record) => if now.is_none() {
                    fail_task(Error::ClockBeforeEpoch)
                } else {
                    (HelperStage::Saving(token), HelperAction::SaveMetadata(record))
                },
            }
        },
        (HelperStage::Saving(token), _) => (
            HelperStage::Ended,
            HelperAction::Finish(Ok(Some(token))),
        ),
        (HelperStage::Leaving, _) => (HelperStage::Confirming, HelperAction::Ask(account_call())),
        (HelperStage::Confirming, HelperEvent::Answer(response)) => {
            match logout(&response) {
                Err(error) => fail_task(error),
                Ok(()) => (HelperStage::Forgetting, HelperAction::RemoveMetadata),
            }
        },
        _ => finish_task(),
    }
}

/// Decides the next step of a task at the present time: the one that the system's clock gives.
pub fn proceed(stage: HelperStage, event: HelperEvent) -> (next: (HelperStage, HelperAction))
    requires
        task_expects(stage@, event@),
    ensures
        exists|now: Option<u64>| #[trigger]
            is_clock_reading(now) && (next.0@, next.1@) == task_next(stage@, event@, now),
{
    proceed_at(stage, event, read_clock())
}

/// What is remembered of a profile is forgotten only when the helper was asked to log out and
/// has confirmed that no account is signed in; a logout that fails leaves it alone.
pub proof fn law_logout_is_confirmed(
    stage: HelperStageView,
    event: HelperEventView,
    now: Option<u64>,
)
    requires
        task_expects(stage, event),
    ensures
        ({
            let (next, action) = task_next(stage, event, now);
            &&& (action is RemoveMetadata ==> stage is Confirming && (
            event matches HelperEventView::Answer(response) && response.get("account"@) == Some(
                JsonView::Null,
            )))
            &&& next is Confirming ==> stage is Leaving && event is Answer
            &&& next is Forgetting <==> action is RemoveMetadata
            &&& stage is Leaving || stage is Confirming ==> !(action matches
                HelperActionView::Finish(Ok(_)))
        }),
{
}

/// An identity is remembered only when a token says so, and only in place of the same account,
/// if one is remembered.
pub proof fn law_identity_is_verified_before_it_is_remembered(
    stage: HelperStageView,
    event: HelperEventView,
    now: Option<u64>,
)
    requires
        task_expects(stage, event),
    ensures
        task_next(stage, event, now).1 matches HelperActionView::SaveMetadata { identity, verified }
            ==> {
            &&& stage matches HelperStageView::Reading(token) && token.identity == identity
            &&& event matches HelperEventView::Remembered(saved) && (saved matches Some(
                record,
            ) ==> record.identity.same_account(identity))
            &&& now == Some(verified)
        },
{
}

/// A token that is remembered, or handed on, names the account that the helper's token names:
/// the account's address is all that the helper may add.
pub proof fn law_only_the_address_is_added(token: TokenView, response: JsonView)
    ensures
        with_email(token, response).secret == token.secret,
        with_email(token, response).identity.same_account(token.identity),
        with_email(token, response).identity.plan_type == token.identity.plan_type,
{
}

} // verus!
