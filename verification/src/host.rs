//! The host of the credentials: it serves what the connections of a run ask of it, one request
//! after another.

use crate::auth::{check_refresh, refresh, Token};
use crate::bridge::AuthRequest;
use crate::error::Error;
use crate::json::Json;
use crate::profile::Identity;
use vstd::prelude::*;

use crate::auth::{refresh_fault, TokenView};
use crate::bridge::{host_deadline, AuthRequestView};
use crate::json::JsonView;
use crate::profile::IdentityView;

verus! {

/// For how many seconds a request may keep the host busy.
pub const HOST_TIMEOUT: u64 = 7;

/// How far the host has come with a request.
pub enum HostStage {
    /// There is none.
    Idle,
    /// The credentials are being taken hold of.
    Opening(AuthRequest),
    /// The helper is being initialized.
    Initializing(AuthRequest),
    /// The account is being verified for a login.
    Verifying,
    /// The helper is asked for a fresh token.
    Refreshing,
    /// The identity of a fresh token is being remembered.
    Saving(Token),
    /// The helper is logging out.
    LoggingOut,
    /// The request was answered, and the credentials are being let go of.
    Finishing { logged_out: bool },
    /// The end of the run is awaited after a logout.
    AwaitingStop,
    /// It is over.
    Ended,
}

/// What a stage says.
pub enum HostStageView {
    Idle,
    Opening(AuthRequestView),
    Initializing(AuthRequestView),
    Verifying,
    Refreshing,
    Saving(TokenView),
    LoggingOut,
    Finishing { logged_out: bool },
    AwaitingStop,
    Ended,
}

impl View for HostStage {
    type V = HostStageView;

    open spec fn view(&self) -> HostStageView {
        match self {
            HostStage::Idle => HostStageView::Idle,
            HostStage::Opening(request) => HostStageView::Opening(request@),
            HostStage::Initializing(request) => HostStageView::Initializing(request@),
            HostStage::Verifying => HostStageView::Verifying,
            HostStage::Refreshing => HostStageView::Refreshing,
            HostStage::Saving(token) => HostStageView::Saving(token@),
            HostStage::LoggingOut => HostStageView::LoggingOut,
            HostStage::Finishing { logged_out } => HostStageView::Finishing {
                logged_out: *logged_out,
            },
            HostStage::AwaitingStop => HostStageView::AwaitingStop,
            HostStage::Ended => HostStageView::Ended,
        }
    }
}

/// What happened.
pub enum HostEvent {
    /// The run ends.
    Stopped,
    /// Nobody can ask any more.
    Closed,
    Request(AuthRequest),
    /// The last action was done.
    Done,
    /// The helper gave a token.
    Token(Token),
    /// The last action failed.
    Failed(Error),
    /// The time for the request is up.
    TimedOut,
}

/// What an event says.
pub enum HostEventView {
    Stopped,
    Closed,
    Request(AuthRequestView),
    Done,
    Token(TokenView),
    Failed(Error),
    TimedOut,
}

impl View for HostEvent {
    type V = HostEventView;

    open spec fn view(&self) -> HostEventView {
        match self {
            HostEvent::Stopped => HostEventView::Stopped,
            HostEvent::Closed => HostEventView::Closed,
            HostEvent::Request(request) => HostEventView::Request(request@),
            HostEvent::Done => HostEventView::Done,
            HostEvent::Token(token) => HostEventView::Token(token@),
            HostEvent::Failed(error) => HostEventView::Failed(*error),
            HostEvent::TimedOut => HostEventView::TimedOut,
        }
    }
}

/// What is to be done next.
pub enum HostAction {
    /// Await a request, or the end of the run.
    Listen,
    /// Take hold of the credentials, in order to log out or not, and start the helper.
    Open { logout: bool },
    Initialize,
    /// Ask the helper for a token, hold it against what is remembered, and remember it.
    VerifyProfile,
    /// Ask the helper for a fresh token.
    AskToken,
    /// Remember the identity that a fresh token is for.
    SaveIdentity(Identity),
    LogOut,
    /// Stop the helper, take it out of the record of children and let go of the credentials.
    FinishAuth,
    /// Await the end of the run.
    AwaitStop,
    Finish(Result<(), Error>),
}

/// What an action says.
pub enum HostActionView {
    Listen,
    Open { logout: bool },
    Initialize,
    VerifyProfile,
    AskToken,
    SaveIdentity(IdentityView),
    LogOut,
    FinishAuth,
    AwaitStop,
    Finish(Result<(), Error>),
}

impl View for HostAction {
    type V = HostActionView;

    open spec fn view(&self) -> HostActionView {
        match self {
            HostAction::Listen => HostActionView::Listen,
            HostAction::Open { logout } => HostActionView::Open { logout: *logout },
            HostAction::Initialize => HostActionView::Initialize,
            HostAction::VerifyProfile => HostActionView::VerifyProfile,
            HostAction::AskToken => HostActionView::AskToken,
            HostAction::SaveIdentity(identity) => HostActionView::SaveIdentity(identity@),
            HostAction::LogOut => HostActionView::LogOut,
            HostAction::FinishAuth => HostActionView::FinishAuth,
            HostAction::AwaitStop => HostActionView::AwaitStop,
            HostAction::Finish(result) => HostActionView::Finish(*result),
        }
    }
}

/// What a request is answered, if it is, and what is to be done after that.
pub struct HostStep {
    pub reply: Option<Result<Json, Error>>,
    pub action: HostAction,
}

/// What a step says.
pub struct HostStepView {
    pub reply: Option<Result<JsonView, Error>>,
    pub action: HostActionView,
}

/// What an answer says.
pub open spec fn reply_view(reply: Option<Result<Json, Error>>) -> Option<
    Result<JsonView, Error>,
> {
    match reply {
        Some(Ok(value)) => Some(Ok(value@)),
        Some(Err(error)) => Some(Err(error)),
        None => None,
    }
}

impl View for HostStep {
    type V = HostStepView;

    open spec fn view(&self) -> HostStepView {
        HostStepView { reply: reply_view(self.reply), action: self.action@ }
    }
}

/// The host of the credentials of one run.
pub struct AuthHost {
    saved: Identity,
    token: Token,
    stage: HostStage,
}

/// What is known of a host.
pub struct AuthHostView {
    /// Whose the credentials are.
    pub saved: IdentityView,
    /// The last token that was handed out.
    pub token: TokenView,
    pub stage: HostStageView,
}

impl View for AuthHost {
    type V = AuthHostView;

    closed spec fn view(&self) -> AuthHostView {
        AuthHostView { saved: self.saved@, token: self.token@, stage: self.stage@ }
    }
}

impl AuthHostView {
    /// What holds at all times: the token is for the account of the run.
    pub open spec fn wf(self) -> bool {
        &&& self.saved.same_account(self.token.identity)
        &&& (self.stage matches HostStageView::Saving(next) ==> self.saved.same_account(
            next.identity,
        ))
    }

    /// Whether an event can come.
    pub open spec fn expects(self, event: HostEventView) -> bool {
        match self.stage {
            HostStageView::Idle => event is Stopped || event is Closed || event is Request,
            HostStageView::Opening(_) => event is Done || event is Failed || event is TimedOut,
            HostStageView::Initializing(_) => event is Done || event is Failed || event is TimedOut,
            HostStageView::Verifying => event is Token || event is Failed || event is TimedOut,
            HostStageView::Refreshing => event is Token || event is Failed || event is TimedOut,
            HostStageView::Saving(_) => event is Done || event is Failed || event is TimedOut,
            HostStageView::LoggingOut => event is Done || event is Failed || event is TimedOut,
            HostStageView::Finishing { .. } => event is Done || event is Failed,
            HostStageView::AwaitingStop => event is Stopped,
            HostStageView::Ended => false,
        }
    }

    /// The host goes on without an answer.
    pub open spec fn going(self, stage: HostStageView, action: HostActionView) -> (
        AuthHostView,
        HostStepView,
    ) {
        (AuthHostView { stage, ..self }, HostStepView { reply: None, action })
    }

    /// The request is answered, and the credentials are let go of.
    pub open spec fn answering(self, reply: Result<JsonView, Error>, logged_out: bool) -> (
        AuthHostView,
        HostStepView,
    ) {
        (
            AuthHostView { stage: HostStageView::Finishing { logged_out }, ..self },
            HostStepView { reply: Some(reply), action: HostActionView::FinishAuth },
        )
    }

    /// The credentials could not be taken hold of.
    pub open spec fn not_opening(self, error: Error) -> (AuthHostView, HostStepView) {
        (
            AuthHostView { stage: HostStageView::Idle, ..self },
            HostStepView { reply: Some(Err(error)), action: HostActionView::Listen },
        )
    }

    /// The helper is initialized: the request is looked at.
    pub open spec fn on_request(self, request: AuthRequestView) -> (AuthHostView, HostStepView) {
        match request {
            AuthRequestView::Login => self.going(
                HostStageView::Verifying,
                HostActionView::VerifyProfile,
            ),
            AuthRequestView::Refresh { params } => match refresh_fault(
                self.saved,
                self.token.identity,
                params,
            ) {
                Some(error) => self.answering(Err(error), false),
                None => self.going(HostStageView::Refreshing, HostActionView::AskToken),
            },
            AuthRequestView::Logout => self.going(
                HostStageView::LoggingOut,
                HostActionView::LogOut,
            ),
        }
    }

    /// The helper gave a fresh token.
    pub open spec fn on_fresh(self, next: TokenView) -> (AuthHostView, HostStepView) {
        if !self.saved.same_account(next.identity) {
            self.answering(Err(Error::IdentityChanged), false)
        } else if next.secret == self.token.secret {
            self.answering(Err(Error::TokenNotRefreshed), false)
        } else {
            self.going(
                HostStageView::Saving(next),
                HostActionView::SaveIdentity(next.identity),
            )
        }
    }

    /// One step of the host. A token is handed out only for the account of the run, and only
    /// after it was verified and remembered.
    pub open spec fn next(self, event: HostEventView) -> (AuthHostView, HostStepView) {
        let failure = match event {
            HostEventView::Failed(error) => error,
            _ => Error::AuthenticationTimedOut,
        };
        match (self.stage, event) {
            (HostStageView::Idle, HostEventView::Request(request)) => self.going(
                HostStageView::Opening(request),
                HostActionView::Open { logout: request is Logout },
            ),
            (HostStageView::Opening(request), HostEventView::Done) => self.going(
                HostStageView::Initializing(request),
                HostActionView::Initialize,
            ),
            (HostStageView::Opening(_), _) => self.not_opening(failure),
            (HostStageView::Initializing(request), HostEventView::Done) => self.on_request(request),
            (HostStageView::Verifying, HostEventView::Token(next)) => if self.saved.same_account(
                next.identity,
            ) {
                (AuthHostView { token: next, ..self }).answering(Ok(next.login_params()), false)
            } else {
                self.answering(Err(Error::IdentityChanged), false)
            },
            (HostStageView::Refreshing, HostEventView::Token(next)) => self.on_fresh(next),
            (HostStageView::Saving(next), HostEventView::Done) => (AuthHostView {
                token: next,
                ..self
            }).answering(Ok(next.refresh_result()), false),
            (HostStageView::LoggingOut, HostEventView::Done) => self.answering(
                Ok(JsonView::object()),
                true,
            ),
            (HostStageView::Finishing { .. }, HostEventView::Failed(error)) => self.going(
                HostStageView::Ended,
                HostActionView::Finish(Err(error)),
            ),
            (HostStageView::Finishing { logged_out }, _) => if logged_out {
                self.going(HostStageView::AwaitingStop, HostActionView::AwaitStop)
            } else {
                self.going(HostStageView::Idle, HostActionView::Listen)
            },
            (HostStageView::Idle, _) => self.going(
                HostStageView::Ended,
                HostActionView::Finish(Ok(())),
            ),
            (HostStageView::AwaitingStop, _) => self.going(
                HostStageView::Ended,
                HostActionView::Finish(Ok(())),
            ),
            (HostStageView::Ended, _) => self.going(
                HostStageView::Ended,
                HostActionView::Finish(Ok(())),
            ),
            _ => self.answering(Err(failure), false),
        }
    }
}

impl AuthHost {
    /// A host that begins with a token: the account of the run is the one that it is for.
    pub fn new(token: Token) -> (host: AuthHost)
        ensures
            host@ == (AuthHostView {
                saved: token@.identity,
                token: token@,
                stage: HostStageView::Idle,
            }),
            host@.wf(),
    {
        AuthHost { saved: token.identity().clone(), token, stage: HostStage::Idle }
    }

    fn go(&mut self, stage: HostStage, action: HostAction) -> (step: HostStep)
        ensures
            (final(self)@, step@) == old(self)@.going(stage@, action@),
    {
        self.stage = stage;
        HostStep { reply: None, action }
    }

    fn answer(&mut self, reply: Result<Json, Error>, logged_out: bool) -> (step: HostStep)
        ensures
            (final(self)@, step@) == old(self)@.answering(reply_view(Some(reply))->0, logged_out),
    {
        self.stage = HostStage::Finishing { logged_out };
        HostStep { reply: Some(reply), action: HostAction::FinishAuth }
    }

    fn look_at(&mut self, request: AuthRequest) -> (step: HostStep)
        ensures
            (final(self)@, step@) == old(self)@.on_request(request@),
    {
        match request {
            AuthRequest::Login => self.go(HostStage::Verifying, HostAction::VerifyProfile),
            AuthRequest::Refresh { params } => {
                match check_refresh(&self.saved, &self.token, &params) {
                    Err(error) => self.answer(Err(error), false),
                    Ok(()) => self.go(HostStage::Refreshing, HostAction::AskToken),
                }
            },
            AuthRequest::Logout => self.go(HostStage::LoggingOut, HostAction::LogOut),
        }
    }

    /// One step of the host.
    pub fn serve_auth(&mut self, event: HostEvent) -> (step: HostStep)
        requires
            old(self)@.wf(),
            old(self)@.expects(event@),
        ensures
            (final(self)@, step@) == old(self)@.next(event@),
            final(self)@.wf(),
    {
        let mut stage = HostStage::Ended;
        std::mem::swap(&mut stage, &mut self.stage);
        match (stage, event) {
            (HostStage::Idle, HostEvent::Request(request)) => {
                let logout = matches!(request, AuthRequest::Logout);
                self.go(HostStage::Opening(request), HostAction::Open { logout })
            },
            (HostStage::Opening(request), HostEvent::Done) => self.go(
                HostStage::Initializing(request),
                HostAction::Initialize,
            ),
            (HostStage::Opening(_), HostEvent::Failed(error)) => {
                self.stage = HostStage::Idle;
                HostStep { reply: Some(Err(error)), action: HostAction::Listen }
            },
            (HostStage::Opening(_), _) => {
                self.stage = HostStage::Idle;
                HostStep {
                    reply: Some(Err(Error::AuthenticationTimedOut)),
                    action: HostAction::Listen,
                }
            },
            (HostStage::Initializing(request), HostEvent::Done) => self.look_at(request),
            (HostStage::Verifying, HostEvent::Token(next)) => {
                match self.saved.ensure_same_account(next.identity()) {
                    Ok(()) => {
                        let params = next.login_params();
                        self.token = next;
                        self.answer(Ok(params), false)
                    },
                    Err(error) => self.answer(Err(error), false),
                }
            },
            (HostStage::Refreshing, HostEvent::Token(next)) => {
                match refresh(&self.saved, &self.token, next) {
                    Ok(next) => {
                        let identity = next.identity().clone();
                        self.go(HostStage::Saving(next), HostAction::SaveIdentity(identity))
                    },
                    Err(error) => self.answer(Err(error), false),
                }
            },
            (HostStage::Saving(next), HostEvent::Done) => {
                let result = next.refresh_result();
                self.token = next;
                self.answer(Ok(result), false)
            },
            (HostStage::LoggingOut, HostEvent::Done) => self.answer(Ok(Json::object()), true),
            (HostStage::Finishing { .. }, HostEvent::Failed(error)) => self.go(
                HostStage::Ended,
                HostAction::Finish(Err(error)),
            ),
            (HostStage::Finishing { logged_out }, _) => if logged_out {
                self.go(HostStage::AwaitingStop, HostAction::AwaitStop)
            } else {
                self.go(HostStage::Idle, HostAction::Listen)
            },
            (HostStage::Idle, _) => self.go(HostStage::Ended, HostAction::Finish(Ok(()))),
            (HostStage::AwaitingStop, _) => self.go(HostStage::Ended, HostAction::Finish(Ok(()))),
            (HostStage::Ended, _) => self.go(HostStage::Ended, HostAction::Finish(Ok(()))),
            (_, HostEvent::Failed(error)) => self.answer(Err(error), false),
            _ => self.answer(Err(Error::AuthenticationTimedOut), false),
        }
    }
}

/// A host hands out tokens for one account alone, from its first request to its last.
pub proof fn law_host_stays_with_one_account(host: AuthHostView, event: HostEventView)
    requires
        host.wf(),
        host.expects(event),
    ensures
        host.next(event).0.saved == host.saved,
        host.next(event).0.wf(),
        host.next(event).1.reply matches Some(Ok(value)) ==> {
            let token = host.next(event).0.token;
            ||| value == JsonView::object() && host.stage is LoggingOut
            ||| value == token.login_params() && host.saved.same_account(token.identity)
            ||| value == token.refresh_result() && host.saved.same_account(token.identity)
        },
{
}

/// Whether a request is being served and was not answered yet.
pub open spec fn is_owed_an_answer(stage: HostStageView) -> bool {
    ||| stage is Opening
    ||| stage is Initializing
    ||| stage is Verifying
    ||| stage is Refreshing
    ||| stage is Saving
    ||| stage is LoggingOut
}

/// Every request is answered, and only once; and the credentials are let go of after each
/// request for which they were taken hold of.
pub proof fn law_requests_are_answered_once(host: AuthHostView, event: HostEventView)
    requires
        host.expects(event),
    ensures
        ({
            let (next, step) = host.next(event);
            &&& step.reply is Some ==> is_owed_an_answer(host.stage) && !is_owed_an_answer(
                next.stage,
            )
            &&& is_owed_an_answer(host.stage) ==> (step.reply is Some || is_owed_an_answer(
                next.stage,
            ))
            &&& step.reply is Some && !(host.stage is Opening) ==> step.action is FinishAuth
            &&& event is Request ==> is_owed_an_answer(next.stage)
        }),
{
}

/// After a logout that succeeded nothing more is served.
pub proof fn law_logout_is_the_last_request(host: AuthHostView, event: HostEventView)
    requires
        host.expects(event),
    ensures
        ({
            let (next, step) = host.next(event);
            &&& host.stage is LoggingOut && event is Done ==> next.stage
                == HostStageView::Finishing { logged_out: true }
            &&& host.stage == (HostStageView::Finishing { logged_out: true }) ==> next.stage
                is AwaitingStop || next.stage is Ended
            &&& host.stage is AwaitingStop ==> next.stage is Ended
            &&& next.stage == (HostStageView::Finishing { logged_out: true }) ==> host.stage
                is LoggingOut && event is Done && step.reply is Some && step.reply->0 is Ok
        }),
{
}

/// The host gives a request up before the bridge does, so that whoever asked gets the host's
/// own answer.
pub proof fn law_host_answers_before_it_is_given_up(request: AuthRequestView)
    ensures
        HOST_TIMEOUT < host_deadline(request),
{
}

} // verus!
