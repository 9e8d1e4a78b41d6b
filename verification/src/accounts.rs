//! Whose account a profile uses: what a token has to say, what a helper is asked and believed,
//! and what the host hands out.

use crate::error::Error;
use vstd::prelude::*;

use crate::auth::{
    base64_padded, base64_unpadded, claims_bytes, helper_config_fault, login_course, login_news,
    plan_name, refresh_fault, signed_in_by, token_identity, token_of, LoginNews, LoginOutcome,
    TokenView,
};
use crate::bridge::AuthRequestView;
use crate::helper::{
    task_begun, task_next, HelperActionView, HelperEventView, HelperStageView, HelperTask,
};
use crate::host::{AuthHostView, HostActionView, HostEventView};
use crate::json::{json_read, JsonView};
use crate::profile::{IdentityView, MetadataView};
use crate::rpc::CallView;
use crate::text::{
    law_parts_are_cut_at_each_mark, law_text_without_marks_is_one_part, lower_char, lower_text,
};

verus! {

/// A text with its ASCII capitals made small.
pub open spec fn in_small_letters(text: Seq<char>) -> Seq<char> {
    Seq::new(
        text.len(),
        |i: int|
            if 'A' <= text[i] <= 'Z' {
                (text[i] as u32 + 32) as char
            } else {
                text[i]
            },
    )
}

/// Whether a plan is one of those that are offered.
pub open spec fn is_offered(plan: Seq<char>) -> bool {
    ||| plan == "free"@
    ||| plan == "go"@
    ||| plan == "plus"@
    ||| plan == "pro"@
    ||| plan == "prolite"@
    ||| plan == "team"@
    ||| plan == "self_serve_business_prolite"@
    ||| plan == "self_serve_business_usage_based"@
    ||| plan == "business"@
    ||| plan == "ent26"@
    ||| plan == "enterprise_cbp_automation"@
    ||| plan == "enterprise_cbp_usage_based"@
    ||| plan == "enterprise"@
    ||| plan == "edu"@
    ||| plan == "edu_plus"@
    ||| plan == "edu_pro"@
}

/// The plan that a token means: in small letters, and two of them by another name.
pub open spec fn plan_meant(plan: Seq<char>) -> Seq<char> {
    let small = in_small_letters(plan);
    if small == "education"@ {
        "edu"@
    } else if small == "hc"@ {
        "enterprise"@
    } else {
        small
    }
}

/// Whether a value is a text with something in it.
pub open spec fn is_filled(value: JsonView) -> bool {
    value matches JsonView::Text(text) && text.len() > 0
}

proof fn lemma_plan(plan: Seq<char>)
    ensures
        plan_name(plan) == plan_meant(plan),
{
    assert forall|i: int| 0 <= i < plan.len() implies lower_text(plan)[i] == in_small_letters(
        plan,
    )[i] by {
        assert(lower_text(plan)[i] == lower_char(plan[i]));
    }
    assert(lower_text(plan) =~= in_small_letters(plan));
}

/// A token says whose it is in the second of three parts: an account, a user under one of two
/// names, a plan that is offered, and an address where it has one. It is believed as long as it
/// has more than half a minute left, and each thing that is wrong with it is told apart.
pub proof fn law_whom_a_token_names(
    header: Seq<char>,
    payload: Seq<char>,
    signature: Seq<char>,
    bytes: Seq<u8>,
    claims: JsonView,
    now: u64,
)
    requires
        !header.contains('.'),
        !payload.contains('.'),
        !signature.contains('.'),
        base64_unpadded(payload) == Some(bytes) || base64_unpadded(payload) is None
            && base64_padded(payload) == Some(bytes),
        json_read(bytes) == Some(claims),
    ensures
        ({
            let secret = header.push('.') + (payload.push('.') + signature);
            let known = token_identity(secret, now);
            let auth = claims.at("https://api.openai.com/auth"@);
            let account = auth.at("chatgpt_account_id"@);
            let user = if is_filled(auth.at("chatgpt_user_id"@)) {
                auth.at("chatgpt_user_id"@)
            } else {
                auth.at("user_id"@)
            };
            let plan = auth.at("chatgpt_plan_type"@);
            let email = if is_filled(claims.at("email"@)) {
                claims.at("email"@)
            } else {
                claims.at("https://api.openai.com/profile"@).at("email"@)
            };
            match claims.at("exp"@) {
                JsonView::Unsigned(expiry) => if expiry <= now + 30 {
                    known == Err::<IdentityView, Error>(Error::TokenExpired)
                } else if !is_filled(account) {
                    known == Err::<IdentityView, Error>(Error::MissingInformation)
                } else if !is_filled(user) {
                    known == Err::<IdentityView, Error>(Error::NoUserIdentity)
                } else if !is_filled(plan) {
                    known == Err::<IdentityView, Error>(Error::MissingInformation)
                } else if !is_offered(plan_meant(plan->Text_0)) {
                    known == Err::<IdentityView, Error>(Error::UnsupportedPlan)
                } else {
                    known == Ok::<IdentityView, Error>(
                        IdentityView {
                            account_id: account->Text_0,
                            user_id: user->Text_0,
                            email: if is_filled(email) {
                                Some(email->Text_0)
                            } else {
                                None
                            },
                            plan_type: plan_meant(plan->Text_0),
                        },
                    )
                },
                _ => known == Err::<IdentityView, Error>(Error::NoExpiry),
            }
        }),
{
    let rest = payload.push('.') + signature;
    law_parts_are_cut_at_each_mark(header, '.', rest);
    law_parts_are_cut_at_each_mark(payload, '.', signature);
    law_text_without_marks_is_one_part(signature, '.');
    let plan = claims.at("https://api.openai.com/auth"@).at("chatgpt_plan_type"@);
    if is_filled(plan) {
        lemma_plan(plan->Text_0);
    }
}

/// A token without the three parts, or whose claims cannot be read, names nobody.
pub proof fn law_tokens_have_three_parts(
    header: Seq<char>,
    payload: Seq<char>,
    signature: Seq<char>,
    more: Seq<char>,
    now: u64,
)
    requires
        !header.contains('.'),
        !payload.contains('.'),
        !signature.contains('.'),
    ensures
        token_identity(header, now) == Err::<IdentityView, Error>(Error::OpaqueToken),
        token_identity(header.push('.') + payload, now) == Err::<IdentityView, Error>(
            Error::InvalidToken,
        ),
        token_identity(
            header.push('.') + (payload.push('.') + (signature.push('.') + more)),
            now,
        ) == Err::<IdentityView, Error>(Error::InvalidToken),
        base64_unpadded(payload) is None && base64_padded(payload) is None ==> token_identity(
            header.push('.') + (payload.push('.') + signature),
            now,
        ) == Err::<IdentityView, Error>(Error::InvalidClaims),
        claims_bytes(payload) matches Some(bytes) && json_read(bytes) is None ==> token_identity(
            header.push('.') + (payload.push('.') + signature),
            now,
        ) == Err::<IdentityView, Error>(Error::InvalidClaims),
{
    let last = signature.push('.') + more;
    law_text_without_marks_is_one_part(header, '.');
    law_text_without_marks_is_one_part(payload, '.');
    law_text_without_marks_is_one_part(signature, '.');
    law_parts_are_cut_at_each_mark(header, '.', payload);
    law_parts_are_cut_at_each_mark(header, '.', payload.push('.') + signature);
    law_parts_are_cut_at_each_mark(payload, '.', signature);
    law_parts_are_cut_at_each_mark(header, '.', payload.push('.') + last);
    law_parts_are_cut_at_each_mark(payload, '.', last);
    law_parts_are_cut_at_each_mark(signature, '.', more);
    crate::text::lemma_split_has_parts(more, '.');
}

/// What the coding server is told of a token: the token itself, whose account it is for, and the
/// plan; in order to log in, also of what kind it is. Nothing else of it is told.
pub open spec fn told(token: TokenView) -> Map<Seq<char>, JsonView> {
    map![
        "accessToken"@ => JsonView::Text(token.secret),
        "chatgptAccountId"@ => JsonView::Text(token.identity.account_id),
        "chatgptPlanType"@ => JsonView::Text(token.identity.plan_type),
    ]
}

/// What a coding server gets in order to log in, and what it gets when it asks for a fresh
/// token.
pub proof fn law_what_servers_are_told_of_a_token(token: TokenView)
    ensures
        token.refresh_result() == JsonView::Object(told(token)),
        token.login_params() == JsonView::Object(
            told(token).insert("type"@, JsonView::Text("chatgptAuthTokens"@)),
        ),
{
}

/// Whether a setting is not a text, or one of two texts.
pub open spec fn unset_or_one_of(value: JsonView, one: Seq<char>, other: Seq<char>) -> bool {
    !(value is Text) || value == JsonView::Text(one) || value == JsonView::Text(other)
}

/// Helpers keep credentials in the keyring, log in with ChatGPT, and talk to the official
/// services only.
pub proof fn law_helper_configurations(config: JsonView)
    ensures
        helper_config_fault(config) == (if config.at("cli_auth_credentials_store"@)
            != JsonView::Text("keyring"@) {
            Some(Error::HelperStore)
        } else if {
            &&& unset_or_one_of(config.at("model_provider"@), "openai"@, "openai"@)
            &&& !config.at("model_providers"@).has("openai"@)
            &&& config.at("chatgpt_base_url"@) is Text
            &&& unset_or_one_of(
                config.at("chatgpt_base_url"@),
                "https://chatgpt.com/backend-api/"@,
                "https://chatgpt.com/backend-api"@,
            )
            &&& unset_or_one_of(
                config.at("openai_base_url"@),
                "https://api.openai.com/v1"@,
                "https://api.openai.com/v1/"@,
            )
            &&& unset_or_one_of(config.at("forced_login_method"@), "chatgpt"@, "chatgpt"@)
        } {
            None
        } else {
            Some(Error::HelperProvider)
        }),
{
}

/// An account is signed in where the helper names one, and not where it says that there is none;
/// a helper that says neither is not believed.
pub proof fn law_accounts_are_named_or_not(response: JsonView)
    ensures
        !response.has("account"@) ==> signed_in_by(response) == Err::<bool, Error>(
            Error::InvalidAccount,
        ),
        response.get("account"@) == Some(JsonView::Null) ==> signed_in_by(response) == Ok::<
            bool,
            Error,
        >(false),
        response.has("account"@) && !(response.at("account"@) is Null) ==> signed_in_by(response)
            == Ok::<bool, Error>(true),
{
}

/// What is heard while a login is awaited: the browser's word on this login alone, and after its
/// success the first word on the account. Everything else changes nothing.
pub proof fn law_what_is_heard_of_a_login(frame: JsonView, login_id: Seq<char>, completed: bool)
    ensures
        ({
            let news = login_news(frame, login_id, completed);
            let params = frame.at("params"@);
            let method = frame.at("method"@);
            let done = method == JsonView::Text("account/login/completed"@) && params.at(
                "loginId"@,
            ) == JsonView::Text(login_id);
            let updated = method == JsonView::Text("account/updated"@);
            &&& done && params.at("success"@) == JsonView::Bool(true) ==> news
                == LoginNews::Waiting(true)
            &&& done && params.at("success"@) == JsonView::Bool(false) ==> news
                == LoginNews::Ended(LoginOutcome::Unconfirmed)
            &&& done && !(params.at("success"@) is Bool) ==> news == LoginNews::Failed(
                Error::InvalidCompletion,
            )
            &&& !done && updated && completed && params.at("authMode"@) == JsonView::Text(
                "chatgpt"@,
            ) ==> news == LoginNews::Ended(LoginOutcome::Ready)
            &&& !done && updated && completed && params.at("authMode"@) != JsonView::Text(
                "chatgpt"@,
            ) ==> news == LoginNews::Failed(Error::LoginNotLoaded)
            &&& !done && !(updated && completed) ==> news == LoginNews::Waiting(completed)
        }),
{
}

/// The browser's success and then the account's update make a login ready, whatever else is
/// heard before, between and after them that is not about this login or the account.
pub proof fn law_logins_become_ready(
    before: Seq<JsonView>,
    success: JsonView,
    between: Seq<JsonView>,
    update: JsonView,
    login_id: Seq<char>,
)
    requires
        forall|i: int|
            0 <= i < before.len() ==> (#[trigger] before[i]).at("method"@) != JsonView::Text(
                "account/login/completed"@,
            ),
        forall|i: int|
            0 <= i < between.len() ==> (#[trigger] between[i]).at("method"@) != JsonView::Text(
                "account/login/completed"@,
            ) && between[i].at("method"@) != JsonView::Text("account/updated"@),
        success.at("method"@) == JsonView::Text("account/login/completed"@),
        success.at("params"@).at("loginId"@) == JsonView::Text(login_id),
        success.at("params"@).at("success"@) == JsonView::Bool(true),
        update.at("method"@) == JsonView::Text("account/updated"@),
        update.at("params"@).at("authMode"@) == JsonView::Text("chatgpt"@),
    ensures
        login_course((before.push(success) + between).push(update), login_id) == LoginNews::Ended(
            LoginOutcome::Ready,
        ),
{
    lemma_unheard(before, login_id);
    assert(before.push(success).drop_last() =~= before);
    lemma_waits_on(before.push(success), between, login_id);
    let heard = before.push(success) + between;
    assert(heard.push(update).drop_last() =~= heard);
    reveal_strlit("account/login/completed");
    reveal_strlit("account/updated");
    assert("account/login/completed"@.len() == 23);
    assert("account/updated"@.len() == 15);
}

proof fn lemma_unheard(frames: Seq<JsonView>, login_id: Seq<char>)
    requires
        forall|i: int|
            0 <= i < frames.len() ==> (#[trigger] frames[i]).at("method"@) != JsonView::Text(
                "account/login/completed"@,
            ),
    ensures
        login_course(frames, login_id) == LoginNews::Waiting(false),
    decreases frames.len(),
{
    if frames.len() > 0 {
        let earlier = frames.drop_last();
        assert forall|i: int| 0 <= i < earlier.len() implies (#[trigger] earlier[i]).at("method"@)
            != JsonView::Text("account/login/completed"@) by {
            assert(earlier[i] == frames[i]);
        }
        lemma_unheard(earlier, login_id);
        assert(frames[frames.len() - 1].at("method"@) != JsonView::Text(
            "account/login/completed"@,
        ));
    }
}

proof fn lemma_waits_on(heard: Seq<JsonView>, more: Seq<JsonView>, login_id: Seq<char>)
    requires
        login_course(heard, login_id) == LoginNews::Waiting(true),
        forall|i: int|
            0 <= i < more.len() ==> (#[trigger] more[i]).at("method"@) != JsonView::Text(
                "account/login/completed"@,
            ) && more[i].at("method"@) != JsonView::Text("account/updated"@),
    ensures
        login_course(heard + more, login_id) == LoginNews::Waiting(true),
    decreases more.len(),
{
    if more.len() == 0 {
        assert(heard + more =~= heard);
    } else {
        let earlier = more.drop_last();
        assert forall|i: int| 0 <= i < earlier.len() implies (#[trigger] earlier[i]).at("method"@)
            != JsonView::Text("account/login/completed"@) && earlier[i].at("method"@)
            != JsonView::Text("account/updated"@) by {
            assert(earlier[i] == more[i]);
        }
        lemma_waits_on(heard, earlier, login_id);
        assert((heard + more).drop_last() =~= heard + earlier);
        assert((heard + more).last() == more[more.len() - 1]);
    }
}

/// The helper's answer is a token only of a login with ChatGPT.
pub proof fn law_helpers_give_managed_tokens(response: JsonView, now: u64)
    ensures
        response.at("authMethod"@) != JsonView::Text("chatgpt"@) ==> token_of(response, now)
            == Err::<TokenView, Error>(Error::NotManaged),
        response.at("authMethod"@) == JsonView::Text("chatgpt"@) && !is_filled(
            response.at("authToken"@),
        ) ==> token_of(response, now) == Err::<TokenView, Error>(Error::MissingInformation),
        response.at("authMethod"@) == JsonView::Text("chatgpt"@) && is_filled(
            response.at("authToken"@),
        ) ==> {
            let secret = response.at("authToken"@)->Text_0;
            match token_identity(secret, now) {
                Ok(identity) => token_of(response, now) == Ok::<TokenView, Error>(
                    TokenView { secret, identity },
                ),
                Err(error) => token_of(response, now) == Err::<TokenView, Error>(error),
            }
        },
{
}

/// A server may ask for a fresh token because the old one is no longer accepted, and for the
/// profile's account alone, which it may leave unnamed.
pub proof fn law_what_a_refresh_has_to_say(
    saved: IdentityView,
    previous: IdentityView,
    params: JsonView,
)
    ensures
        ({
            let fault = refresh_fault(saved, previous, params);
            let account = params.at("previousAccountId"@);
            let named = account is Null || account == JsonView::Text(saved.account_id);
            let same = saved.account_id == previous.account_id && saved.user_id
                == previous.user_id;
            &&& fault is None <==> params.at("reason"@) == JsonView::Text("unauthorized"@) && named
                && same
            &&& fault == Some(Error::UnsupportedRefresh) <==> params.at("reason"@)
                != JsonView::Text("unauthorized"@)
            &&& fault == Some(Error::WrongRefreshAccount) <==> params.at("reason"@)
                == JsonView::Text("unauthorized"@) && !named
            &&& fault is Some && params.at("reason"@) == JsonView::Text("unauthorized"@) && named
                ==> fault == Some(Error::IdentityChanged)
        }),
{
}

/// A question to the helper.
pub open spec fn asks(action: HelperActionView, method: Seq<char>, params: JsonView) -> bool {
    action == HelperActionView::Ask(CallView { method, params })
}

/// How a helper is introduced: this program says its name and version and asks for the
/// experimental interface, and then for the configuration, which decides.
pub proof fn law_helpers_are_introduced(answer: JsonView, now: Option<u64>)
    ensures
        ({
            let (one, introduction) = task_begun(HelperTask::Initialize);
            let (two, question) = task_next(one, HelperEventView::Done, now);
            let (_, end) = task_next(two, HelperEventView::Answer(answer), now);
            &&& introduction == HelperActionView::Introduce(
                JsonView::Object(
                    map![
                        "clientInfo"@ => JsonView::Object(
                            map![
                                "name"@ => JsonView::Text("coduck"@),
                                "version"@ => JsonView::Text("0.1.0"@),
                            ],
                        ),
                        "capabilities"@ => JsonView::Object(
                            map!["experimentalApi"@ => JsonView::Bool(true)],
                        ),
                    ],
                ),
            )
            &&& asks(
                question,
                "config/read"@,
                JsonView::Object(map!["includeLayers"@ => JsonView::Bool(false)]),
            )
            &&& end == (match helper_config_fault(answer.at("config"@)) {
                Some(error) => HelperActionView::Finish(Err::<Option<TokenView>, Error>(error)),
                None => HelperActionView::Finish(Ok::<Option<TokenView>, Error>(None)),
            })
        }),
{
}

/// How an account is verified: the helper is asked for its token, not a fresh one; where that
/// names no address the helper is asked for it; and when the account is the one that is
/// remembered, or none is, it is remembered as of the present time, and the token handed on.
pub proof fn law_accounts_are_verified_and_remembered(
    answer: JsonView,
    token: TokenView,
    account: JsonView,
    saved: Option<MetadataView>,
    now: u64,
    later: u64,
)
    requires
        token_of(answer, now) == Ok::<TokenView, Error>(token),
    ensures
        ({
            let (one, question) = task_begun(HelperTask::VerifyProfile);
            let (two, next) = task_next(one, HelperEventView::Answer(answer), Some(now));
            let (three, looking) = if token.identity.email is None {
                task_next(two, HelperEventView::Answer(account), Some(now))
            } else {
                (two, next)
            };
            let known = if token.identity.email is None {
                TokenView {
                    secret: token.secret,
                    identity: IdentityView {
                        account_id: token.identity.account_id,
                        user_id: token.identity.user_id,
                        email: match account.at("account"@).at("email"@) {
                            JsonView::Text(email) => Some(email),
                            _ => None,
                        },
                        plan_type: token.identity.plan_type,
                    },
                }
            } else {
                token
            };
            let same = match saved {
                Some(record) => record.identity.account_id == token.identity.account_id
                    && record.identity.user_id == token.identity.user_id,
                None => true,
            };
            let (four, saving) = task_next(three, HelperEventView::Remembered(saved), Some(later));
            let (_, end) = task_next(four, HelperEventView::Done, Some(later));
            &&& asks(
                question,
                "getAuthStatus"@,
                JsonView::Object(
                    map![
                        "includeToken"@ => JsonView::Bool(true),
                        "refreshToken"@ => JsonView::Bool(false),
                    ],
                ),
            )
            &&& token.identity.email is None ==> asks(
                next,
                "account/read"@,
                JsonView::Object(map!["refreshToken"@ => JsonView::Bool(false)]),
            )
            &&& looking is ReadMetadata
            &&& same ==> saving == (HelperActionView::SaveMetadata {
                identity: known.identity,
                verified: later,
            })
            &&& same ==> end == HelperActionView::Finish(
                Ok::<Option<TokenView>, Error>(Some(known)),
            )
            &&& !same ==> saving == HelperActionView::Finish(
                Err::<Option<TokenView>, Error>(Error::IdentityChanged),
            )
        }),
{
}

/// How a fresh token is got: the helper is asked for a fresh one, and nothing is remembered here.
pub proof fn law_fresh_tokens_are_asked_for(answer: JsonView, token: TokenView, now: u64)
    requires
        token_of(answer, now) == Ok::<TokenView, Error>(token),
        token.identity.email is Some,
    ensures
        ({
            let (one, question) = task_begun(HelperTask::RefreshToken);
            let (_, end) = task_next(one, HelperEventView::Answer(answer), Some(now));
            &&& asks(
                question,
                "getAuthStatus"@,
                JsonView::Object(
                    map![
                        "includeToken"@ => JsonView::Bool(true),
                        "refreshToken"@ => JsonView::Bool(true),
                    ],
                ),
            )
            &&& end == HelperActionView::Finish(Ok::<Option<TokenView>, Error>(Some(token)))
        }),
{
}

/// A token that is not accepted ends the task, whatever it was for; and so does whatever fails.
pub proof fn law_helper_tasks_stop_at_failures(
    stage: HelperStageView,
    answer: JsonView,
    remember: bool,
    now: Option<u64>,
    error: Error,
)
    ensures
        task_next(stage, HelperEventView::Failed(error), now).1 == HelperActionView::Finish(
            Err::<Option<TokenView>, Error>(error),
        ),
        now matches Some(seconds) && token_of(answer, seconds) == Err::<TokenView, Error>(error)
            ==> task_next(
            HelperStageView::AskingToken { remember },
            HelperEventView::Answer(answer),
            now,
        ).1 == HelperActionView::Finish(Err::<Option<TokenView>, Error>(error)),
{
}

/// How a profile is logged out: the helper is asked to, then asked whether an account is left;
/// only when there is none is what is remembered forgotten.
pub proof fn law_logouts_are_confirmed(left: JsonView, now: Option<u64>, gone: JsonView)
    ensures
        ({
            let (one, question) = task_begun(HelperTask::LogOut);
            let (two, again) = task_next(one, HelperEventView::Answer(gone), now);
            let (three, next) = task_next(two, HelperEventView::Answer(left), now);
            let (_, end) = task_next(three, HelperEventView::Done, now);
            &&& asks(question, "account/logout"@, JsonView::Object(Map::empty()))
            &&& asks(
                again,
                "account/read"@,
                JsonView::Object(map!["refreshToken"@ => JsonView::Bool(false)]),
            )
            &&& left.get("account"@) == Some(JsonView::Null) ==> next is RemoveMetadata && end
                == HelperActionView::Finish(Ok::<Option<TokenView>, Error>(None))
            &&& left.has("account"@) && !(left.at("account"@) is Null) ==> next
                == HelperActionView::Finish(
                Err::<Option<TokenView>, Error>(Error::StillSignedIn),
            )
            &&& !left.has("account"@) ==> next == HelperActionView::Finish(
                Err::<Option<TokenView>, Error>(Error::InvalidAccount),
            )
        }),
{
}

/// How the host serves a connection that begins: the account is verified, and where it is the
/// one of the run the connection is told of its token; then the next request is awaited.
pub proof fn law_logins_are_served(host: AuthHostView, token: TokenView)
    requires
        host.stage is Idle,
    ensures
        ({
            let one = host.next(HostEventView::Request(AuthRequestView::Login));
            let two = one.0.next(HostEventView::Done);
            let three = two.0.next(HostEventView::Done);
            let four = three.0.next(HostEventView::Token(token));
            let five = four.0.next(HostEventView::Done);
            let same = host.saved.account_id == token.identity.account_id && host.saved.user_id
                == token.identity.user_id;
            &&& one.1.action == (HostActionView::Open { logout: false }) && one.1.reply is None
            &&& two.1.action is Initialize && two.1.reply is None
            &&& three.1.action is VerifyProfile && three.1.reply is None
            &&& same ==> four.1.reply == Some(
                Ok::<JsonView, Error>(
                    JsonView::Object(
                        told(token).insert("type"@, JsonView::Text("chatgptAuthTokens"@)),
                    ),
                ),
            ) && four.0.token == token
            &&& !same ==> four.1.reply == Some(Err::<JsonView, Error>(Error::IdentityChanged))
                && four.0.token == host.token
            &&& four.1.action is FinishAuth
            &&& five.1.action is Listen && five.0.stage is Idle && five.0.saved == host.saved
        }),
{
}

/// How the host serves a request for a fresh token: what the request says is looked at, the
/// helper is asked, and a token that is new and for the account of the run is handed out once
/// its identity was remembered.
pub proof fn law_refreshes_are_served(host: AuthHostView, params: JsonView, token: TokenView)
    requires
        host.stage is Idle,
    ensures
        ({
            let one = host.next(HostEventView::Request(AuthRequestView::Refresh { params }));
            let two = one.0.next(HostEventView::Done);
            let three = two.0.next(HostEventView::Done);
            let four = three.0.next(HostEventView::Token(token));
            let five = four.0.next(HostEventView::Done);
            let six = five.0.next(HostEventView::Done);
            let same = host.saved.account_id == token.identity.account_id && host.saved.user_id
                == token.identity.user_id;
            &&& one.1.action == (HostActionView::Open { logout: false }) && one.1.reply is None
            &&& two.1.action is Initialize && two.1.reply is None
            &&& match refresh_fault(host.saved, host.token.identity, params) {
                Some(error) => three.1.reply == Some(Err::<JsonView, Error>(error))
                    && three.1.action is FinishAuth && three.0.token == host.token,
                None => {
                    &&& three.1.action is AskToken && three.1.reply is None
                    &&& !same ==> four.1.reply == Some(
                        Err::<JsonView, Error>(Error::IdentityChanged),
                    )
                    &&& same && token.secret == host.token.secret ==> four.1.reply == Some(
                        Err::<JsonView, Error>(Error::TokenNotRefreshed),
                    )
                    &&& same && token.secret != host.token.secret ==> {
                        &&& four.1.reply is None
                        &&& four.1.action == HostActionView::SaveIdentity(token.identity)
                        &&& five.1.reply == Some(
                            Ok::<JsonView, Error>(JsonView::Object(told(token))),
                        )
                        &&& five.0.token == token
                        &&& five.1.action is FinishAuth
                        &&& six.1.action is Listen && six.0.stage is Idle
                    }
                },
            }
        }),
{
}

/// How the host serves a logout, and what it does when something fails on the way: whoever asked
/// learns of the failure, the credentials are let go of, and requests are served again.
pub proof fn law_logouts_are_served(host: AuthHostView, error: Error)
    requires
        host.stage is Idle,
    ensures
        ({
            let one = host.next(HostEventView::Request(AuthRequestView::Logout));
            let two = one.0.next(HostEventView::Done);
            let three = two.0.next(HostEventView::Done);
            let four = three.0.next(HostEventView::Done);
            let five = four.0.next(HostEventView::Done);
            let six = five.0.next(HostEventView::Stopped);
            let failed = three.0.next(HostEventView::Failed(error));
            let late = three.0.next(HostEventView::TimedOut);
            let shut = one.0.next(HostEventView::Failed(error));
            &&& one.1.action == (HostActionView::Open { logout: true })
            &&& two.1.action is Initialize
            &&& three.1.action is LogOut
            &&& four.1.reply == Some(Ok::<JsonView, Error>(JsonView::Object(Map::empty())))
            &&& four.1.action is FinishAuth
            &&& five.1.action is AwaitStop
            &&& six.1.action matches HostActionView::Finish(result) && result is Ok
            &&& failed.1.reply == Some(Err::<JsonView, Error>(error)) && failed.1.action
                is FinishAuth && failed.0.next(HostEventView::Done).1.action is Listen
            &&& late.1.reply == Some(Err::<JsonView, Error>(Error::AuthenticationTimedOut))
            &&& shut.1.reply == Some(Err::<JsonView, Error>(error)) && shut.1.action is Listen
        }),
{
}

/// The host ends well when the run ends or nobody is left to ask, and with an error only when the
/// credentials could not be let go of.
pub proof fn law_hosts_end(host: AuthHostView, event: HostEventView)
    requires
        host.expects(event),
    ensures
        ({
            let action = host.next(event).1.action;
            &&& host.stage is Idle && (event is Stopped || event is Closed) ==> (
            action matches HostActionView::Finish(result) && result is Ok)
            &&& action matches HostActionView::Finish(Err(error)) ==> host.stage is Finishing
                && event == HostEventView::Failed(error)
            &&& action matches HostActionView::Finish(Ok(_)) ==> event is Stopped || event is Closed
            &&& host.stage is Finishing && event is Failed ==> action is Finish
        }),
{
}

/// Whatever fails while the host serves a request, and a time that is over, is what the request
/// is answered with; the credentials are let go of where they were taken hold of, the token
/// stays, and the next request is served.
pub proof fn law_failures_of_the_host(host: AuthHostView, error: Error)
    ensures
        ({
            let failed = host.next(HostEventView::Failed(error));
            let late = host.next(HostEventView::TimedOut);
            &&& host.stage is Opening ==> {
                &&& failed.1.reply == Some(Err::<JsonView, Error>(error))
                &&& late.1.reply == Some(Err::<JsonView, Error>(Error::AuthenticationTimedOut))
                &&& failed.1.action is Listen && late.1.action is Listen
                &&& failed.0.stage is Idle && late.0.stage is Idle
                &&& failed.0.token == host.token && late.0.token == host.token
                &&& failed.0.saved == host.saved && late.0.saved == host.saved
            }
            &&& host.stage is Initializing || host.stage is Verifying || host.stage is Refreshing
                || host.stage is Saving || host.stage is LoggingOut ==> {
                &&& failed.1.reply == Some(Err::<JsonView, Error>(error))
                &&& late.1.reply == Some(Err::<JsonView, Error>(Error::AuthenticationTimedOut))
                &&& failed.1.action is FinishAuth && late.1.action is FinishAuth
                &&& failed.0.next(HostEventView::Done).1.action is Listen
                &&& late.0.next(HostEventView::Done).1.action is Listen
                &&& failed.0.token == host.token && late.0.token == host.token
                &&& failed.0.saved == host.saved && late.0.saved == host.saved
            }
            &&& host.stage is Finishing ==> failed.1.action == HostActionView::Finish(
                Err::<(), Error>(error),
            )
        }),
{
}

/// A fresh token without an address gets the one that the helper names for the account, and
/// nothing else of it changes.
pub proof fn law_fresh_tokens_get_an_address(
    answer: JsonView,
    token: TokenView,
    account: JsonView,
    now: u64,
    later: Option<u64>,
)
    requires
        token_of(answer, now) == Ok::<TokenView, Error>(token),
        token.identity.email is None,
    ensures
        ({
            let (one, _) = task_begun(HelperTask::RefreshToken);
            let (two, question) = task_next(one, HelperEventView::Answer(answer), Some(now));
            let (_, end) = task_next(two, HelperEventView::Answer(account), later);
            &&& asks(
                question,
                "account/read"@,
                JsonView::Object(map!["refreshToken"@ => JsonView::Bool(false)]),
            )
            &&& end == HelperActionView::Finish(
                Ok::<Option<TokenView>, Error>(
                    Some(
                        TokenView {
                            secret: token.secret,
                            identity: IdentityView {
                                account_id: token.identity.account_id,
                                user_id: token.identity.user_id,
                                email: match account.at("account"@).at("email"@) {
                                    JsonView::Text(email) => Some(email),
                                    _ => None,
                                },
                                plan_type: token.identity.plan_type,
                            },
                        },
                    ),
                ),
            )
        }),
{
}

/// Without a clock no token is believed and nothing is remembered; what is wrong with the answer
/// or the account is told all the same.
pub proof fn law_tasks_need_a_clock(
    answer: JsonView,
    remember: bool,
    token: TokenView,
    saved: Option<MetadataView>,
)
    ensures
        ({
            let asked = task_next(
                HelperStageView::AskingToken { remember },
                HelperEventView::Answer(answer),
                None,
            ).1;
            let read = task_next(
                HelperStageView::Reading(token),
                HelperEventView::Remembered(saved),
                None,
            ).1;
            let managed = answer.at("authMethod"@) == JsonView::Text("chatgpt"@);
            let same = match saved {
                Some(record) => record.identity.account_id == token.identity.account_id
                    && record.identity.user_id == token.identity.user_id,
                None => true,
            };
            &&& !managed ==> asked == HelperActionView::Finish(
                Err::<Option<TokenView>, Error>(Error::NotManaged),
            )
            &&& managed && !is_filled(answer.at("authToken"@)) ==> asked
                == HelperActionView::Finish(
                Err::<Option<TokenView>, Error>(Error::MissingInformation),
            )
            &&& managed && is_filled(answer.at("authToken"@)) ==> asked == HelperActionView::Finish(
                Err::<Option<TokenView>, Error>(Error::ClockBeforeEpoch),
            )
            &&& same ==> read == HelperActionView::Finish(
                Err::<Option<TokenView>, Error>(Error::ClockBeforeEpoch),
            )
            &&& !same ==> read == HelperActionView::Finish(
                Err::<Option<TokenView>, Error>(Error::IdentityChanged),
            )
        }),
{
}

} // verus!
