//! What holds of the requests that the helper of a profile gets and of what it answers, said of
//! what goes into a call and what comes out of it.

use crate::auth::{
    account_call, begin_login, cancel_login, check_refresh, config_call, initialize, login_call,
    logout, logout_call, refresh, required_string, signed_in, token, token_call, validate_config,
    wait_login, Login, LoginNews, LoginOutcome, LoginWait, Token,
};
use crate::error::Error;
use crate::flow::verify_profile;
use crate::host::AuthHost;
use crate::json::Json;
use crate::profile::{Identity, Metadata};
use crate::rpc::Call;
use vstd::prelude::*;

use crate::accounts::{is_filled, told};
use crate::auth::token_identity;
use crate::host::HostStageView;
use crate::json::JsonView;

verus! {

/// The helper is told the name and the version of this program and that it wants the
/// experimental interface.
pub proof fn law_how_helpers_are_introduced(version: &str, params: Json)
    requires
        call_ensures(initialize, (version,), params),
    ensures
        params@ == JsonView::Object(
            map![
                "clientInfo"@ => JsonView::Object(map![
                    "name"@ => JsonView::Text("coduck"@),
                    "version"@ => JsonView::Text(version@),
                ]),
                "capabilities"@ => JsonView::Object(map![
                    "experimentalApi"@ => JsonView::Bool(true),
                ]),
            ],
        ),
{
    let client = map![
        "name"@ => JsonView::Text("coduck"@),
        "version"@ => JsonView::Text(version@),
    ];
    let able = map!["experimentalApi"@ => JsonView::Bool(true)];
    reveal_strlit("clientInfo");
    reveal_strlit("capabilities");
    assert("clientInfo"@.len() == 10);
    assert("capabilities"@.len() == 12);
    assert(params@->Object_0["clientInfo"@]->Object_0 =~= client);
    assert(params@->Object_0["capabilities"@]->Object_0 =~= able);
    assert(params@->Object_0 =~= map![
        "clientInfo"@ => JsonView::Object(client),
        "capabilities"@ => JsonView::Object(able),
    ]);
}

/// What the helper is asked for: its configuration without the layers, its account without a
/// refresh, and a logout.
pub proof fn law_what_helpers_are_asked(config: Call, account: Call, left: Call)
    requires
        call_ensures(config_call, (), config),
        call_ensures(account_call, (), account),
        call_ensures(logout_call, (), left),
    ensures
        config.method@ == "config/read"@,
        config.params@ == JsonView::Object(map!["includeLayers"@ => JsonView::Bool(false)]),
        account.method@ == "account/read"@,
        account.params@ == JsonView::Object(map!["refreshToken"@ => JsonView::Bool(false)]),
        left.method@ == "account/logout"@,
        left.params@ == JsonView::Object(Map::empty()),
{
    assert(config@.params->Object_0 =~= map!["includeLayers"@ => JsonView::Bool(false)]);
    assert(account@.params->Object_0 =~= map!["refreshToken"@ => JsonView::Bool(false)]);
}

/// A token is asked for as such, and a fresh one where a fresh one is wanted.
pub proof fn law_how_tokens_are_asked_for(fresh: bool, call: Call)
    requires
        call_ensures(token_call, (fresh,), call),
    ensures
        call.method@ == "getAuthStatus"@,
        call.params@ == JsonView::Object(
            map!["includeToken"@ => JsonView::Bool(true), "refreshToken"@ => JsonView::Bool(fresh)],
        ),
{
    assert(call@.params->Object_0 =~= map![
        "includeToken"@ => JsonView::Bool(true),
        "refreshToken"@ => JsonView::Bool(fresh),
    ]);
}

/// A login is begun with ChatGPT, and given up by its identifier.
pub proof fn law_how_logins_are_asked_for(login: &Login, begun: Call, given_up: Call)
    requires
        call_ensures(login_call, (), begun),
        call_ensures(cancel_login, (login,), given_up),
    ensures
        begun.method@ == "account/login/start"@,
        begun.params@ == JsonView::Object(map!["type"@ => JsonView::Text("chatgpt"@)]),
        given_up.method@ == "account/login/cancel"@,
        given_up.params@ == JsonView::Object(map!["loginId"@ => JsonView::Text(login.login_id@)]),
{
    assert(begun@.params->Object_0 =~= map!["type"@ => JsonView::Text("chatgpt"@)]);
    assert(given_up@.params->Object_0 =~= map!["loginId"@ => JsonView::Text(login.login_id@)]);
}

/// A text that is required is the member of its name, where that is a text with something in
/// it.
pub proof fn law_required_texts(value: &Json, key: &str, text: Result<String, Error>)
    requires
        call_ensures(required_string, (value, key), text),
    ensures
        text is Ok <==> (value@ matches JsonView::Object(members) && members.contains_key(key@)
            && is_filled(members[key@])),
        text is Ok ==> value@->Object_0[key@] == JsonView::Text(text->Ok_0@),
        text is Err ==> text == Err::<String, Error>(Error::MissingInformation),
{
}

/// A login begins where the helper says that it is one with ChatGPT, and gives it an identifier
/// and an address that begins with that of the official service.
pub proof fn law_how_logins_begin(response: &Json, login: Result<Login, Error>)
    requires
        call_ensures(begin_login, (response,), login),
    ensures
        ({
            let managed = response@.at("type"@) == JsonView::Text("chatgpt"@);
            let url = response@.at("authUrl"@);
            let id = response@.at("loginId"@);
            let complete = is_filled(url) && is_filled(id);
            let start = "https://auth.openai.com/"@;
            let official = complete && url->Text_0.len() >= start.len() && url->Text_0.take(
                start.len() as int,
            ) == start;
            &&& !managed ==> login == Err::<Login, Error>(Error::LoginNotStarted)
            &&& managed && !complete ==> login == Err::<Login, Error>(Error::MissingInformation)
            &&& managed && complete && !official ==> login == Err::<Login, Error>(
                Error::UnexpectedLoginUrl,
            )
            &&& managed && official ==> {
                &&& login is Ok
                &&& url == JsonView::Text(login->Ok_0.auth_url@)
                &&& id == JsonView::Text(login->Ok_0.login_id@)
            }
        }),
{
    let url = response@.at("authUrl"@);
    let start = "https://auth.openai.com/"@;
    if url is Text && url->Text_0.len() >= start.len() {
        assert(url->Text_0.take(start.len() as int) =~= url->Text_0.subrange(
            0,
            start.len() as int,
        ));
    }
}

/// Whether a frame is the browser's word on the login of an identifier.
pub open spec fn is_word_on(frame: JsonView, login_id: Seq<char>) -> bool {
    &&& frame.at("method"@) == JsonView::Text("account/login/completed"@)
    &&& frame.at("params"@).at("loginId"@) == JsonView::Text(login_id)
}

/// While a login is awaited the browser's word on it decides, and after its success the first
/// word on the account; nothing else does. The wait ends with the 128th frame.
pub proof fn law_how_logins_are_awaited(
    wait: &mut LoginWait,
    login: &Login,
    frame: &Json,
    news: LoginNews,
)
    requires
        call_ensures(wait_login, (wait, login, frame), news),
        old(wait).seen < 128,
    ensures
        ({
            let word = is_word_on(frame@, login.login_id@);
            let success = frame@.at("params"@).at("success"@);
            let told = !word && old(wait).completed && frame@.at("method"@) == JsonView::Text(
                "account/updated"@,
            );
            let ready = frame@.at("params"@).at("authMode"@) == JsonView::Text("chatgpt"@);
            let done = old(wait).completed || word;
            &&& word && success == JsonView::Bool(false) ==> news == LoginNews::Ended(
                LoginOutcome::Unconfirmed,
            )
            &&& word && !(success is Bool) ==> news == LoginNews::Failed(Error::InvalidCompletion)
            &&& told && ready ==> news == LoginNews::Ended(LoginOutcome::Ready)
            &&& told && !ready ==> news == LoginNews::Failed(Error::LoginNotLoaded)
            &&& (word && success == JsonView::Bool(true) || !word && !told) ==> {
                &&& final(wait).completed == done
                &&& final(wait).seen == old(wait).seen + 1
                &&& final(wait).seen < 128 ==> news == LoginNews::Waiting(done)
                &&& final(wait).seen == 128 ==> news == LoginNews::Failed(
                    Error::TooManyNotifications,
                )
            }
        }),
{
}

/// A wait for a login begins without success and without a frame.
pub proof fn law_how_waits_begin(wait: LoginWait)
    requires
        call_ensures(LoginWait::new, (), wait),
    ensures
        !wait.completed,
        wait.seen == 0,
{
}

/// An account is signed in where the helper names one; a logout has succeeded where it then
/// names none.
pub proof fn law_who_is_signed_in(
    response: &Json,
    signed: Result<bool, Error>,
    left: Result<(), Error>,
)
    requires
        call_ensures(signed_in, (response,), signed),
        call_ensures(logout, (response,), left),
    ensures
        !response@.has("account"@) ==> signed == Err::<bool, Error>(Error::InvalidAccount) && left
            == Err::<(), Error>(Error::InvalidAccount),
        response@.has("account"@) && response@.at("account"@) is Null ==> signed == Ok::<
            bool,
            Error,
        >(false) && left == Ok::<(), Error>(()),
        response@.has("account"@) && !(response@.at("account"@) is Null) ==> signed == Ok::<
            bool,
            Error,
        >(true) && left == Err::<(), Error>(Error::StillSignedIn),
{
}

/// A token keeps its text, and is whose its text says; one that the helper gives is of a login
/// with ChatGPT.
pub proof fn law_tokens_keep_their_text(
    secret: String,
    response: &Json,
    now: u64,
    parsed: Result<Token, Error>,
    given: Result<Token, Error>,
)
    requires
        call_ensures(Token::parse, (secret, now), parsed),
        call_ensures(token, (response, now), given),
    ensures
        parsed is Ok <==> token_identity(secret@, now) is Ok,
        parsed matches Ok(known) ==> known@.secret == secret@ && token_identity(secret@, now)
            == Ok::<crate::profile::IdentityView, Error>(known@.identity),
        parsed matches Err(error) ==> token_identity(secret@, now) == Err::<
            crate::profile::IdentityView,
            Error,
        >(error),
        response@.at("authMethod"@) != JsonView::Text("chatgpt"@) ==> given == Err::<Token, Error>(
            Error::NotManaged,
        ),
        response@.at("authMethod"@) == JsonView::Text("chatgpt"@) && !is_filled(
            response@.at("authToken"@),
        ) ==> given == Err::<Token, Error>(Error::MissingInformation),
        response@.at("authMethod"@) == JsonView::Text("chatgpt"@) && response@.at("authToken"@)
            == JsonView::Text(secret@) && secret@.len() > 0 ==> {
            &&& given is Ok <==> parsed is Ok
            &&& given is Ok ==> given->Ok_0@ == parsed->Ok_0@
            &&& given is Err ==> given->Err_0 == parsed->Err_0
        },
{
}

/// What a token tells: the coding server gets the text, the account and the plan, and in order
/// to log in also its kind; the account is asked for an address where the token has none, and
/// nothing else is taken from the answer.
pub proof fn law_what_tokens_tell(
    known: &Token,
    held: Token,
    response: &Json,
    login: Json,
    fresh: Json,
    identity: &Identity,
    needs: bool,
    addressed: Token,
)
    requires
        call_ensures(Token::login_params, (known,), login),
        call_ensures(Token::refresh_result, (known,), fresh),
        call_ensures(Token::identity, (known,), identity),
        call_ensures(Token::needs_email, (known,), needs),
        call_ensures(Token::with_account_email, (held, response), addressed),
    ensures
        fresh@ == JsonView::Object(told(known@)),
        login@ == JsonView::Object(
            told(known@).insert("type"@, JsonView::Text("chatgptAuthTokens"@)),
        ),
        identity@ == known@.identity,
        needs <==> known@.identity.email is None,
        addressed@.secret == held@.secret,
        addressed@.identity.account_id == held@.identity.account_id,
        addressed@.identity.user_id == held@.identity.user_id,
        addressed@.identity.plan_type == held@.identity.plan_type,
        response@.at("account"@).at("email"@) matches JsonView::Text(email)
            ==> addressed@.identity.email == Some(email),
        !(response@.at("account"@).at("email"@) is Text) ==> addressed@.identity.email is None,
{
    crate::accounts::law_what_servers_are_told_of_a_token(known@);
}

/// A fresh token is accepted where it is for the account and the user that are remembered, and
/// another one than before.
pub proof fn law_fresh_tokens(
    saved: &Identity,
    previous: &Token,
    next: Token,
    fresh: Result<Token, Error>,
)
    requires
        call_ensures(refresh, (saved, previous, next), fresh),
    ensures
        ({
            let same = saved.account_id@ == next@.identity.account_id && saved.user_id@
                == next@.identity.user_id;
            &&& !same ==> fresh == Err::<Token, Error>(Error::IdentityChanged)
            &&& same && next@.secret == previous@.secret ==> fresh == Err::<Token, Error>(
                Error::TokenNotRefreshed,
            )
            &&& same && next@.secret != previous@.secret ==> fresh == Ok::<Token, Error>(next)
        }),
{
}

/// What is remembered of a profile is whom its token names and when that was verified, where
/// the account and the user are those that were remembered, if any.
pub proof fn law_verified_profiles(
    saved: &Option<Metadata>,
    known: &Token,
    now: u64,
    record: Result<Metadata, Error>,
)
    requires
        call_ensures(verify_profile, (saved, known, now), record),
    ensures
        record is Ok <==> (*saved matches Some(metadata) ==> metadata.identity.account_id@
            == known@.identity.account_id && metadata.identity.user_id@ == known@.identity.user_id),
        record is Ok ==> record->Ok_0.identity@ == known@.identity && record->Ok_0.last_verified
            == now,
        record is Err ==> record == Err::<Metadata, Error>(Error::IdentityChanged),
{
}

/// A host begins with the token of the run, for the account of that token, and waits.
pub proof fn law_hosts_begin(known: Token, host: AuthHost)
    requires
        call_ensures(AuthHost::new, (known,), host),
    ensures
        host@.saved == known@.identity,
        host@.token == known@,
        host@.stage == HostStageView::Idle,
{
}

/// A request for a fresh token is looked into only where it says that the old one is no longer
/// accepted, and names the account of the run or none.
pub proof fn law_checked_refreshes(
    saved: &Identity,
    previous: &Token,
    params: &Json,
    result: Result<(), Error>,
)
    requires
        call_ensures(check_refresh, (saved, previous, params), result),
    ensures
        ({
            let reason = params@.at("reason"@) == JsonView::Text("unauthorized"@);
            let account = params@.at("previousAccountId"@);
            let named = account is Null || account == JsonView::Text(saved.account_id@);
            let same = saved.account_id@ == previous@.identity.account_id && saved.user_id@
                == previous@.identity.user_id;
            &&& !reason ==> result == Err::<(), Error>(Error::UnsupportedRefresh)
            &&& reason && !named ==> result == Err::<(), Error>(Error::WrongRefreshAccount)
            &&& reason && named && !same ==> result == Err::<(), Error>(Error::IdentityChanged)
            &&& reason && named && same ==> result == Ok::<(), Error>(())
        }),
{
}

/// The configuration of a helper is validated where it keeps its credentials in the keyring and
/// talks to the official services with a login of ChatGPT.
pub proof fn law_validated_helpers(config: &Json, result: Result<(), Error>)
    requires
        call_ensures(validate_config, (config,), result),
    ensures
        ({
            let kept = config@.at("cli_auth_credentials_store"@) == JsonView::Text("keyring"@);
            let backend = config@.at("chatgpt_base_url"@);
            let provider = config@.at("model_provider"@);
            let base = config@.at("openai_base_url"@);
            let login = config@.at("forced_login_method"@);
            let official = {
                &&& provider is Text ==> provider == JsonView::Text("openai"@)
                &&& !config@.at("model_providers"@).has("openai"@)
                &&& backend == JsonView::Text("https://chatgpt.com/backend-api/"@) || backend
                    == JsonView::Text("https://chatgpt.com/backend-api"@)
                &&& base is Text ==> base == JsonView::Text("https://api.openai.com/v1"@) || base
                    == JsonView::Text("https://api.openai.com/v1/"@)
                &&& login is Text ==> login == JsonView::Text("chatgpt"@)
            };
            &&& !kept ==> result == Err::<(), Error>(Error::HelperStore)
            &&& kept && !official ==> result == Err::<(), Error>(Error::HelperProvider)
            &&& kept && official ==> result == Ok::<(), Error>(())
        }),
{
    crate::accounts::law_helper_configurations(config@);
}

} // verus!
