//! Authentication: what the helper that keeps a profile's credentials is asked, and what its
//! answers are worth.

use crate::error::Error;
use crate::json::{read_json, Json};
use crate::profile::Identity;
use crate::rpc::{Call, MAX_PENDING};
use crate::text::{lowercase, same_text, split_text, starts_with};
use vstd::prelude::*;

use crate::json::{json_read, JsonView};
use crate::profile::{text_view, IdentityView};
use crate::rpc::CallView;
use crate::text::{lower_text, split_parts, texts};

verus! {

/// For how many seconds the browser is awaited.
pub const LOGIN_TIMEOUT: u64 = 600;

/// For how many seconds a fresh token is awaited.
pub const REFRESH_TIMEOUT: u64 = 7;

/// A login that was begun and waits for the browser.
pub struct Login {
    pub auth_url: String,
    pub login_id: String,
}

/// How a login ended.
#[derive(Clone, Copy, Debug, PartialEq, Eq, Structural)]
pub enum LoginOutcome {
    /// The helper has loaded the credentials.
    Ready,
    /// The browser reported a failure; credentials may have been saved all the same.
    Unconfirmed,
}

/// An access token and whose it is.
pub struct Token {
    secret: String,
    pub identity: Identity,
}

/// What a token says.
pub struct TokenView {
    pub secret: Seq<char>,
    pub identity: IdentityView,
}

impl View for Token {
    type V = TokenView;

    closed spec fn view(&self) -> TokenView {
        TokenView { secret: self.secret@, identity: self.identity@ }
    }
}

/// The bytes that the `URL_SAFE_NO_PAD` engine of `base64` decodes a text to; none where it
/// fails.
pub uninterp spec fn base64_unpadded(text: Seq<char>) -> Option<Seq<u8>>;

/// The bytes that the `URL_SAFE` engine of `base64` decodes a text to; none where it fails.
pub uninterp spec fn base64_padded(text: Seq<char>) -> Option<Seq<u8>>;

/// Decodes a text with `base64::Engine::decode` of the engine `URL_SAFE_NO_PAD`. The bytes,
/// or their absence, are a function of the text, which `base64_unpadded` names.
#[verifier::external_body]
fn decode_unpadded(text: &str) -> (bytes: Option<Vec<u8>>)
    ensures
        match bytes {
            Some(decoded) => base64_unpadded(text@) == Some(decoded@),
            None => base64_unpadded(text@) is None,
        },
{
    base64::Engine::decode(&base64::engine::general_purpose::URL_SAFE_NO_PAD, text).ok()
}

/// Decodes a text with `base64::Engine::decode` of the engine `URL_SAFE`. The bytes, or
/// their absence, are a function of the text, which `base64_padded` names.
#[verifier::external_body]
fn decode_padded(text: &str) -> (bytes: Option<Vec<u8>>)
    ensures
        match bytes {
            Some(decoded) => base64_padded(text@) == Some(decoded@),
            None => base64_padded(text@) is None,
        },
{
    base64::Engine::decode(&base64::engine::general_purpose::URL_SAFE, text).ok()
}

/// The plans that are supported.
pub open spec fn is_supported_plan(plan: Seq<char>) -> bool {
    ||| plan == "free"@
    ||| plan == "go"@
    ||| plan == "plus"@
    ||| plan == "pro"@
    ||| plan == "prolite"@
    ||| plan == "team"@
    ||| plan == "self_serve_business_prolite"@
    ||| plan == "self_serve_business_usage_based"@
    ||| plan == "business"@
    ||| plan == "ent26"@
    ||| plan == "enterprise_cbp_automation"@
    ||| plan == "enterprise_cbp_usage_based"@
    ||| plan == "enterprise"@
    ||| plan == "edu"@
    ||| plan == "edu_plus"@
    ||| plan == "edu_pro"@
}

/// The name by which a plan is known: in small letters, with two aliases resolved.
pub open spec fn plan_name(plan: Seq<char>) -> Seq<char> {
    let small = lower_text(plan);
    if small == "education"@ {
        "edu"@
    } else if small == "hc"@ {
        "enterprise"@
    } else {
        small
    }
}

/// The first value, or else the second.
pub open spec fn either(first: Option<Seq<char>>, second: Option<Seq<char>>) -> Option<Seq<char>> {
    if first is Some {
        first
    } else {
        second
    }
}

/// Whom the claims of a token name: the account and the plan, the user under the present
/// name or the older one, and an e-mail address of the token or of the user's profile.
/// A token that expires within half a minute is refused.
pub open spec fn identity_of(claims: JsonView, now: u64) -> Result<IdentityView, Error> {
    let auth = claims.at("https://api.openai.com/auth"@);
    let account = auth.at("chatgpt_account_id"@).as_filled_text();
    let user = either(
        auth.at("chatgpt_user_id"@).as_filled_text(),
        auth.at("user_id"@).as_filled_text(),
    );
    let plan = auth.at("chatgpt_plan_type"@).as_filled_text();
    let email = either(
        claims.at("email"@).as_filled_text(),
        claims.at("https://api.openai.com/profile"@).at("email"@).as_filled_text(),
    );
    match claims.at("exp"@).as_unsigned() {
        None => Err(Error::NoExpiry),
        Some(expiry) => if expiry <= now + 30 {
            Err(Error::TokenExpired)
        } else if account is None {
            Err(Error::MissingInformation)
        } else if user is None {
            Err(Error::NoUserIdentity)
        } else if plan is None {
            Err(Error::MissingInformation)
        } else if !is_supported_plan(plan_name(plan->0)) {
            Err(Error::UnsupportedPlan)
        } else {
            Ok(
                IdentityView {
                    account_id: account->0,
                    user_id: user->0,
                    email,
                    plan_type: plan_name(plan->0),
                },
            )
        },
    }
}

/// The bytes of a token's claims: with or without padding.
pub open spec fn claims_bytes(payload: Seq<char>) -> Option<Seq<u8>> {
    match base64_unpadded(payload) {
        Some(bytes) => Some(bytes),
        None => base64_padded(payload),
    }
}

/// Whom a token names: the claims are the second of its three parts.
pub open spec fn token_identity(secret: Seq<char>, now: u64) -> Result<IdentityView, Error> {
    let parts = split_parts(secret, '.');
    if parts.len() < 2 {
        Err(Error::OpaqueToken)
    } else if parts.len() != 3 {
        Err(Error::InvalidToken)
    } else {
        match claims_bytes(parts[1]) {
            None => Err(Error::InvalidClaims),
            Some(bytes) => match json_read(bytes) {
                None => Err(Error::InvalidClaims),
                Some(claims) => identity_of(claims, now),
            },
        }
    }
}

/// What an identity or its refusal says.
pub open spec fn identity_view(identity: Result<Identity, Error>) -> Result<IdentityView, Error> {
    match identity {
        Ok(known) => Ok(known@),
        Err(error) => Err(error),
    }
}

fn supported_plan(plan: &str) -> (supported: bool)
    ensures
        supported == is_supported_plan(plan@),
{
    same_text(plan, "free")
        || same_text(plan, "go")
        || same_text(plan, "plus")
        || same_text(plan, "pro")
        || same_text(plan, "prolite")
        || same_text(plan, "team")
        || same_text(plan, "self_serve_business_prolite")
        || same_text(plan, "self_serve_business_usage_based")
        || same_text(plan, "business")
        || same_text(plan, "ent26")
        || same_text(plan, "enterprise_cbp_automation")
        || same_text(plan, "enterprise_cbp_usage_based")
        || same_text(plan, "enterprise")
        || same_text(plan, "edu")
        || same_text(plan, "edu_plus")
        || same_text(plan, "edu_pro")
}

fn own(text: Option<&str>) -> (owned: Option<String>)
    ensures
        text_view(owned) == (match text {
            Some(held) => Some(held@),
            None => None,
        }),
{
    match text {
        Some(held) => Some(held.to_owned()),
        None => None,
    }
}

/// Finds out whom the claims of a token name.
pub fn identify(claims: &Json, now: u64) -> (identity: Result<Identity, Error>)
    ensures
        identity_view(identity) == identity_of(claims@, now),
{
    let expiry = match claims.at("exp").as_unsigned() {
        Some(expiry) => expiry,
        None => return Err(Error::NoExpiry),
    };
    let limit: u64 = if now > u64::MAX - 30 {
        u64::MAX
    } else {
        now + 30
    };
    if expiry <= limit {
        return Err(Error::TokenExpired);
    }
    let auth = claims.at("https://api.openai.com/auth");
    let account_id = match required_string(auth, "chatgpt_account_id") {
        Ok(account) => account,
        Err(error) => return Err(error),
    };
    let user = match own(auth.at("chatgpt_user_id").as_filled_text()) {
        Some(user) => Some(user),
        None => own(auth.at("user_id").as_filled_text()),
    };
    let user_id = match user {
        Some(user) => user,
        None => return Err(Error::NoUserIdentity),
    };
    let plan = match required_string(auth, "chatgpt_plan_type") {
        Ok(plan) => lowercase(plan.as_str()),
        Err(error) => return Err(error),
    };
    let plan_type = if same_text(plan.as_str(), "education") {
        "edu".to_owned()
    } else if same_text(plan.as_str(), "hc") {
        "enterprise".to_owned()
    } else {
        plan
    };
    if !supported_plan(plan_type.as_str()) {
        return Err(Error::UnsupportedPlan);
    }
    let email = match own(claims.at("email").as_filled_text()) {
        Some(email) => Some(email),
        None => own(claims.at("https://api.openai.com/profile").at("email").as_filled_text()),
    };
    Ok(Identity { account_id, user_id, email, plan_type })
}

impl Token {
    /// Finds out whose a token is. No failure carries a part of the token.
    pub fn parse(secret: String, now: u64) -> (token: Result<Token, Error>)
        ensures
            match token_identity(secret@, now) {
                Ok(identity) => token is Ok && token->Ok_0@ == (TokenView {
                    secret: secret@,
                    identity,
                }),
                Err(error) => token == Err::<Token, Error>(error),
            },
    {
        let parts = split_text(secret.as_str(), '.');
        assert(split_parts(secret@, '.').len() == parts@.len());
        if parts.len() < 2 {
            return Err(Error::OpaqueToken);
        }
        if parts.len() != 3 {
            return Err(Error::InvalidToken);
        }
        let payload = parts[1].as_str();
        assert(payload@ == texts(parts@)[1]);
        let decoded = match decode_unpadded(payload) {
            Some(bytes) => Some(bytes),
            None => decode_padded(payload),
        };
        let claims = match decoded {
            Some(bytes) => match read_json(bytes.as_slice()) {
                Some(claims) => claims,
                None => return Err(Error::InvalidClaims),
            },
            None => return Err(Error::InvalidClaims),
        };
        match identify(&claims, now) {
            Ok(identity) => Ok(Token { secret, identity }),
            Err(error) => Err(error),
        }
    }

    /// What the coding server is told in order to log in with this token.
    pub fn login_params(&self) -> (params: Json)
        ensures
            params@ == self@.login_params(),
    {
        self.refresh_result().with("type", Json::text("chatgptAuthTokens"))
    }

    /// What the coding server is told when it asks for a fresh token.
    pub fn refresh_result(&self) -> (result: Json)
        ensures
            result@ == self@.refresh_result(),
    {
        Json::object().with("accessToken", Json::text(self.secret.as_str())).with(
            "chatgptAccountId",
            Json::text(self.identity.account_id.as_str()),
        ).with("chatgptPlanType", Json::text(self.identity.plan_type.as_str()))
    }

    /// Whose the token is.
    pub fn identity(&self) -> (identity: &Identity)
        ensures
            identity@ == self@.identity,
    {
        &self.identity
    }

    /// Whether the account has to be asked for an e-mail address.
    pub fn needs_email(&self) -> (needs: bool)
        ensures
            needs == (self@.identity.email is None),
    {
        self.identity.email.is_none()
    }

    /// Takes the e-mail address from what the helper says of the account.
    pub fn with_account_email(self, response: &Json) -> (token: Token)
        ensures
            token@ == (TokenView {
                identity: IdentityView {
                    email: response@.at("account"@).at("email"@).as_text(),
                    ..self@.identity
                },
                ..self@
            }),
    {
        let mut identity = self.identity;
        identity.email = own(response.at("account").at("email").as_text());
        Token { secret: self.secret, identity }
    }
}

impl TokenView {
    /// What the coding server is told when it asks for a fresh token.
    pub open spec fn refresh_result(self) -> JsonView {
        JsonView::object().with("accessToken"@, JsonView::Text(self.secret)).with(
            "chatgptAccountId"@,
            JsonView::Text(self.identity.account_id),
        ).with("chatgptPlanType"@, JsonView::Text(self.identity.plan_type))
    }

    /// What the coding server is told in order to log in.
    pub open spec fn login_params(self) -> JsonView {
        self.refresh_result().with("type"@, JsonView::Text("chatgptAuthTokens"@))
    }
}

/// A member that has to be a text that is not empty.
pub fn required_string(value: &Json, key: &str) -> (text: Result<String, Error>)
    ensures
        match value@.at(key@).as_filled_text() {
            Some(held) => text is Ok && text->Ok_0@ == held,
            None => text == Err::<String, Error>(Error::MissingInformation),
        },
{
    match value.at(key).as_filled_text() {
        Some(held) => Ok(held.to_owned()),
        None => Err(Error::MissingInformation),
    }
}

/// How the helper is told who asks.
pub open spec fn client_params(version: Seq<char>) -> JsonView {
    JsonView::object().with(
        "clientInfo"@,
        JsonView::object().with("name"@, JsonView::Text("coduck"@)).with(
            "version"@,
            JsonView::Text(version),
        ),
    ).with(
        "capabilities"@,
        JsonView::object().with("experimentalApi"@, JsonView::Bool(true)),
    )
}

/// Tells the helper who asks: the parameters of the first request.
pub fn initialize(version: &str) -> (params: Json)
    ensures
        params@ == client_params(version@),
{
    let client = Json::object().with("name", Json::text("coduck")).with(
        "version",
        Json::text(version),
    );
    let capabilities = Json::object().with("experimentalApi", Json::Bool(true));
    Json::object().with("clientInfo", client).with("capabilities", capabilities)
}

/// Asks the helper for its effective configuration.
pub fn config_call() -> (call: Call)
    ensures
        call@ == (CallView {
            method: "config/read"@,
            params: JsonView::object().with("includeLayers"@, JsonView::Bool(false)),
        }),
{
    Call {
        method: "config/read",
        params: Json::object().with("includeLayers", Json::Bool(false)),
    }
}

/// Whether a value is no text, or the text that is expected.
pub open spec fn unset_or(value: JsonView, text: Seq<char>) -> bool {
    !(value is Text) || value == JsonView::Text(text)
}

fn is_unset_or(value: &Json, text: &str) -> (yes: bool)
    ensures
        yes == unset_or(value@, text@),
{
    match value.as_text() {
        Some(held) => same_text(held, text),
        None => true,
    }
}

/// Whether a value is the address of the official ChatGPT backend.
pub open spec fn is_official_backend(value: JsonView) -> bool {
    ||| value == JsonView::Text("https://chatgpt.com/backend-api/"@)
    ||| value == JsonView::Text("https://chatgpt.com/backend-api"@)
}

/// Tells whether a value is the address of the official ChatGPT backend.
pub fn official_backend(value: &Json) -> (yes: bool)
    ensures
        yes == is_official_backend(value@),
{
    value.is_text("https://chatgpt.com/backend-api/") || value.is_text(
        "https://chatgpt.com/backend-api",
    )
}

/// Why the configuration of a helper is refused; none where it is accepted.
pub open spec fn helper_config_fault(config: JsonView) -> Option<Error> {
    if config.at("cli_auth_credentials_store"@) != JsonView::Text("keyring"@) {
        Some(Error::HelperStore)
    } else if {
        &&& unset_or(config.at("model_provider"@), "openai"@)
        &&& !config.at("model_providers"@).has("openai"@)
        &&& is_official_backend(config.at("chatgpt_base_url"@))
        &&& (unset_or(config.at("openai_base_url"@), "https://api.openai.com/v1"@) || unset_or(
            config.at("openai_base_url"@),
            "https://api.openai.com/v1/"@,
        ))
        &&& unset_or(config.at("forced_login_method"@), "chatgpt"@)
    } {
        None
    } else {
        Some(Error::HelperProvider)
    }
}

/// Refuses a helper that does not keep credentials in the keyring, or that talks to anyone
/// but the official services.
pub fn validate_config(config: &Json) -> (result: Result<(), Error>)
    ensures
        result == (match helper_config_fault(config@) {
            Some(error) => Err(error),
            None => Ok(()),
        }),
{
    if !config.at("cli_auth_credentials_store").is_text("keyring") {
        return Err(Error::HelperStore);
    }
    let address = config.at("openai_base_url");
    if is_unset_or(config.at("model_provider"), "openai") && !config.at("model_providers").has(
        "openai",
    ) && official_backend(config.at("chatgpt_base_url")) && (is_unset_or(
        address,
        "https://api.openai.com/v1",
    ) || is_unset_or(address, "https://api.openai.com/v1/")) && is_unset_or(
        config.at("forced_login_method"),
        "chatgpt",
    ) {
        Ok(())
    } else {
        Err(Error::HelperProvider)
    }
}

/// Asks the helper for its account.
pub fn account_call() -> (call: Call)
    ensures
        call@ == (CallView {
            method: "account/read"@,
            params: JsonView::object().with("refreshToken"@, JsonView::Bool(false)),
        }),
{
    Call {
        method: "account/read",
        params: Json::object().with("refreshToken", Json::Bool(false)),
    }
}

/// Whether an account is signed in, by what the helper says of it.
pub open spec fn signed_in_by(response: JsonView) -> Result<bool, Error> {
    match response.get("account"@) {
        Some(account) => Ok(!(account is Null)),
        None => Err(Error::InvalidAccount),
    }
}

/// Tells whether an account is signed in, by what the helper says of it.
pub fn signed_in(response: &Json) -> (signed: Result<bool, Error>)
    ensures
        signed == signed_in_by(response@),
{
    match response.get("account") {
        Some(account) => Ok(!account.is_null()),
        None => Err(Error::InvalidAccount),
    }
}

/// Asks the helper to begin a login.
pub fn login_call() -> (call: Call)
    ensures
        call@ == (CallView {
            method: "account/login/start"@,
            params: JsonView::object().with("type"@, JsonView::Text("chatgpt"@)),
        }),
{
    Call {
        method: "account/login/start",
        params: Json::object().with("type", Json::text("chatgpt")),
    }
}

/// Accepts the beginning of a login: a managed one, at the official address.
pub fn begin_login(response: &Json) -> (login: Result<Login, Error>)
    ensures
        ({
            let url = response@.at("authUrl"@).as_filled_text();
            let id = response@.at("loginId"@).as_filled_text();
            if response@.at("type"@) != JsonView::Text("chatgpt"@) {
                login == Err::<Login, Error>(Error::LoginNotStarted)
            } else if url is None || id is None {
                login == Err::<Login, Error>(Error::MissingInformation)
            } else if !"https://auth.openai.com/"@.is_prefix_of(url->0) {
                login == Err::<Login, Error>(Error::UnexpectedLoginUrl)
            } else {
                login is Ok && login->Ok_0.auth_url@ == url->0 && login->Ok_0.login_id@ == id->0
            }
        }),
{
    if !response.at("type").is_text("chatgpt") {
        return Err(Error::LoginNotStarted);
    }
    let auth_url = match required_string(response, "authUrl") {
        Ok(url) => url,
        Err(error) => return Err(error),
    };
    let login_id = match required_string(response, "loginId") {
        Ok(id) => id,
        Err(error) => return Err(error),
    };
    if !starts_with(auth_url.as_str(), "https://auth.openai.com/") {
        return Err(Error::UnexpectedLoginUrl);
    }
    Ok(Login { auth_url, login_id })
}

/// What one frame means to someone who waits for a login.
pub enum LoginNews {
    /// Nothing final; whether the browser has reported success.
    Waiting(bool),
    Ended(LoginOutcome),
    Failed(Error),
}

/// What one frame means for the login of an identifier, when the browser has reported
/// success before (`completed`) or not. The helper reloads its credentials after the
/// browser is done, so that success is final only when the account was updated thereafter.
pub open spec fn login_news(frame: JsonView, login_id: Seq<char>, completed: bool) -> LoginNews {
    let params = frame.at("params"@);
    if frame.at("method"@) == JsonView::Text("account/login/completed"@) && params.at("loginId"@)
        == JsonView::Text(login_id) {
        match params.at("success"@).as_bool() {
            Some(true) => LoginNews::Waiting(true),
            Some(false) => LoginNews::Ended(LoginOutcome::Unconfirmed),
            None => LoginNews::Failed(Error::InvalidCompletion),
        }
    } else if completed && frame.at("method"@) == JsonView::Text("account/updated"@) {
        if params.at("authMode"@) == JsonView::Text("chatgpt"@) {
            LoginNews::Ended(LoginOutcome::Ready)
        } else {
            LoginNews::Failed(Error::LoginNotLoaded)
        }
    } else {
        LoginNews::Waiting(completed)
    }
}

/// Someone who waits for a login.
pub struct LoginWait {
    pub completed: bool,
    /// How many frames have come.
    pub seen: usize,
}

impl LoginWait {
    /// At the beginning of the wait.
    pub fn new() -> (wait: LoginWait)
        ensures
            wait == (LoginWait { completed: false, seen: 0 }),
    {
        LoginWait { completed: false, seen: 0 }
    }
}

/// Takes one frame while a login is awaited. The wait ends without success when as many
/// frames have come as may.
pub fn wait_login(wait: &mut LoginWait, login: &Login, frame: &Json) -> (news: LoginNews)
    requires
        old(wait).seen < MAX_PENDING,
    ensures
        match login_news(frame@, login.login_id@, old(wait).completed) {
            LoginNews::Waiting(completed) => {
                &&& *final(wait) == (LoginWait { completed, seen: (old(wait).seen + 1) as usize })
                &&& news == (if old(wait).seen + 1 == MAX_PENDING {
                    LoginNews::Failed(Error::TooManyNotifications)
                } else {
                    LoginNews::Waiting(completed)
                })
            },
            other => news == other && *final(wait) == *old(wait),
        },
        news is Waiting ==> final(wait).seen < MAX_PENDING,
{
    let params = frame.at("params");
    let method = frame.at("method");
    let mut completed = wait.completed;
    if method.is_text("account/login/completed") && params.at("loginId").is_text(
        login.login_id.as_str(),
    ) {
        match params.at("success").as_bool() {
            Some(true) => {
                // browser completion precedes the helper's credential reload.
                completed = true;
            },
            Some(false) => return LoginNews::Ended(LoginOutcome::Unconfirmed),
            None => return LoginNews::Failed(Error::InvalidCompletion),
        }
    } else if completed && method.is_text("account/updated") {
        return if params.at("authMode").is_text("chatgpt") {
            LoginNews::Ended(LoginOutcome::Ready)
        } else {
            LoginNews::Failed(Error::LoginNotLoaded)
        };
    }
    wait.completed = completed;
    wait.seen = wait.seen + 1;
    if wait.seen == MAX_PENDING {
        return LoginNews::Failed(Error::TooManyNotifications);
    }
    LoginNews::Waiting(completed)
}

/// Asks the helper to give up a login.
pub fn cancel_login(login: &Login) -> (call: Call)
    ensures
        call@ == (CallView {
            method: "account/login/cancel"@,
            params: JsonView::object().with("loginId"@, JsonView::Text(login.login_id@)),
        }),
{
    Call {
        method: "account/login/cancel",
        params: Json::object().with("loginId", Json::text(login.login_id.as_str())),
    }
}

/// Asks the helper for a token; for a fresh one where `refresh` says so.
pub fn token_call(refresh: bool) -> (call: Call)
    ensures
        call@ == (CallView {
            method: "getAuthStatus"@,
            params: JsonView::object().with("includeToken"@, JsonView::Bool(true)).with(
                "refreshToken"@,
                JsonView::Bool(refresh),
            ),
        }),
{
    Call {
        method: "getAuthStatus",
        params: Json::object().with("includeToken", Json::Bool(true)).with(
            "refreshToken",
            Json::Bool(refresh),
        ),
    }
}

/// The token in the helper's answer, or why there is none.
pub open spec fn token_of(response: JsonView, now: u64) -> Result<TokenView, Error> {
    let secret = response.at("authToken"@).as_filled_text();
    if response.at("authMethod"@) != JsonView::Text("chatgpt"@) {
        Err(Error::NotManaged)
    } else if secret is None {
        Err(Error::MissingInformation)
    } else {
        match token_identity(secret->0, now) {
            Ok(identity) => Ok(TokenView { secret: secret->0, identity }),
            Err(error) => Err(error),
        }
    }
}

/// What a token or its refusal says.
pub open spec fn token_view(token: Result<Token, Error>) -> Result<TokenView, Error> {
    match token {
        Ok(known) => Ok(known@),
        Err(error) => Err(error),
    }
}

/// Takes the token from the helper's answer at the given time.
pub fn token(response: &Json, now: u64) -> (token: Result<Token, Error>)
    ensures
        token_view(token) == token_of(response@, now),
{
    if !response.at("authMethod").is_text("chatgpt") {
        return Err(Error::NotManaged);
    }
    match required_string(response, "authToken") {
        Ok(secret) => Token::parse(secret, now),
        Err(error) => Err(error),
    }
}

/// Why a request for a fresh token is refused before the helper is asked; none where it is
/// not.
pub open spec fn refresh_fault(
    saved: IdentityView,
    previous: IdentityView,
    params: JsonView,
) -> Option<Error> {
    let account = params.at("previousAccountId"@);
    if params.at("reason"@) != JsonView::Text("unauthorized"@) {
        Some(Error::UnsupportedRefresh)
    } else if !(account is Null) && account != JsonView::Text(saved.account_id) {
        Some(Error::WrongRefreshAccount)
    } else if !saved.same_account(previous) {
        Some(Error::IdentityChanged)
    } else {
        None
    }
}

/// Decides whether the helper may be asked for a fresh token.
pub fn check_refresh(saved: &Identity, previous: &Token, params: &Json) -> (result: Result<
    (),
    Error,
>)
    ensures
        result == (match refresh_fault(saved@, previous@.identity, params@) {
            Some(error) => Err(error),
            None => Ok(()),
        }),
{
    if !params.at("reason").is_text("unauthorized") {
        return Err(Error::UnsupportedRefresh);
    }
    let account = params.at("previousAccountId");
    if !account.is_null() && !account.is_text(saved.account_id.as_str()) {
        return Err(Error::WrongRefreshAccount);
    }
    saved.ensure_same_account(&previous.identity)
}

/// Accepts a fresh token: of the same account, and another one than before.
pub fn refresh(saved: &Identity, previous: &Token, next: Token) -> (token: Result<Token, Error>)
    ensures
        token == (if !saved@.same_account(next@.identity) {
            Err(Error::IdentityChanged)
        } else if next@.secret == previous@.secret {
            Err(Error::TokenNotRefreshed)
        } else {
            Ok(next)
        }),
{
    match saved.ensure_same_account(&next.identity) {
        Ok(()) => {},
        Err(error) => return Err(error),
    }
    if same_text(next.secret.as_str(), previous.secret.as_str()) {
        return Err(Error::TokenNotRefreshed);
    }
    Ok(next)
}

/// Asks the helper to log out.
pub fn logout_call() -> (call: Call)
    ensures
        call@ == (CallView { method: "account/logout"@, params: JsonView::object() }),
{
    Call { method: "account/logout", params: Json::object() }
}

/// Decides whether a logout succeeded, by what the helper then says of its account.
pub fn logout(response: &Json) -> (result: Result<(), Error>)
    ensures
        result == (match signed_in_by(response@) {
            Ok(true) => Err(Error::StillSignedIn),
            Ok(false) => Ok(()),
            Err(error) => Err(error),
        }),
{
    match signed_in(response) {
        Ok(true) => Err(Error::StillSignedIn),
        Ok(false) => Ok(()),
        Err(error) => Err(error),
    }
}

/// What a login has come to after some frames: the news of the last, given those before it.
/// What comes after the end does not count.
pub open spec fn login_course(frames: Seq<JsonView>, login_id: Seq<char>) -> LoginNews
    decreases frames.len(),
{
    if frames.len() == 0 {
        LoginNews::Waiting(false)
    } else {
        match login_course(frames.drop_last(), login_id) {
            LoginNews::Waiting(completed) => login_news(frames.last(), login_id, completed),
            other => other,
        }
    }
}

/// Whether a frame reports that the browser is done with a login.
pub open spec fn is_completion(frame: JsonView, login_id: Seq<char>) -> bool {
    &&& frame.at("method"@) == JsonView::Text("account/login/completed"@)
    &&& frame.at("params"@).at("loginId"@) == JsonView::Text(login_id)
    &&& frame.at("params"@).at("success"@) == JsonView::Bool(true)
}

/// Whether a frame reports that a ChatGPT account was loaded.
pub open spec fn is_reload(frame: JsonView) -> bool {
    &&& frame.at("method"@) == JsonView::Text("account/updated"@)
    &&& frame.at("params"@).at("authMode"@) == JsonView::Text("chatgpt"@)
}

proof fn lemma_course_was_completed(frames: Seq<JsonView>, login_id: Seq<char>)
    requires
        login_course(frames, login_id) == LoginNews::Waiting(true),
    ensures
        exists|i: int| 0 <= i < frames.len() && #[trigger] is_completion(frames[i], login_id),
    decreases frames.len(),
{
    let before = frames.drop_last();
    if login_course(before, login_id) == LoginNews::Waiting(true) {
        lemma_course_was_completed(before, login_id);
        let i = choose|i: int|
            0 <= i < before.len() && #[trigger] is_completion(before[i], login_id);
        assert(is_completion(frames[i], login_id));
    } else {
        assert(is_completion(frames[frames.len() - 1], login_id));
    }
}

/// A login is ready only when the browser was done with it and the helper has loaded the
/// account after that.
pub proof fn law_ready_follows_completion_and_reload(frames: Seq<JsonView>, login_id: Seq<char>)
    requires
        login_course(frames, login_id) == LoginNews::Ended(LoginOutcome::Ready),
    ensures
        exists|i: int, j: int|
            0 <= i < j < frames.len() && #[trigger] is_completion(frames[i], login_id)
                && #[trigger] is_reload(frames[j]),
    decreases frames.len(),
{
    let before = frames.drop_last();
    if login_course(before, login_id) == LoginNews::Ended(LoginOutcome::Ready) {
        law_ready_follows_completion_and_reload(before, login_id);
        let (i, j) = choose|i: int, j: int|
            0 <= i < j < before.len() && #[trigger] is_completion(before[i], login_id)
                && #[trigger] is_reload(before[j]);
        assert(is_completion(frames[i], login_id));
        assert(is_reload(frames[j]));
    } else {
        lemma_course_was_completed(before, login_id);
        let i = choose|i: int|
            0 <= i < before.len() && #[trigger] is_completion(before[i], login_id);
        assert(is_completion(frames[i], login_id));
        assert(is_reload(frames[frames.len() - 1]));
    }
}

/// Whatever is wrong with a token, the failure carries nothing of it: it is one of a few fixed
/// ones.
pub proof fn law_token_failures_expose_nothing(response: JsonView, now: u64)
    ensures
        token_of(response, now) matches Err(error) ==> {
            ||| error == Error::NotManaged
            ||| error == Error::MissingInformation
            ||| error == Error::OpaqueToken
            ||| error == Error::InvalidToken
            ||| error == Error::InvalidClaims
            ||| error == Error::NoExpiry
            ||| error == Error::TokenExpired
            ||| error == Error::NoUserIdentity
            ||| error == Error::UnsupportedPlan
        },
{
}

/// An accepted token names an account and a user, and a plan that is supported.
pub proof fn law_accepted_identities_are_complete(secret: Seq<char>, now: u64)
    ensures
        token_identity(secret, now) matches Ok(identity) ==> {
            &&& identity.account_id.len() > 0
            &&& identity.user_id.len() > 0
            &&& is_supported_plan(identity.plan_type)
            &&& identity.email matches Some(email) ==> email.len() > 0
        },
{
}

/// A token only grows old: one that is accepted was accepted before, for the same identity.
pub proof fn law_tokens_only_expire(secret: Seq<char>, earlier: u64, later: u64)
    requires
        earlier <= later,
        token_identity(secret, later) is Ok,
    ensures
        token_identity(secret, earlier) == token_identity(secret, later),
{
}

proof fn lemma_lower_again(text: Seq<char>)
    ensures
        lower_text(lower_text(text)) == lower_text(text),
{
    assert(lower_text(lower_text(text)) =~= lower_text(text));
}

/// The name of a plan is its own name.
pub proof fn law_plan_names_are_stable(plan: Seq<char>)
    ensures
        plan_name(plan_name(plan)) == plan_name(plan),
{
    lemma_lower_again(plan);
    reveal_strlit("edu");
    reveal_strlit("enterprise");
    reveal_strlit("education");
    reveal_strlit("hc");
    assert(lower_text("edu"@) =~= "edu"@);
    assert(lower_text("enterprise"@) =~= "enterprise"@);
    assert("edu"@.len() == 3);
    assert("enterprise"@.len() == 10);
    assert("education"@.len() == 9);
    assert("hc"@.len() == 2);
}

/// A fresh token is handed out only to the account that the profile is for, and only where
/// both the request and the token before it were for that account.
pub proof fn law_refresh_keeps_the_account(
    saved: IdentityView,
    previous: IdentityView,
    next: IdentityView,
    params: JsonView,
)
    requires
        refresh_fault(saved, previous, params) is None,
        saved.same_account(next),
    ensures
        previous.same_account(next),
        params.at("previousAccountId"@) is Null || params.at("previousAccountId"@)
            == JsonView::Text(next.account_id),
{
}

} // verus!
