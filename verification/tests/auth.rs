use base64::engine::general_purpose::{URL_SAFE, URL_SAFE_NO_PAD};
use base64::Engine;
use coduck::auth::{
    account_call, begin_login, cancel_login, check_refresh, config_call, initialize, login_call,
    logout, logout_call, official_backend, refresh, required_string, signed_in, token, token_call,
    validate_config, wait_login, Login, LoginNews, LoginOutcome, LoginWait, Token,
};
use coduck::error::Error;
use coduck::json::Json;
use coduck::rpc::{FrameReader, MAX_PENDING};

fn json(text: &str) -> Json {
    let line = format!("{text}\n");
    let received = FrameReader::new().read_frame(line.as_bytes()).unwrap();
    assert_eq!(received.consumed, line.len());
    received.frame.unwrap()
}

fn secret_of(claims: &str) -> String {
    format!("e30.{}.signature", URL_SAFE_NO_PAD.encode(claims))
}

fn jwt(account: &str, user: &str, plan: &str, exp: u64) -> String {
    secret_of(&format!(
        "{{\"exp\":{exp},\"email\":\"sample@example.invalid\",\"https://api.openai.com/auth\":\
         {{\"chatgpt_account_id\":\"{account}\",\"chatgpt_user_id\":\"{user}\",\
         \"chatgpt_plan_type\":\"{plan}\"}}}}"
    ))
}

fn parsed(secret: String, now: u64) -> Token {
    match Token::parse(secret, now) {
        Ok(token) => token,
        Err(error) => panic!("{}", error.message()),
    }
}

fn fault(secret: &str, now: u64) -> Error {
    Token::parse(secret.to_owned(), now).err().unwrap()
}

fn answer(secret: &str) -> Json {
    Json::object()
        .with("authMethod", Json::text("chatgpt"))
        .with("authToken", Json::text(secret))
}

fn login(id: &str) -> Login {
    Login { auth_url: String::new(), login_id: id.to_owned() }
}

#[test]
fn unsuccessful_callback_requires_saved_credential_verification() {
    let frame = json(
        "{\"method\":\"account/login/completed\",\"params\":{\"loginId\":\"login\",\"success\":false,\"error\":\"private callback detail\"}}",
    );
    let news = wait_login(&mut LoginWait::new(), &login("login"), &frame);
    assert!(matches!(news, LoginNews::Ended(LoginOutcome::Unconfirmed)));
}

#[test]
fn login_waits_for_account_reload_after_browser_completion() {
    let login = login("login");
    let mut wait = LoginWait::new();
    for frame in [
        "{\"method\":\"account/updated\",\"params\":{\"authMode\":\"chatgpt\"}}",
        "{\"method\":\"account/login/completed\",\"params\":{\"loginId\":\"login\",\"success\":true}}",
    ] {
        assert!(matches!(wait_login(&mut wait, &login, &json(frame)), LoginNews::Waiting(_)));
    }
    let frame = json("{\"method\":\"account/updated\",\"params\":{\"authMode\":\"chatgpt\"}}");
    assert!(matches!(
        wait_login(&mut wait, &login, &frame),
        LoginNews::Ended(LoginOutcome::Ready)
    ));
}

#[test]
fn forced_refresh_rejects_cached_and_changed_identity_tokens() {
    let now = 1_000_000;
    let secret = jwt("account", "user", "plus", now + 3600);
    let previous = parsed(secret.clone(), now);
    let params = json("{\"reason\":\"unauthorized\",\"previousAccountId\":\"account\"}");
    assert!(check_refresh(&previous.identity, &previous, &params).is_ok());
    let cached = token(&answer(&secret), now).ok().unwrap();
    assert_eq!(
        refresh(&previous.identity, &previous, cached).err(),
        Some(Error::TokenNotRefreshed)
    );
    let other = token(&answer(&jwt("other", "user", "plus", now + 7200)), now).ok().unwrap();
    assert_eq!(
        refresh(&previous.identity, &previous, other).err(),
        Some(Error::IdentityChanged)
    );
    let next = token(&answer(&jwt("account", "user", "pro", now + 7200)), now).ok().unwrap();
    let renewed = refresh(&previous.identity, &previous, next).ok().unwrap();
    assert_eq!(renewed.identity.plan_type, "pro");
    let params = json("{\"reason\":\"unauthorized\",\"previousAccountId\":\"other\"}");
    assert!(check_refresh(&previous.identity, &previous, &params).is_err());
}

#[test]
fn logout_requires_confirmed_local_credential_removal() {
    assert!(logout(&json("{\"account\":{\"type\":\"chatgpt\"}}")).is_err());
    assert!(logout(&json("{\"account\":null}")).is_ok());
}

#[test]
fn optional_claim_fallbacks_accept_legacy_user_and_profile_email() {
    let claims = "{\"exp\":1000,\"email\":\"\",\"https://api.openai.com/profile\":{\"email\":\"fallback@example.invalid\"},\"https://api.openai.com/auth\":{\"chatgpt_account_id\":\"account\",\"chatgpt_user_id\":null,\"user_id\":\"legacy-user\",\"chatgpt_plan_type\":\"free\"}}";
    let token = parsed(secret_of(claims), 100);
    assert_eq!(token.identity.user_id, "legacy-user");
    assert_eq!(token.identity.email.as_deref(), Some("fallback@example.invalid"));
}

#[test]
fn preflight_rejects_custom_endpoints_and_credential_stores() {
    let config = json("{\"cli_auth_credentials_store\":\"keyring\",\"chatgpt_base_url\":\"https://chatgpt.com/backend-api/\",\"model_provider\":null}");
    assert!(validate_config(&config).is_ok());
    for (key, value) in [
        ("cli_auth_credentials_store", "\"file\""),
        ("chatgpt_base_url", "\"https://example.invalid\""),
        ("model_provider", "\"custom\""),
        ("model_providers", "{\"openai\":{\"base_url\":\"https://example.invalid\"}}"),
        ("forced_login_method", "\"api\""),
    ] {
        let changed = config.clone().with(key, json(value));
        assert!(validate_config(&changed).is_err());
    }
}

#[test]
fn organization_plans_preserve_workspace_identity() {
    for plan in [
        "team",
        "self_serve_business_prolite",
        "self_serve_business_usage_based",
        "business",
        "ent26",
        "enterprise_cbp_automation",
        "enterprise_cbp_usage_based",
        "enterprise",
        "edu",
        "edu_plus",
        "edu_pro",
    ] {
        let token = parsed(jwt("workspace", "member", plan, 1000), 100);
        let login = token.login_params();
        assert_eq!(login.at("chatgptAccountId").as_text(), Some("workspace"));
        assert_eq!(login.at("chatgptPlanType").as_text(), Some(plan));
        assert_eq!(token.refresh_result().at("chatgptAccountId").as_text(), Some("workspace"));
        let other = parsed(jwt("other-workspace", "member", plan, 1000), 100);
        assert!(token.identity.ensure_same_account(&other.identity).is_err());
    }
}

#[test]
fn normalizes_official_organization_plan_aliases() {
    for (raw, expected) in [("education", "edu"), ("hc", "enterprise"), ("EDU", "edu")] {
        let token = parsed(jwt("workspace", "member", raw, 1000), 100);
        assert_eq!(token.identity.plan_type, expected);
        assert_eq!(token.login_params().at("chatgptPlanType").as_text(), Some(expected));
        assert_eq!(token.refresh_result().at("chatgptPlanType").as_text(), Some(expected));
    }
}

#[test]
fn validates_identity_expiry_and_supported_plans_without_exposing_tokens() {
    let token = parsed(jwt("account", "user", "plus", 1000), 100);
    assert_eq!(token.identity.account_id, "account");
    assert_eq!(token.identity.user_id, "user");
    for secret in [
        jwt("", "user", "plus", 1000),
        jwt("account", "", "plus", 1000),
        jwt("account", "user", "unknown", 1000),
        jwt("account", "user", "plus", 110),
        "opaque-secret".to_owned(),
    ] {
        let error = fault(&secret, 100).message();
        assert!(!error.contains(&secret));
    }
}

#[test]
fn every_fault_of_a_token_has_its_own_name() {
    assert_eq!(fault("opaque-secret", 100), Error::OpaqueToken);
    assert_eq!(fault("two.parts", 100), Error::InvalidToken);
    assert_eq!(fault("a.b.c.d", 100), Error::InvalidToken);
    assert_eq!(fault("e30.!!!.signature", 100), Error::InvalidClaims);
    assert_eq!(fault(&secret_of("not json"), 100), Error::InvalidClaims);
    assert_eq!(fault(&secret_of("{}"), 100), Error::NoExpiry);
    assert_eq!(fault(&secret_of("{\"exp\":-1}"), 100), Error::NoExpiry);
    assert_eq!(fault(&secret_of("{\"exp\":1000.5}"), 100), Error::NoExpiry);
    assert_eq!(fault(&secret_of("{\"exp\":130}"), 100), Error::TokenExpired);
    assert_eq!(fault(&secret_of("{\"exp\":131}"), 100), Error::MissingInformation);
    assert_eq!(
        fault(
            &secret_of("{\"exp\":131,\"https://api.openai.com/auth\":{\"chatgpt_account_id\":\"a\"}}"),
            100
        ),
        Error::NoUserIdentity
    );
    assert_eq!(
        fault(
            &secret_of("{\"exp\":131,\"https://api.openai.com/auth\":{\"chatgpt_account_id\":\"a\",\"user_id\":\"u\"}}"),
            100
        ),
        Error::MissingInformation
    );
    assert_eq!(fault(&jwt("a", "u", "unknown", 131), 100), Error::UnsupportedPlan);
}

#[test]
fn a_token_expires_half_a_minute_early_and_only_once() {
    let secret = jwt("account", "user", "plus", 1000);
    for now in [0, 100, 969] {
        assert_eq!(parsed(secret.clone(), now).identity.plan_type, "plus");
    }
    for now in [970, 1000, u64::MAX] {
        assert_eq!(fault(&secret, now), Error::TokenExpired);
    }
}

#[test]
fn claims_may_be_padded_or_not() {
    let claims = "{\"exp\":1000,\"https://api.openai.com/auth\":{\"chatgpt_account_id\":\"account\",\"user_id\":\"u\",\"chatgpt_plan_type\":\"plus\"}}";
    for pad in ["", " ", "  "] {
        let text = format!("{claims}{pad}");
        for part in [URL_SAFE.encode(&text), URL_SAFE_NO_PAD.encode(&text)] {
            let token = parsed(format!("e30.{part}.signature"), 100);
            assert_eq!(token.identity.account_id, "account");
            assert!(token.needs_email());
        }
    }
}

#[test]
fn a_missing_address_is_taken_from_the_account() {
    let claims = "{\"exp\":1000,\"https://api.openai.com/auth\":{\"chatgpt_account_id\":\"account\",\"user_id\":\"u\",\"chatgpt_plan_type\":\"plus\"}}";
    let token = parsed(secret_of(claims), 100);
    assert!(token.needs_email());
    let known = token.with_account_email(&json("{\"account\":{\"email\":\"a@example.invalid\"}}"));
    assert!(!known.needs_email());
    assert_eq!(known.identity().label(), "a@example.invalid");
    assert_eq!(known.identity().account_id, "account");
    let unknown = known.with_account_email(&json("{\"account\":null}"));
    assert!(unknown.needs_email());
    assert_eq!(unknown.identity().label(), "account");
}

#[test]
fn tokens_are_told_to_the_server_in_full() {
    let secret = jwt("account", "user", "plus", 1000);
    let token = parsed(secret.clone(), 100);
    let login = token.login_params();
    assert!(login.at("type").is_text("chatgptAuthTokens"));
    assert!(login.at("accessToken").is_text(&secret));
    assert!(!token.refresh_result().has("type"));
    assert!(token.refresh_result().at("accessToken").is_text(&secret));
}

#[test]
fn the_helper_is_asked_in_fixed_words() {
    let params = initialize("1.2.3");
    assert!(params.at("clientInfo").at("name").is_text("coduck"));
    assert!(params.at("clientInfo").at("version").is_text("1.2.3"));
    assert_eq!(params.at("capabilities").at("experimentalApi").as_bool(), Some(true));
    for (call, method, key) in [
        (config_call(), "config/read", "includeLayers"),
        (account_call(), "account/read", "refreshToken"),
    ] {
        assert_eq!(call.method, method);
        assert_eq!(call.params.at(key).as_bool(), Some(false));
    }
    let call = login_call();
    assert_eq!(call.method, "account/login/start");
    assert!(call.params.at("type").is_text("chatgpt"));
    let call = cancel_login(&login("login"));
    assert_eq!(call.method, "account/login/cancel");
    assert!(call.params.at("loginId").is_text("login"));
    let call = token_call(true);
    assert_eq!(call.method, "getAuthStatus");
    assert_eq!(call.params.at("includeToken").as_bool(), Some(true));
    assert_eq!(call.params.at("refreshToken").as_bool(), Some(true));
    assert_eq!(token_call(false).params.at("refreshToken").as_bool(), Some(false));
    assert_eq!(logout_call().method, "account/logout");
}

#[test]
fn the_official_services_are_accepted_in_either_spelling() {
    let config = "{\"cli_auth_credentials_store\":\"keyring\",\"chatgpt_base_url\":\"https://chatgpt.com/backend-api\",\"openai_base_url\":\"https://api.openai.com/v1\"}";
    assert!(validate_config(&json(config)).is_ok());
    assert!(official_backend(&Json::text("https://chatgpt.com/backend-api/")));
    assert!(!official_backend(&Json::text("https://chatgpt.com/")));
    assert!(!official_backend(&Json::Null));
    let other = json(config).with("openai_base_url", Json::text("https://api.openai.com/v2"));
    assert_eq!(validate_config(&other), Err(Error::HelperProvider));
    assert_eq!(validate_config(&Json::Null), Err(Error::HelperStore));
}

#[test]
fn a_login_begins_at_the_official_address() {
    let started = begin_login(&json("{\"type\":\"chatgpt\",\"authUrl\":\"https://auth.openai.com/x\",\"loginId\":\"1\"}")).ok().unwrap();
    assert_eq!(started.auth_url, "https://auth.openai.com/x");
    assert_eq!(started.login_id, "1");
    for (response, error) in [
        ("{\"type\":\"apiKey\"}", Error::LoginNotStarted),
        ("{\"type\":\"chatgpt\",\"authUrl\":\"\",\"loginId\":\"1\"}", Error::MissingInformation),
        ("{\"type\":\"chatgpt\",\"authUrl\":\"https://auth.openai.com/\"}", Error::MissingInformation),
        (
            "{\"type\":\"chatgpt\",\"authUrl\":\"https://auth.openai.com.invalid/\",\"loginId\":\"1\"}",
            Error::UnexpectedLoginUrl,
        ),
    ] {
        assert_eq!(begin_login(&json(response)).err(), Some(error));
    }
}

#[test]
fn accounts_are_signed_in_unless_they_are_null() {
    assert_eq!(signed_in(&json("{\"account\":{}}")), Ok(true));
    assert_eq!(signed_in(&json("{\"account\":null}")), Ok(false));
    assert_eq!(signed_in(&json("{}")), Err(Error::InvalidAccount));
    assert_eq!(logout(&json("[]")), Err(Error::InvalidAccount));
    assert_eq!(logout(&json("{\"account\":1}")), Err(Error::StillSignedIn));
}

#[test]
fn a_login_that_goes_wrong_is_reported() {
    let login = login("login");
    let done = json("{\"method\":\"account/login/completed\",\"params\":{\"loginId\":\"login\",\"success\":true}}");
    let mut wait = LoginWait::new();
    assert!(matches!(wait_login(&mut wait, &login, &done), LoginNews::Waiting(true)));
    let other = json("{\"method\":\"account/updated\",\"params\":{\"authMode\":\"apikey\"}}");
    assert!(matches!(
        wait_login(&mut wait, &login, &other),
        LoginNews::Failed(Error::LoginNotLoaded)
    ));
    let vague = json("{\"method\":\"account/login/completed\",\"params\":{\"loginId\":\"login\"}}");
    assert!(matches!(
        wait_login(&mut LoginWait::new(), &login, &vague),
        LoginNews::Failed(Error::InvalidCompletion)
    ));
    let foreign = json("{\"method\":\"account/login/completed\",\"params\":{\"loginId\":\"x\",\"success\":false}}");
    let mut wait = LoginWait::new();
    for _ in 1..MAX_PENDING {
        assert!(matches!(wait_login(&mut wait, &login, &foreign), LoginNews::Waiting(false)));
    }
    assert!(matches!(
        wait_login(&mut wait, &login, &foreign),
        LoginNews::Failed(Error::TooManyNotifications)
    ));
}

#[test]
fn a_token_has_to_be_a_managed_one() {
    assert_eq!(token(&json("{\"authMethod\":\"apikey\"}"), 0).err(), Some(Error::NotManaged));
    assert_eq!(
        token(&json("{\"authMethod\":\"chatgpt\"}"), 0).err(),
        Some(Error::MissingInformation)
    );
    let known = token(&answer(&jwt("account", "user", "plus", 1000)), 100).ok().unwrap();
    assert_eq!(known.identity().account_id, "account");
    assert_eq!(
        token(&answer(&jwt("account", "user", "plus", 1000)), 1000).err(),
        Some(Error::TokenExpired)
    );
}

#[test]
fn fresh_tokens_are_asked_for_with_reason() {
    let saved = parsed(jwt("account", "user", "plus", 1000), 100);
    let other = parsed(jwt("account", "somebody", "plus", 1000), 100);
    let check = |params: &str| check_refresh(saved.identity(), &saved, &json(params));
    assert_eq!(check("{}"), Err(Error::UnsupportedRefresh));
    assert_eq!(check("{\"reason\":\"unauthorized\"}"), Ok(()));
    assert_eq!(check("{\"reason\":\"unauthorized\",\"previousAccountId\":null}"), Ok(()));
    assert_eq!(
        check("{\"reason\":\"unauthorized\",\"previousAccountId\":7}"),
        Err(Error::WrongRefreshAccount)
    );
    assert_eq!(
        check_refresh(saved.identity(), &other, &json("{\"reason\":\"unauthorized\"}")),
        Err(Error::IdentityChanged)
    );
}

#[test]
fn required_texts_are_not_empty() {
    let value = json("{\"a\":\"x\",\"b\":\"\",\"c\":1}");
    assert_eq!(required_string(&value, "a"), Ok("x".to_owned()));
    for key in ["b", "c", "d"] {
        assert_eq!(required_string(&value, key), Err(Error::MissingInformation));
    }
}
