use fabric::auth::{decode_query_component, desktop_auth_url, parse_callback_url, parse_desktop_callback, url_encode};
use fabric::client::{api_error, ClientError};
use fabric::desktop::auth_error_message;
use fabric::session::{
    default_portal_url, session_expired, sso_portal_url, SessionBundle, DEFAULT_PORTAL_URL,
    SSO_PORTAL_URL,
};
use fabric::signin::{
    callback_step, pick_service_token, saved_token_outcome, session_from_token, token_file_text,
    token_to_save, AuthMsg, CallbackStep, CredentialsError, MacAuthError, SessionError,
};
use fabric::model::TokenResponse;

#[test]
fn parses_legacy_code_callback() {
    let cb = parse_desktop_callback("fabric://auth/callback?code=abc&state=xyz").unwrap();
    assert_eq!(cb.code.as_deref(), Some("abc"));
    assert_eq!(cb.state, "xyz");
}

#[test]
fn parses_direct_token_callback() {
    let cb = parse_desktop_callback(
        "fabric://auth/callback?access_token=tok123&state=xyz&email=a%40b.co&exp=99",
    )
    .unwrap();
    assert_eq!(cb.access_token.as_deref(), Some("tok123"));
    assert_eq!(cb.state, "xyz");
    assert_eq!(cb.email.as_deref(), Some("a@b.co"));
    assert_eq!(cb.exp, Some(99));
}

#[test]
fn rejects_callback_without_state() {
    assert!(parse_desktop_callback("fabric://auth/callback?code=abc").is_none());
}

#[test]
fn rejects_wrong_scheme() {
    assert!(parse_desktop_callback("https://example.com?state=x").is_none());
}

#[test]
fn desktop_auth_url_uses_login() {
    assert!(desktop_auth_url("https://fabric.blackstar.inc", "s1").contains("/login?desktop=1"));
}

#[test]
fn desktop_auth_url_exact_text() {
    assert_eq!(
        desktop_auth_url("https://fabric.blackstar.inc//", "a b"),
        "https://fabric.blackstar.inc/login?desktop=1&state=a%20b"
    );
}

#[test]
fn url_round_trip_on_ascii() {
    let s = "a b/c?d=e&f~g_h.i-j+k%";
    let enc = url_encode(s);
    assert_eq!(enc, "a%20b%2Fc%3Fd%3De%26f~g_h.i-j%2Bk%25");
    assert_eq!(decode_query_component(&enc), s);
}

#[test]
fn decode_keeps_bad_escapes() {
    assert_eq!(decode_query_component("%zz%4"), "%zz%4");
    assert_eq!(decode_query_component("%+5x"), "\u{5}x");
}

#[test]
fn parse_callback_url_pairs() {
    let r = parse_callback_url("fabric://auth/callback?code=c1&state=s");
    assert_eq!(r, Some(("c1".to_string(), "s".to_string())));
    assert_eq!(parse_callback_url("fabric://auth/callback?access_token=t&state=s"), None);
}

#[test]
fn unauthorized_detection() {
    assert!(ClientError::Unauthorized.is_unauthorized());
    assert!(ClientError::Api { status: 401, message: "nope".into() }.is_unauthorized());
    assert!(!ClientError::Api { status: 500, message: "boom".into() }.is_unauthorized());
}

#[test]
fn api_error_maps_401_to_unauthorized() {
    let err = api_error(401, "Google SSO required".into());
    assert!(matches!(err, ClientError::Unauthorized));
    let other = api_error(404, "gone".into());
    assert_eq!(other, ClientError::Api { status: 404, message: "gone".into() });
}

#[test]
fn client_error_messages() {
    assert_eq!(ClientError::Unauthorized.message(), "session expired");
    assert_eq!(ClientError::Http("timeout".into()).message(), "http error: timeout");
    assert_eq!(ClientError::Json("eof".into()).message(), "invalid json: eof");
    assert_eq!(
        ClientError::Api { status: 404, message: "gone".into() }.message(),
        "portal returned 404 Not Found: gone"
    );
    assert_eq!(
        ClientError::Api { status: 599, message: "x".into() }.message(),
        "portal returned 599 <unknown status code>: x"
    );
}

#[test]
fn auth_error_message_for_rejection_and_other() {
    assert_eq!(
        auth_error_message(&ClientError::Unauthorized),
        "Sign in failed \u{2014} authentication rejected"
    );
    assert_eq!(auth_error_message(&ClientError::Http("down".into())), "http error: down");
}

#[test]
fn default_portal_url_points_at_agents_host() {
    assert_eq!(default_portal_url(None), "https://agents.fabric.blackstar.inc");
    assert_eq!(default_portal_url(Some("https://x.example/")), "https://x.example");
    assert_eq!(default_portal_url(Some("  ")), DEFAULT_PORTAL_URL);
}

#[test]
fn sso_url_rejects_agents_host() {
    assert_eq!(
        sso_portal_url(Some("https://agents.fabric.blackstar.inc")),
        SSO_PORTAL_URL.trim_end_matches('/')
    );
}

#[test]
fn api_portal_url_removes_sso_host() {
    let bundle = SessionBundle { portal_url: SSO_PORTAL_URL.into(), ..Default::default() };
    let sso = sso_portal_url(None);
    let data = default_portal_url(None);
    assert_eq!(bundle.api_portal_url(&sso, &data), "https://agents.fabric.blackstar.inc");
    let other = SessionBundle { portal_url: "https://elsewhere.example//".into(), ..Default::default() };
    assert_eq!(other.api_portal_url(&sso, &data), "https://elsewhere.example");
    assert_eq!(
        SessionBundle::api_portal_url_for_sso_host("https://fabric.blackstar.inc/", &sso, &data),
        "https://agents.fabric.blackstar.inc"
    );
}

fn now_secs() -> i64 {
    std::time::SystemTime::now()
        .duration_since(std::time::UNIX_EPOCH)
        .map(|d| d.as_secs() as i64)
        .unwrap_or(0)
}

#[test]
fn session_expiry() {
    let now = now_secs();
    assert!(!session_expired(None, now));
    assert!(!session_expired(Some(i64::MAX), now));
    assert!(session_expired(Some(1), now));
}

#[test]
fn service_token_sources_in_order() {
    let c = vec![Some("   ".to_string()), None, Some("  tok \n".to_string()), Some("later".to_string())];
    assert_eq!(pick_service_token(&c).unwrap(), "tok");
    assert_eq!(pick_service_token(&[None, Some(" ".into())]), Err(CredentialsError::NotConfigured));
    assert_eq!(token_to_save("  t1 ").unwrap(), "t1");
    assert_eq!(token_to_save(" \t"), Err(CredentialsError::NotConfigured));
    assert_eq!(token_file_text("t1"), "t1\n");
}

#[test]
fn error_texts() {
    assert!(CredentialsError::NotConfigured.message().starts_with("no service token configured"));
    assert_eq!(CredentialsError::Io("denied".into()).message(), "io error: denied");
    assert_eq!(SessionError::Json.message(), "invalid session json");
    assert_eq!(SessionError::NotFound.message(), "no saved session");
    assert_eq!(MacAuthError::Failed("x".into()).message(), "authentication failed: x");
    assert_eq!(MacAuthError::Canceled.message(), "sign in canceled");
}

#[test]
fn sign_in_outcomes() {
    let expired = TokenResponse { access_token: "a".into(), exp: Some(5), ..Default::default() };
    match session_from_token(expired, "p".into(), 10) {
        AuthMsg::Failed(m) => assert_eq!(m, "Session already expired \u{2014} try again"),
        _ => panic!("expected failure"),
    }
    let fresh = TokenResponse { access_token: "a".into(), exp: Some(50), email: Some("e".into()), ..Default::default() };
    match session_from_token(fresh, "p".into(), 10) {
        AuthMsg::Session(b) => {
            assert_eq!(b.access_token, "a");
            assert_eq!(b.portal_url, "p");
            assert_eq!(b.expires_at, Some(50));
        }
        _ => panic!("expected session"),
    }
    assert!(matches!(saved_token_outcome("t".into(), Ok(())), AuthMsg::ServiceToken(t) if t == "t"));
    assert!(matches!(saved_token_outcome("t".into(), Err(ClientError::Unauthorized)), AuthMsg::Failed(m) if m == "Invalid service token"));
    assert!(matches!(saved_token_outcome("t".into(), Err(ClientError::Http("x".into()))), AuthMsg::Failed(m) if m == "http error: x"));
}

#[test]
fn callback_steps() {
    let sso = SSO_PORTAL_URL.trim_end_matches('/');
    let bad = |step: CallbackStep, msg: &str| match step {
        CallbackStep::Failed(ClientError::Api { status: 400, message }) => assert_eq!(message, msg),
        other => panic!("expected bad request, got {other:?}"),
    };
    bad(callback_step(None, "s", sso, sso, DEFAULT_PORTAL_URL), "invalid auth callback");
    let cb = parse_desktop_callback("fabric://auth/callback?state=other&access_token=t");
    bad(callback_step(cb, "s", sso, sso, DEFAULT_PORTAL_URL), "auth state mismatch");
    let cb = parse_desktop_callback("fabric://auth/callback?state=s&access_token=tok&email=a%40b&exp=99");
    match callback_step(cb, "s", sso, sso, DEFAULT_PORTAL_URL) {
        CallbackStep::Token(t) => {
            assert_eq!(t.access_token, "tok");
            assert_eq!(t.token_type.as_deref(), Some("session"));
            assert_eq!(t.email.as_deref(), Some("a@b"));
            assert_eq!(t.exp, Some(99));
        }
        other => panic!("expected token, got {other:?}"),
    }
    let cb = parse_desktop_callback("fabric://auth/callback?state=s&code=c1");
    match callback_step(cb, "s", &format!("{sso}/"), sso, DEFAULT_PORTAL_URL) {
        CallbackStep::Exchange { url, request } => {
            assert_eq!(url, DEFAULT_PORTAL_URL);
            assert_eq!(request.code, "c1");
            assert_eq!(request.state, "s");
        }
        other => panic!("expected exchange, got {other:?}"),
    }
    let cb = parse_desktop_callback("fabric://auth/callback?state=s");
    bad(callback_step(cb, "s", sso, sso, DEFAULT_PORTAL_URL), "auth callback missing token");
}

#[test]
fn saved_token_reads_back() {
    let saved = token_file_text(&token_to_save("  svc-token-1 \n").unwrap());
    assert_eq!(saved, "svc-token-1\n");
    assert_eq!(pick_service_token(&[None, Some(saved)]).unwrap(), "svc-token-1");
}
