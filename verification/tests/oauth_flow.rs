use ticktick_cli::oauth::{
    authorize_query, authorize_url_for, callback_listener, callback_outcome, port_or_default, gen_pkce, gen_state,
    join_scopes, listen_address, pkce_pair, query_value, token_from_reply,
    token_request_params, CallbackOutcome, OAuthClientConfig, OAuthProvider, OAuthToken,
};
use ticktick_cli::ticktick::TickTickOAuthProvider;
use ticktick_cli::web::UrlError;

fn pairs(list: &[(&str, &str)]) -> Vec<(String, String)> {
    list.iter().map(|(k, v)| (k.to_string(), v.to_string())).collect()
}

fn token(access: &str) -> OAuthToken {
    OAuthToken {
        access_token: access.to_string(),
        refresh_token: None,
        token_type: Some("bearer".to_string()),
        expires_in: Some(3600),
        scope: None,
    }
}

#[test]
fn state_is_32_hex_digits() {
    let a = gen_state().unwrap();
    let b = gen_state().unwrap();
    assert_eq!(a.len(), 32);
    assert!(a.chars().all(|c| c.is_ascii_digit() || ('a'..='f').contains(&c)));
    assert_ne!(a, b);
}

#[test]
fn pkce_pair_matches_the_rfc_example() {
    let seed: [u8; 32] = [
        116, 24, 223, 180, 151, 153, 224, 37, 79, 250, 96, 125, 216, 173, 187, 186, 22, 212, 37, 77,
        105, 214, 191, 240, 91, 88, 5, 88, 83, 132, 141, 121,
    ];
    let (verifier, challenge) = pkce_pair(&seed);
    assert_eq!(verifier, "dBjftJeZ4CVP-mB92K27uhbUJU1p1r_wW1gFWFOEjXk");
    assert_eq!(challenge, "E9Melhoa2OwvFrEMTJguCHaoeK1t8URWbuGJSstw-cM");
}

#[test]
fn pkce_pair_of_short_seeds() {
    let (verifier, challenge) = pkce_pair(b"hello");
    assert_eq!(verifier, "aGVsbG8");
    // SHA-256("aGVsbG8") in URL-safe base64 without padding.
    assert_eq!(challenge.len(), 43);
    let (verifier, _) = pkce_pair(&[0xfb, 0xff]);
    assert_eq!(verifier, "-_8");
    let (verifier, challenge) = pkce_pair(&[]);
    assert_eq!(verifier, "");
    // SHA-256 of no bytes.
    assert_eq!(challenge, "47DEQpj8HBSa-_TImW-5JCeuQeRkm5NMpJWZG3hSuFU");
}

#[test]
fn fresh_pkce_challenge_is_the_s256_of_its_verifier() {
    let (verifier, challenge) = gen_pkce().unwrap();
    assert_eq!(verifier.len(), 43);
    assert!(verifier.chars().all(|c| c.is_ascii_alphanumeric() || c == '-' || c == '_'));
    assert_eq!(challenge.len(), 43);
    assert!(challenge.chars().all(|c| c.is_ascii_alphanumeric() || c == '-' || c == '_'));
    let (other, _) = gen_pkce().unwrap();
    assert_ne!(verifier, other);
}

#[test]
fn scopes_are_joined_with_spaces() {
    assert_eq!(join_scopes(&[]), "");
    assert_eq!(join_scopes(&["tasks:read"]), "tasks:read");
    assert_eq!(join_scopes(&["tasks:read", "tasks:write"]), "tasks:read tasks:write");
    assert_eq!(join_scopes(&["a", "", "b"]), "a  b");
}

#[test]
fn authorize_query_lists_the_parameters_in_order() {
    let got = authorize_query("cid", "http://r", "st", "ch", "s1 s2", pairs(&[("prompt", "login")]));
    assert_eq!(
        got,
        pairs(&[
            ("client_id", "cid"),
            ("response_type", "code"),
            ("redirect_uri", "http://r"),
            ("state", "st"),
            ("code_challenge", "ch"),
            ("code_challenge_method", "S256"),
            ("scope", "s1 s2"),
            ("prompt", "login"),
        ])
    );
}

#[test]
fn authorize_query_leaves_out_an_empty_scope() {
    let got = authorize_query("cid", "http://r", "st", "ch", "", Vec::new());
    assert_eq!(got.len(), 6);
    assert!(got.iter().all(|(k, _)| k != "scope"));
}

#[test]
fn ticktick_authorize_url() {
    let provider = TickTickOAuthProvider;
    let url = authorize_url_for(
        provider.authorize_url(),
        provider.scopes(),
        "cid",
        "http://127.0.0.1:8080/callback",
        "st",
        "ch",
        provider.authorize_extra_params(),
    )
    .unwrap();
    assert_eq!(
        url,
        "https://ticktick.com/oauth/authorize?client_id=cid&response_type=code\
         &redirect_uri=http%3A%2F%2F127.0.0.1%3A8080%2Fcallback&state=st&code_challenge=ch\
         &code_challenge_method=S256&scope=tasks%3Aread+tasks%3Awrite"
    );
}

#[test]
fn authorize_url_needs_an_absolute_endpoint() {
    let got = authorize_url_for("oauth/authorize", &[], "c", "r", "s", "x", Vec::new());
    assert_eq!(got, Err(UrlError::RelativeUrlWithoutBase));
}

#[test]
fn ticktick_provider_endpoints() {
    let provider = TickTickOAuthProvider;
    assert_eq!(provider.authorize_url(), "https://ticktick.com/oauth/authorize");
    assert_eq!(provider.token_url(), "https://ticktick.com/oauth/token");
    assert_eq!(provider.scopes(), &["tasks:read", "tasks:write"]);
    assert!(provider.token_extra_params().is_empty());
}

#[test]
fn token_request_lists_the_parameters_in_order() {
    let cfg = OAuthClientConfig { client_id: "cid", client_secret: "sec", redirect_uri: "http://r" };
    let got = token_request_params(&cfg, "code1", "ver1", pairs(&[("x", "y")]));
    assert_eq!(
        got,
        pairs(&[
            ("grant_type", "authorization_code"),
            ("client_id", "cid"),
            ("client_secret", "sec"),
            ("code", "code1"),
            ("redirect_uri", "http://r"),
            ("code_verifier", "ver1"),
            ("x", "y"),
        ])
    );
}

#[test]
fn token_reply_prefers_json_then_form() {
    let got = token_from_reply(Some(token("j")), Ok(token("f")), "body").unwrap();
    assert_eq!(got.access_token, "j");
    let got = token_from_reply(None, Ok(token("f")), "body").unwrap();
    assert_eq!(got.access_token, "f");
    assert_eq!(got.expires_in, Some(3600));
}

#[test]
fn token_reply_error_quotes_the_body() {
    let got = token_from_reply(None, Err("missing field".to_string()), "oops");
    assert_eq!(
        got.unwrap_err(),
        "Failed to parse token response as JSON or form-encoded: missing field. Body: oops"
    );
}

#[test]
fn query_value_takes_the_first_match() {
    let ps = pairs(&[("code", "a"), ("state", "s"), ("code", "b")]);
    assert_eq!(query_value(&ps, "code"), Some("a".to_string()));
    assert_eq!(query_value(&ps, "state"), Some("s".to_string()));
    assert_eq!(query_value(&ps, "error"), None);
    assert_eq!(query_value(&Vec::new(), "code"), None);
}

#[test]
fn callback_with_an_error_is_denied() {
    let out = callback_outcome(&pairs(&[("error", "access_denied"), ("state", "s")]), "s");
    assert!(matches!(&out, CallbackOutcome::Denied(e) if e == "access_denied"));
    assert_eq!(out.page(), "Authorization failed (error param). You can close this tab.");
    assert_eq!(out.code(), None);
}

#[test]
fn callback_with_another_state_is_refused() {
    let out = callback_outcome(&pairs(&[("code", "c"), ("state", "other")]), "s");
    assert!(matches!(out, CallbackOutcome::StateMismatch));
    assert_eq!(out.page(), "Invalid state. You can close this tab.");
    let out = callback_outcome(&pairs(&[("code", "c")]), "s");
    assert!(matches!(out, CallbackOutcome::StateMismatch));
    assert_eq!(out.code(), None);
}

#[test]
fn callback_with_code_and_state_is_authorized() {
    let out = callback_outcome(&pairs(&[("state", "s"), ("code", "c0de")]), "s");
    assert_eq!(out.code(), Some("c0de".to_string()));
    assert_eq!(out.page(), "Authorization successful! You can close this tab and return to the CLI.");
}

#[test]
fn callback_without_code_is_missing_code() {
    let out = callback_outcome(&pairs(&[("state", "s")]), "s");
    assert!(matches!(out, CallbackOutcome::MissingCode));
    assert_eq!(out.page(), "Missing code. You can close this tab.");
}

#[test]
fn callback_listener_reads_port_and_path() {
    assert_eq!(
        callback_listener("http://127.0.0.1:8080/callback").unwrap(),
        (8080, "/callback".to_string())
    );
    assert_eq!(callback_listener("http://localhost:3000/cb/x").unwrap(), (3000, "/cb/x".to_string()));
    assert_eq!(callback_listener("http://127.0.0.1/back").unwrap(), (8080, "/back".to_string()));
    assert_eq!(callback_listener("http://127.0.0.1:80/").unwrap(), (8080, "/".to_string()));
    assert_eq!(callback_listener("/callback"), Err(UrlError::RelativeUrlWithoutBase));
}

#[test]
fn callback_listener_reports_each_url_error() {
    assert_eq!(callback_listener("http://"), Err(UrlError::EmptyHost));
    assert_eq!(callback_listener("http://example.com:99999/cb"), Err(UrlError::InvalidPort));
    assert_eq!(callback_listener("http://256.256.256.256/cb"), Err(UrlError::InvalidIpv4Address));
    assert_eq!(callback_listener("http://[::1/cb"), Err(UrlError::InvalidIpv6Address));
    assert_eq!(callback_listener("foo://exa<mple/cb"), Err(UrlError::InvalidDomainCharacter));
    assert_eq!(callback_listener("http://xn--a.com/cb"), Err(UrlError::IdnaError));
}

#[test]
fn listen_address_is_loopback_with_port() {
    assert_eq!(listen_address(8080), "127.0.0.1:8080");
    assert_eq!(listen_address(0), "127.0.0.1:0");
    assert_eq!(listen_address(65535), "127.0.0.1:65535");
}

#[test]
fn port_or_default_falls_back_to_8080() {
    assert_eq!(port_or_default(Some(3000)), 3000);
    assert_eq!(port_or_default(Some(0)), 0);
    assert_eq!(port_or_default(None), 8080);
}

#[test]
fn pkce_verifier_length_follows_the_seed_length() {
    for n in 0..10usize {
        let seed: Vec<u8> = (0..n as u8).map(|b| b.wrapping_mul(37)).collect();
        let (verifier, challenge) = pkce_pair(&seed);
        assert_eq!(verifier.len(), (4 * n + 2) / 3);
        assert_eq!(challenge.len(), 43);
    }
}

#[test]
fn pkce_pair_uses_the_whole_url_safe_alphabet() {
    let (verifier, _) = pkce_pair(&[
        0x00, 0x10, 0x83, 0x10, 0x51, 0x87, 0x20, 0x92, 0x8b, 0x30, 0xd3, 0x8f, 0x41, 0x14, 0x93, 0x51, 0x55, 0x97, 0x61, 0x96, 0x9b, 0x71, 0xd7, 0x9f, 0x82, 0x18, 0xa3, 0x92, 0x59, 0xa7, 0xa2, 0x9a, 0xab, 0xb2, 0xdb, 0xaf, 0xc3, 0x1c, 0xb3, 0xd3, 0x5d, 0xb7, 0xe3, 0x9e, 0xbb, 0xf3, 0xdf, 0xbf
    ]);
    assert_eq!(verifier, "ABCDEFGHIJKLMNOPQRSTUVWXYZabcdefghijklmnopqrstuvwxyz0123456789-_");
    let (verifier, _) = pkce_pair(&[0xff, 0xff, 0xff]);
    assert_eq!(verifier, "____");
    let (verifier, _) = pkce_pair(&[0xfb, 0xef]);
    assert_eq!(verifier, "--8");
}
