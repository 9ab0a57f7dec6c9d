use aruaru_pro::oauth::{callback_step, CallbackAction, CallbackEvent};
use aruaru_pro::oauth::{
    authorize_url, base64url_encode, base64url_sha256, client_id_var, client_secret_var, decodes_without_panic,
    display_name, generate_pkce, oauth_user_id, pending_state_cutoff, pending_state_is_expired,
    provider_not_configured, public_base_url, query_param, redirect_uri, start_role, urlencoding_decode,
    urlencoding_encode, Provider, PENDING_STATE_MAX_AGE_SECONDS,
};
use sha2::{Digest, Sha256};

#[test]
fn provider_parse_recognizes_all_three() {
    assert_eq!(Provider::parse("google"), Some(Provider::Google));
    assert_eq!(Provider::parse("facebook"), Some(Provider::Facebook));
    assert_eq!(Provider::parse("x"), Some(Provider::X));
    assert_eq!(Provider::parse("unknown"), None);
}

#[test]
fn only_x_requires_pkce() {
    assert!(!Provider::Google.requires_pkce());
    assert!(!Provider::Facebook.requires_pkce());
    assert!(Provider::X.requires_pkce());
}

#[test]
fn urlencoding_round_trips_special_characters() {
    let original = "hello world&foo=bar+baz";
    let encoded = urlencoding_encode(original);
    assert!(!encoded.contains(' '));
    assert!(!encoded.contains('&'));
    assert_eq!(urlencoding_decode(&encoded), original);
}

#[test]
fn generate_pkce_produces_a_challenge_derived_from_the_verifier() {
    let (verifier, challenge) = generate_pkce().unwrap();
    assert!(!verifier.is_empty());
    assert_eq!(challenge, base64url_sha256(&verifier));
    assert_eq!(challenge.len(), 43);
    assert_eq!(verifier.len(), 64);
    let (verifier2, challenge2) = generate_pkce().unwrap();
    assert_ne!(verifier, verifier2);
    assert_ne!(challenge, challenge2);
}

#[test]
fn base64url_encode_matches_known_test_vector() {
    let digest = Sha256::digest(b"");
    let encoded = base64url_encode(&digest);
    assert_eq!(encoded, "47DEQpj8HBSa-_TImW-5JCeuQeRkm5NMpJWZG3hSuFU");
}

#[test]
fn base64url_handles_every_tail_length() {
    assert_eq!(base64url_encode(b""), "");
    assert_eq!(base64url_encode(b"f"), "Zg");
    assert_eq!(base64url_encode(b"fo"), "Zm8");
    assert_eq!(base64url_encode(b"foo"), "Zm9v");
    assert_eq!(base64url_encode(b"foob"), "Zm9vYg");
    assert_eq!(base64url_encode(&[0xfb, 0xff]), "-_8");
}

#[test]
fn parse_gives_back_each_providers_name() {
    for p in [Provider::Google, Provider::Facebook, Provider::X] {
        assert_eq!(Provider::parse(p.as_str()), Some(p));
    }
}

#[test]
fn encoding_keeps_unreserved_bytes_and_escapes_the_rest() {
    assert_eq!(urlencoding_encode("aZ09-_.~"), "aZ09-_.~");
    assert_eq!(urlencoding_encode("a b/+%"), "a%20b%2F%2B%25");
    assert_eq!(urlencoding_encode("日"), "%E6%97%A5");
    assert_eq!(urlencoding_decode("%E6%97%A5"), "日");
}

#[test]
fn decoding_follows_from_str_radix() {
    assert_eq!(urlencoding_decode("a+b"), "a b");
    assert_eq!(urlencoding_decode("%41%4a%zz"), "AJ%zz");
    assert_eq!(urlencoding_decode("%+5x"), "\u{5}x");
    assert_eq!(urlencoding_decode("%4"), "%4");
    assert_eq!(urlencoding_decode("%ff"), "");
}

#[test]
fn decoding_that_would_cut_a_character_is_detected() {
    assert!(decodes_without_panic("%41日"));
    assert!(decodes_without_panic("%ab日x"));
    assert!(!decodes_without_panic("%a日"));
    assert!(decodes_without_panic("abc"));
}

#[test]
fn query_values_are_found_and_decoded() {
    assert_eq!(query_param("role=seller&state=a%20b", "state"), Some("a b".to_string()));
    assert_eq!(query_param("role=seller&role=buyer", "role"), Some("seller".to_string()));
    assert_eq!(query_param("flag&x=1", "flag"), Some(String::new()));
    assert_eq!(query_param("a=b=c", "a"), Some("b=c".to_string()));
    assert_eq!(query_param("a=1", "b"), None);
    assert_eq!(query_param("", "a"), None);
    assert_eq!(query_param("", ""), Some(String::new()));
}

#[test]
fn sign_in_role_defaults_to_buyer() {
    assert_eq!(start_role(None).unwrap(), "buyer");
    assert_eq!(start_role(Some("recruiter".to_string())).unwrap(), "recruiter");
    let e = start_role(Some("admin".to_string())).unwrap_err();
    assert_eq!(e.status, 422);
}

#[test]
fn authorize_url_is_built_from_encoded_parts() {
    let url = authorize_url(Provider::Google, "id 1", "https://a.b/cb", "st", None);
    assert_eq!(
        url,
        "https://accounts.google.com/o/oauth2/v2/auth?client_id=id%201&redirect_uri=https%3A%2F%2Fa.b%2Fcb&response_type=code&scope=openid%20email%20profile&state=st"
    );
    let x = authorize_url(Provider::X, "c", "r", "s", Some("ch"));
    assert!(x.ends_with("&state=s&code_challenge=ch&code_challenge_method=S256"));
}

#[test]
fn redirect_and_configuration_texts() {
    assert_eq!(redirect_uri("https://aruaru.pro", Provider::X), "https://aruaru.pro/auth/oauth/x/callback");
    assert_eq!(public_base_url(None), "https://aruaru.pro");
    assert_eq!(public_base_url(Some("http://localhost".to_string())), "http://localhost");
    assert_eq!(client_id_var(Provider::Facebook), "FACEBOOK_CLIENT_ID");
    assert_eq!(client_secret_var(Provider::Google), "GOOGLE_CLIENT_SECRET");
    let e = provider_not_configured(Provider::X);
    assert_eq!(e.status, 500);
    assert_eq!(e.message, "X_CLIENT_ID/X_CLIENT_SECRET is not configured");
}

#[test]
fn pending_sign_ins_expire_after_fifteen_minutes() {
    assert!(!pending_state_is_expired(1000 + PENDING_STATE_MAX_AGE_SECONDS, 1000));
    assert!(pending_state_is_expired(1001 + PENDING_STATE_MAX_AGE_SECONDS, 1000));
    assert_eq!(pending_state_cutoff(10_000), 9_100);
}

#[test]
fn users_without_a_name_get_the_providers_default() {
    assert_eq!(display_name(Provider::Google, None), "Google User");
    assert_eq!(display_name(Provider::X, Some("Ann".to_string())), "Ann");
    assert!(oauth_user_id(Provider::Google, "12345").starts_with("google--12345-"));
}

#[test]
fn callback_refuses_in_order_and_passes_the_token_on() {
    match callback_step(CallbackEvent::QueryRead { code: None, state: Some("s".to_string()) }) {
        CallbackAction::Refuse(r) => assert_eq!((r.status, r.message.as_str()), (400, "missing code")),
        other => panic!("unexpected {other:?}"),
    }
    match callback_step(CallbackEvent::QueryRead { code: Some("c".to_string()), state: None }) {
        CallbackAction::Refuse(r) => assert_eq!((r.status, r.message.as_str()), (400, "missing state")),
        other => panic!("unexpected {other:?}"),
    }
    match callback_step(CallbackEvent::QueryRead { code: Some("c".to_string()), state: Some("s".to_string()) }) {
        CallbackAction::LookUpState { code, state } => assert_eq!((code.as_str(), state.as_str()), ("c", "s")),
        other => panic!("unexpected {other:?}"),
    }
    match callback_step(CallbackEvent::StateLooked { usable: false }) {
        CallbackAction::Refuse(r) => {
            assert_eq!(r.status, 400);
            assert_eq!(r.message, "unknown, expired, or already-used state (possible CSRF or replay)");
        }
        other => panic!("unexpected {other:?}"),
    }
    assert!(matches!(callback_step(CallbackEvent::StateLooked { usable: true }), CallbackAction::ExchangeCode));
    match callback_step(CallbackEvent::TokenExchanged(Ok("tok".to_string()))) {
        CallbackAction::FetchIdentity(t) => assert_eq!(t, "tok"),
        other => panic!("unexpected {other:?}"),
    }
    match callback_step(CallbackEvent::TokenExchanged(Err("token exchange returned 401".to_string()))) {
        CallbackAction::Refuse(r) => assert_eq!((r.status, r.message.as_str()), (502, "token exchange returned 401")),
        other => panic!("unexpected {other:?}"),
    }
    assert!(matches!(callback_step(CallbackEvent::IdentityFetched(Ok(()))), CallbackAction::StoreUser));
    assert_eq!(Provider::X.userinfo_endpoint(), "https://api.twitter.com/2/users/me");
    assert_eq!(Provider::Google.userinfo_endpoint(), "https://www.googleapis.com/oauth2/v3/userinfo");
    assert_eq!(Provider::Facebook.userinfo_endpoint(), "https://graph.facebook.com/me");
}
