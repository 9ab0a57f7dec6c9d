use aruaru_pro::auth::{
    bearer_token, credential_from_headers, now_unix, read_session_cookie, registration_id, require_name_matches,
    require_role, session_cookie, session_is_expired, unix_seconds_of, validate_register, AuthUser, Credential,
    RegisterRequest, ROLES, SESSION_COOKIE_NAME, SESSION_MAX_AGE_SECONDS,
};

#[test]
fn validate_register_rejects_empty_name() {
    let body = RegisterRequest { name: "  ".to_string(), role: "seller".to_string() };
    assert!(validate_register(&body).is_some());
}

#[test]
fn validate_register_rejects_unknown_role() {
    let body = RegisterRequest { name: "山田太郎".to_string(), role: "admin".to_string() };
    assert!(validate_register(&body).is_some());
}

#[test]
fn validate_register_accepts_every_known_role() {
    for role in ROLES {
        let body = RegisterRequest { name: "山田太郎".to_string(), role: role.to_string() };
        assert!(validate_register(&body).is_none(), "role {role} must be accepted");
    }
}

#[test]
fn require_role_rejects_mismatched_role() {
    let user = AuthUser { name: "山田太郎".to_string(), role: "buyer".to_string() };
    assert!(require_role(&user, "seller").is_some());
}

#[test]
fn require_role_accepts_matching_role() {
    let user = AuthUser { name: "山田太郎".to_string(), role: "seller".to_string() };
    assert!(require_role(&user, "seller").is_none());
}

#[test]
fn require_name_matches_rejects_impersonation() {
    let user = AuthUser { name: "山田太郎".to_string(), role: "seller".to_string() };
    assert!(require_name_matches(&user, "seller_name", "鈴木一郎").is_some());
}

#[test]
fn require_name_matches_accepts_own_name() {
    let user = AuthUser { name: "山田太郎".to_string(), role: "seller".to_string() };
    assert!(require_name_matches(&user, "seller_name", "山田太郎").is_none());
}

#[test]
fn session_cookie_name_and_max_age_are_sane() {
    assert!(!SESSION_COOKIE_NAME.is_empty());
    assert!(SESSION_MAX_AGE_SECONDS > 0);
}

#[test]
fn now_unix_is_monotonically_reasonable() {
    let a = now_unix();
    let b = now_unix();
    assert!(b >= a);
    assert!(a > 0);
}

#[test]
fn register_refusals_carry_status_and_message() {
    let blank = validate_register(&RegisterRequest { name: "\u{3000}\t".to_string(), role: "seller".to_string() })
        .unwrap();
    assert_eq!(blank.status, 422);
    assert_eq!(blank.message, "field \"name\" must not be empty");
    let role = validate_register(&RegisterRequest { name: "山田太郎".to_string(), role: "admin".to_string() })
        .unwrap();
    assert_eq!(role.status, 422);
    assert_eq!(
        role.message,
        format!("unknown role: \"admin\" (expected one of {:?})", ["seller", "buyer", "job_seeker", "recruiter"])
    );
}

#[test]
fn role_and_name_refusals_are_forbidden_with_their_messages() {
    let user = AuthUser { name: "山田太郎".to_string(), role: "buyer".to_string() };
    let r = require_role(&user, "seller").unwrap();
    assert_eq!(r.status, 403);
    assert_eq!(r.message, "this action requires role \"seller\", but the authenticated user has role \"buyer\"");
    let n = require_name_matches(&user, "buyer_name", "鈴木一郎").unwrap();
    assert_eq!(n.status, 403);
    assert_eq!(n.message, "field \"buyer_name\" must match the authenticated user's own name");
}

#[test]
fn session_cookie_text_is_exact() {
    assert_eq!(
        session_cookie("abc123"),
        "aruaru_session=abc123; Path=/; HttpOnly; SameSite=Lax; Max-Age=2592000"
    );
}

#[test]
fn session_cookie_is_found_among_other_cookies() {
    assert_eq!(read_session_cookie("theme=dark;  aruaru_session=s1 ; x=1"), Some("s1".to_string()));
    assert_eq!(read_session_cookie("aruaru_session=first; aruaru_session=second"), Some("first".to_string()));
    assert_eq!(read_session_cookie("theme=dark"), None);
    assert_eq!(read_session_cookie(""), None);
    assert_eq!(read_session_cookie("aruaru_session="), Some(String::new()));
    assert_eq!(read_session_cookie("xaruaru_session=s1"), None);
}

#[test]
fn bearer_token_needs_the_exact_scheme() {
    assert_eq!(bearer_token("Bearer tok"), Some("tok".to_string()));
    assert_eq!(bearer_token("bearer tok"), None);
    assert_eq!(bearer_token("Bearer"), None);
}

#[test]
fn bearer_header_wins_over_session_cookie() {
    match credential_from_headers(Some("Bearer t1"), Some("aruaru_session=s1")) {
        Credential::Bearer(t) => assert_eq!(t, "t1"),
        other => panic!("unexpected {other:?}"),
    }
    match credential_from_headers(Some("Basic xyz"), Some("aruaru_session=s1")) {
        Credential::Session(s) => assert_eq!(s, "s1"),
        other => panic!("unexpected {other:?}"),
    }
    assert!(matches!(credential_from_headers(None, Some("a=b")), Credential::Missing));
    assert!(matches!(credential_from_headers(None, None), Credential::Missing));
}

#[test]
fn sessions_expire_after_thirty_days() {
    let created = 1_000_000;
    assert!(!session_is_expired(created + SESSION_MAX_AGE_SECONDS, created));
    assert!(session_is_expired(created + SESSION_MAX_AGE_SECONDS + 1, created));
}

#[test]
fn clock_before_the_epoch_counts_as_zero() {
    assert_eq!(unix_seconds_of(None), 0);
    assert_eq!(unix_seconds_of(Some(42)), 42);
    assert_eq!(unix_seconds_of(Some(u64::MAX)), -1);
}

#[test]
fn registration_id_uses_name_and_role() {
    let body = RegisterRequest { name: "Taro".to_string(), role: "seller".to_string() };
    assert!(registration_id(&body).starts_with("taro--seller-"));
    let jp = RegisterRequest { name: "山田太郎".to_string(), role: "買い手".to_string() };
    assert!(registration_id(&jp).starts_with("user-"));
}
