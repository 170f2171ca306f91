use auth_core::{
    authenticate, claims_to_json, decimal_of, finish_login, finish_registration, hash_password,
    inserted_user, is_well_formed_email, issue_token_at, json_string_of, login_user,
    prepare_registration, register_user, session_claims, sign_in_user, sign_up_user,
    verify_password, AuthError, CreateUser, Insertion, LoginUser, Lookup, MemoryStore, Timestamp,
    TokenIssuer, User, UserResponse, TOKEN_TTL_SECS,
};

const SECRET: &[u8] = b"a-test-signing-secret";

fn issuer() -> TokenIssuer {
    TokenIssuer::new(SECRET.to_vec()).unwrap()
}

fn at(secs: i64) -> Timestamp {
    Timestamp { secs, nanos: 0 }
}

fn sample_user(id: i32, email: &str) -> User {
    User {
        id,
        name: "Ada".to_string(),
        email: email.to_string(),
        password_hash: "not-a-hash".to_string(),
        created_at: at(1_700_000_000),
        updated_at: None,
    }
}

fn decode_claims(token: &str) -> serde_json::Value {
    let key = jsonwebtoken::DecodingKey::from_secret(SECRET);
    let mut validation = jsonwebtoken::Validation::new(jsonwebtoken::Algorithm::HS256);
    validation.validate_exp = false;
    jsonwebtoken::decode::<serde_json::Value>(token, &key, &validation).unwrap().claims
}

#[test]
fn decimal_text_of_integers() {
    assert_eq!(decimal_of(0), "0");
    assert_eq!(decimal_of(42), "42");
    assert_eq!(decimal_of(-7), "-7");
    assert_eq!(decimal_of(i32::MAX), "2147483647");
    assert_eq!(decimal_of(i32::MIN), "-2147483648");
}

#[test]
fn json_strings_are_escaped() {
    assert_eq!(json_string_of(""), "\"\"");
    assert_eq!(json_string_of("a\"b\\c\nd"), "\"a\\\"b\\\\c\\nd\"");
    assert_eq!(json_string_of("é\u{1f}"), "\"é\\u001f\"");
}

#[test]
fn claims_render_as_json_object() {
    let c = session_claims(&sample_user(5, "ada@x.com"), 1000).unwrap();
    assert_eq!(
        claims_to_json(&c),
        "{\"sub\":\"5\",\"exp\":173800,\"iat\":1000,\"email\":\"ada@x.com\"}"
    );
}

#[test]
fn session_claims_span_the_fixed_lifetime() {
    let c = session_claims(&sample_user(-3, "a@b"), 1_700_000_000).unwrap();
    assert_eq!(c.sub, "-3");
    assert_eq!(c.iat, 1_700_000_000);
    assert_eq!(c.exp - c.iat, 48 * 3600);
    assert_eq!(TOKEN_TTL_SECS, 172800);
    assert_eq!(c.email, "a@b");
}

#[test]
fn session_claims_refuse_times_before_the_epoch() {
    assert!(session_claims(&sample_user(1, "a@b"), -1).is_none());
    assert!(matches!(
        issue_token_at(&issuer(), &sample_user(1, "a@b"), -1),
        Err(AuthError::TokenGenerationFailure)
    ));
}

#[test]
fn empty_secret_is_refused() {
    assert!(TokenIssuer::new(Vec::new()).is_none());
    assert!(TokenIssuer::new(b"k".to_vec()).is_some());
}

#[test]
fn issued_token_decodes_to_its_claims() {
    let now = 1_700_000_000;
    let token = issue_token_at(&issuer(), &sample_user(7, "ada@x.com"), now).unwrap();
    assert_eq!(token.split('.').count(), 3);
    let claims = decode_claims(&token);
    let exp = claims["exp"].as_i64().unwrap();
    let iat = claims["iat"].as_i64().unwrap();
    assert_eq!(iat, now);
    assert_eq!(exp - iat, 172800);
    assert_eq!(claims["sub"].as_str().unwrap(), "7");
    assert_eq!(claims["email"].as_str().unwrap(), "ada@x.com");
}

#[test]
fn token_with_escaped_email_decodes() {
    let token = issue_token_at(&issuer(), &sample_user(1, "we\"ird\\@x"), 10).unwrap();
    let claims = decode_claims(&token);
    assert_eq!(claims["email"].as_str().unwrap(), "we\"ird\\@x");
}

#[test]
fn token_signed_with_another_secret_is_rejected() {
    let token = issue_token_at(&issuer(), &sample_user(1, "a@b"), 10).unwrap();
    let key = jsonwebtoken::DecodingKey::from_secret(b"another-secret");
    let mut validation = jsonwebtoken::Validation::new(jsonwebtoken::Algorithm::HS256);
    validation.validate_exp = false;
    assert!(jsonwebtoken::decode::<serde_json::Value>(&token, &key, &validation).is_err());
}

#[test]
fn hashing_twice_gives_two_hashes_that_both_verify() {
    let a = hash_password("s3cret").unwrap();
    let b = hash_password("s3cret").unwrap();
    assert_ne!(a, b);
    assert_ne!(a, "s3cret");
    assert_eq!(verify_password("s3cret", &a), Ok(true));
    assert_eq!(verify_password("s3cret", &b), Ok(true));
}

#[test]
fn other_password_does_not_verify() {
    let h = hash_password("p2").unwrap();
    assert_eq!(verify_password("p1", &h), Ok(false));
    assert_eq!(verify_password("", &h), Ok(false));
}

#[test]
fn malformed_hash_is_a_hashing_failure() {
    assert_eq!(verify_password("p", "not-a-hash"), Err(AuthError::HashingFailure));
}

#[test]
fn failures_map_to_status_and_generic_message() {
    assert_eq!(AuthError::DuplicateEmail.status(), 400);
    assert_eq!(AuthError::DuplicateEmail.message(), "user already exists");
    assert_eq!(AuthError::InvalidCredentials.status(), 401);
    assert_eq!(AuthError::InvalidCredentials.message(), "invalid credentials");
    for e in [AuthError::HashingFailure, AuthError::TokenGenerationFailure, AuthError::StorageFailure] {
        assert_eq!(e.status(), 500);
        assert_eq!(e.to_response().error, "internal server error");
    }
}

#[test]
fn sanitized_view_keeps_identity_fields() {
    let v = UserResponse::from(sample_user(9, "ada@x.com"));
    assert_eq!(v.id, 9);
    assert_eq!(v.name, "Ada");
    assert_eq!(v.email, "ada@x.com");
    assert_eq!(v.created_at, at(1_700_000_000));
}

#[test]
fn registration_steps_classify_store_results() {
    let req = CreateUser::new("Ada".to_string(), "ada@x.com".to_string(), "pw".to_string());
    assert_eq!(prepare_registration(&req, Lookup::Failed), Err(AuthError::StorageFailure));
    assert_eq!(
        prepare_registration(&req, Lookup::Found(sample_user(1, "ada@x.com"))),
        Err(AuthError::DuplicateEmail)
    );
    let h = prepare_registration(&req, Lookup::Absent).unwrap();
    assert_eq!(verify_password("pw", &h), Ok(true));
    assert!(matches!(inserted_user(Insertion::Failed), Err(AuthError::StorageFailure)));
}

#[test]
fn concurrent_duplicate_insert_is_duplicate_email() {
    assert!(matches!(
        finish_registration(Insertion::Duplicate, &issuer(), 10),
        Err(AuthError::DuplicateEmail)
    ));
    let r = finish_registration(Insertion::Inserted(sample_user(4, "z@x")), &issuer(), 10).unwrap();
    assert_eq!(r.user.id, 4);
    assert_eq!(decode_claims(&r.token)["sub"].as_str().unwrap(), "4");
}

#[test]
fn login_steps_classify_store_results() {
    let req = LoginUser::new("ada@x.com".to_string(), "pw".to_string());
    assert!(matches!(finish_login(&req, Lookup::Failed, &issuer(), 10), Err(AuthError::StorageFailure)));
    assert!(matches!(finish_login(&req, Lookup::Absent, &issuer(), 10), Err(AuthError::InvalidCredentials)));
    assert!(matches!(
        authenticate(&req, Lookup::Found(sample_user(1, "ada@x.com"))),
        Err(AuthError::HashingFailure)
    ));
}

#[test]
fn store_rejects_a_second_insert_of_one_email() {
    let mut store = MemoryStore::new();
    let first = CreateUser::new("A".to_string(), "a@x".to_string(), "one".to_string());
    let second = CreateUser::new("B".to_string(), "a@x".to_string(), "two".to_string());
    let u = sign_up_user(&mut store, &first, at(1)).unwrap();
    assert_eq!(u.id, 1);
    assert_eq!(u.email, "a@x");
    assert_ne!(u.password_hash, "one");
    assert_eq!(u.password_hash.len(), 60);
    assert!(u.password_hash.starts_with("$2b$10$"));
    assert_eq!(u.updated_at, None);
    assert_eq!(sign_up_user(&mut store, &second, at(2)).unwrap_err(), AuthError::DuplicateEmail);
    assert_eq!(store.len(), 1);
}

#[test]
fn register_then_login_scenario() {
    let mut store = MemoryStore::new();
    let iss = issuer();
    let ada = CreateUser::new("Ada".to_string(), "ada@x.com".to_string(), "s3cret".to_string());
    let r = register_user(&mut store, &ada, &iss, at(1_700_000_000)).unwrap();
    assert_eq!(r.user.email, "ada@x.com");
    assert_eq!(r.user.name, "Ada");
    assert!(!r.token.is_empty());

    let again = CreateUser::new("Ada".to_string(), "ada@x.com".to_string(), "other".to_string());
    assert!(matches!(
        register_user(&mut store, &again, &iss, at(1_700_000_001)),
        Err(AuthError::DuplicateEmail)
    ));

    let good = LoginUser::new("ada@x.com".to_string(), "s3cret".to_string());
    let ok = sign_in_user(&store, &good, &iss, 1_700_000_100).unwrap();
    assert!(!ok.token.is_empty());
    assert_eq!(ok.user.email, "ada@x.com");
    assert_eq!(decode_claims(&ok.token)["sub"].as_str().unwrap(), r.user.id.to_string());

    let issued = decode_claims(&ok.token);
    assert_eq!(issued["iat"].as_i64().unwrap(), 1_700_000_100);
    assert_eq!(r.user.created_at, at(1_700_000_000));

    let wrong = LoginUser::new("ada@x.com".to_string(), "wrong".to_string());
    let e1 = sign_in_user(&store, &wrong, &iss, 1_700_000_100).err().unwrap();
    assert_eq!(e1, AuthError::InvalidCredentials);

    let nobody = LoginUser::new("nobody@x.com".to_string(), "x".to_string());
    let e2 = sign_in_user(&store, &nobody, &iss, 1_700_000_100).err().unwrap();
    assert_eq!(e2, AuthError::InvalidCredentials);
    assert_eq!(e1.status(), e2.status());
    assert_eq!(e1.to_response().error, e2.to_response().error);
}

#[test]
fn registration_requests_are_validated() {
    let ok = CreateUser::new("Ada".to_string(), "ada@x.com".to_string(), "s3cret".to_string());
    assert!(ok.is_valid());
    let no_name = CreateUser::new(String::new(), "ada@x.com".to_string(), "s3cret".to_string());
    assert!(!no_name.is_valid());
    let no_password = CreateUser::new("Ada".to_string(), "ada@x.com".to_string(), String::new());
    assert!(!no_password.is_valid());
    assert!(is_well_formed_email("a@b"));
    assert!(!is_well_formed_email(""));
    assert!(!is_well_formed_email("ada.x.com"));
    assert!(!is_well_formed_email("@x.com"));
    assert!(!is_well_formed_email("ada@"));
    assert!(!is_well_formed_email("a@b@c"));
}

#[test]
fn login_lookup_returns_the_stored_record() {
    let mut store = MemoryStore::new();
    let ada = CreateUser::new("Ada".to_string(), "ada@x.com".to_string(), "s3cret".to_string());
    let stored = sign_up_user(&mut store, &ada, at(5)).unwrap();
    let any_password = LoginUser::new("ada@x.com".to_string(), "wrong".to_string());
    let found = login_user(&store, &any_password).unwrap();
    assert_eq!(found.id, stored.id);
    assert_eq!(found.password_hash, stored.password_hash);
    let nobody = LoginUser::new("nobody@x.com".to_string(), "x".to_string());
    assert_eq!(login_user(&store, &nobody).unwrap_err(), AuthError::InvalidCredentials);
}

#[test]
fn racing_registrations_of_one_email_give_one_success() {
    let mut store = MemoryStore::new();
    let iss = issuer();
    let first = CreateUser::new("A".to_string(), "same@x.com".to_string(), "one".to_string());
    let second = CreateUser::new("B".to_string(), "same@x.com".to_string(), "two".to_string());
    // Both lookups run before either insert, as two concurrent requests may.
    let hash_a = prepare_registration(&first, store.find_by_email("same@x.com")).unwrap();
    let hash_b = prepare_registration(&second, store.find_by_email("same@x.com")).unwrap();
    let ins_a = store.insert_user(first.name.clone(), first.email.clone(), hash_a, at(1));
    let ins_b = store.insert_user(second.name.clone(), second.email.clone(), hash_b, at(1));
    let a = finish_registration(ins_a, &iss, 100);
    let b = finish_registration(ins_b, &iss, 100);
    assert!(a.is_ok());
    assert!(matches!(b, Err(AuthError::DuplicateEmail)));
    assert_eq!(store.len(), 1);
}

#[test]
fn signing_is_deterministic() {
    let u = sample_user(3, "a@b");
    let t1 = issue_token_at(&issuer(), &u, 500).unwrap();
    let t2 = issue_token_at(&issuer(), &u, 500).unwrap();
    assert_eq!(t1, t2);
    assert!(!t1.is_empty());
}
