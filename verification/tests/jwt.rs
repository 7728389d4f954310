use user_auth::errors::UserError;
use user_auth::jwt::SecretKey;
use user_auth::jwt::UserToken;
use user_auth::jwt::TOKEN_TTL_SECONDS;

const ID: u128 = 0x936d_a01f_9abd_4d9d_80c7_02af_85c8_22a8;

fn key() -> SecretKey {
    SecretKey::new(b"0123456789abcdef".to_vec())
}

fn other_key() -> SecretKey {
    SecretKey::new(b"fedcba9876543210".to_vec())
}

fn email() -> String {
    "a@b.com".to_string()
}

fn replace_char(text: &str, at: usize, by: char) -> String {
    text.chars().enumerate().map(|(i, c)| if i == at { by } else { c }).collect()
}

#[test]
fn ttl_is_one_minute() {
    assert_eq!(TOKEN_TTL_SECONDS, 60);
}

#[test]
fn issued_claims_hold_identity_and_window() {
    let claims = UserToken::issue(ID, &email(), 1_700_000_000).unwrap();
    assert_eq!(
        claims,
        UserToken { iat: 1_700_000_000, exp: 1_700_000_060, email: email(), id: ID }
    );
    assert!(claims.iat <= claims.exp);
}

#[test]
fn issue_refuses_an_expiry_that_does_not_fit() {
    assert_eq!(UserToken::issue(ID, &email(), i64::MAX), None);
    assert_eq!(UserToken::issue(ID, &email(), i64::MAX - 59), None);
    assert_eq!(
        UserToken::issue(ID, &email(), i64::MAX - 60).map(|claims| claims.exp),
        Some(i64::MAX)
    );
}

#[test]
fn token_has_three_parts_and_is_not_an_argument() {
    let token = UserToken::generate_token_at(ID, &email(), &key(), 1_700_000_000).unwrap();
    assert_eq!(token.split('.').count(), 3);
    assert_ne!(token, email());
    assert!(!token.contains(char::is_whitespace));
    assert!(!token.contains("a@b.com"));
}

#[test]
fn token_is_the_signed_json_of_the_claims() {
    let token = UserToken::generate_token_at(ID, &email(), &key(), 1_700_000_000).unwrap();
    let parts: Vec<&str> = token.split('.').collect();
    assert_eq!(parts[0], "eyJ0eXAiOiJKV1QiLCJhbGciOiJIUzI1NiJ9");
    let again = UserToken::generate_token_at(ID, &email(), &key(), 1_700_000_000).unwrap();
    assert_eq!(token, again);
    let other = UserToken::generate_token_at(ID, &email(), &other_key(), 1_700_000_000).unwrap();
    assert_ne!(token, other);
    assert_eq!(other.split('.').nth(1), Some(parts[1]));
}

#[test]
fn round_trip_strict() {
    let token = UserToken::generate_token_at(ID, &email(), &key(), 1_700_000_000).unwrap();
    let claims = UserToken::decode_token_at(&token, &key(), 1_700_000_030).unwrap();
    assert_eq!(claims.id, ID);
    assert_eq!(claims.email, "a@b.com");
    assert_eq!(claims.iat, 1_700_000_000);
    assert_eq!(claims.exp, 1_700_000_060);
    assert!(claims.iat <= claims.exp);
}

#[test]
fn round_trip_lenient() {
    let token = UserToken::generate_token_at(ID, &email(), &key(), 1_700_000_000).unwrap();
    assert_eq!(
        UserToken::verify_token(&token, &key()),
        Ok(UserToken { iat: 1_700_000_000, exp: 1_700_000_060, email: email(), id: ID })
    );
}

#[test]
fn round_trip_with_the_clock() {
    let token = UserToken::generate_token(ID, &email(), &key()).unwrap();
    let claims = UserToken::decode_token(&token, &key()).unwrap();
    assert_eq!(claims.id, ID);
    assert_eq!(claims.email, "a@b.com");
    assert_eq!(claims.exp, claims.iat + TOKEN_TTL_SECONDS);
    assert!(claims.iat > 1_600_000_000);
}

#[test]
fn round_trip_keeps_any_email_and_id() {
    let cases = [
        (0u128, String::new()),
        (u128::MAX, "quote\" back\\slash \n tab\t".to_string()),
        (1u128, "ünïcödé@例え.jp 😀".to_string()),
    ];
    for (id, email) in cases {
        let token = UserToken::generate_token_at(id, &email, &key(), 0).unwrap();
        assert_eq!(
            UserToken::decode_token_at(&token, &key(), 0),
            Ok(UserToken { iat: 0, exp: 60, email, id })
        );
    }
}

#[test]
fn strict_decode_accepts_up_to_the_expiry() {
    let token = UserToken::generate_token_at(ID, &email(), &key(), 1_700_000_000).unwrap();
    assert!(UserToken::decode_token_at(&token, &key(), 1_700_000_060).is_ok());
    assert!(UserToken::decode_token_at(&token, &key(), 1_699_999_000).is_ok());
    assert!(UserToken::decode_token_at(&token, &key(), i64::MIN).is_ok());
}

#[test]
fn expired_token_fails_strict_and_passes_lenient() {
    let token = UserToken::generate_token_at(ID, &email(), &key(), 1_700_000_000).unwrap();
    assert_eq!(
        UserToken::decode_token_at(&token, &key(), 1_700_000_061),
        Err(UserError::Unauthorized)
    );
    assert_eq!(UserToken::decode_token_at(&token, &key(), i64::MAX), Err(UserError::Unauthorized));
    assert_eq!(
        UserToken::verify_token(&token, &key()).map(|claims| claims.exp),
        Ok(1_700_000_060)
    );
}

#[test]
fn old_token_fails_strict_with_the_clock_and_passes_lenient() {
    let token = UserToken::generate_token_at(ID, &email(), &key(), 1_000_000_000).unwrap();
    assert_eq!(UserToken::decode_token(&token, &key()), Err(UserError::Unauthorized));
    assert!(UserToken::verify_token(&token, &key()).is_ok());
}

#[test]
fn tampered_token_fails_both_ways() {
    let token = UserToken::generate_token_at(ID, &email(), &key(), 1_700_000_000).unwrap();
    let length = token.chars().count();
    for at in 0..length {
        let old = token.chars().nth(at).unwrap();
        let by = if old == 'A' { 'B' } else { 'A' };
        let forged = replace_char(&token, at, by);
        assert_ne!(forged, token);
        assert_eq!(
            UserToken::decode_token_at(&forged, &key(), 1_700_000_000),
            Err(UserError::Unauthorized)
        );
        assert_eq!(UserToken::verify_token(&forged, &key()), Err(UserError::Unauthorized));
    }
}

#[test]
fn token_under_another_key_fails_both_ways() {
    let token = UserToken::generate_token_at(ID, &email(), &key(), 1_700_000_000).unwrap();
    assert_eq!(
        UserToken::decode_token_at(&token, &other_key(), 1_700_000_000),
        Err(UserError::Unauthorized)
    );
    assert_eq!(UserToken::verify_token(&token, &other_key()), Err(UserError::Unauthorized));
}

#[test]
fn text_that_is_no_token_fails_both_ways() {
    for text in ["", "abc123", "a.b.c", "..", "a.jwt.token"] {
        let text = text.to_string();
        assert_eq!(UserToken::decode_token_at(&text, &key(), 0), Err(UserError::Unauthorized));
        assert_eq!(UserToken::verify_token(&text, &key()), Err(UserError::Unauthorized));
    }
}

fn sign_members(members: Vec<(&str, serde_json::Value)>, secret: &[u8]) -> String {
    let mut claims = serde_json::Map::new();
    for (name, value) in members {
        claims.insert(name.to_string(), value);
    }
    jsonwebtoken::encode(
        &jsonwebtoken::Header::default(),
        &claims,
        &jsonwebtoken::EncodingKey::from_secret(secret),
    )
    .unwrap()
}

fn text(value: &str) -> serde_json::Value {
    serde_json::Value::from(value)
}

fn number(value: i64) -> serde_json::Value {
    serde_json::Value::from(value)
}

const ID_TEXT: &str = "936da01f-9abd-4d9d-80c7-02af85c822a8";

#[test]
fn token_signed_elsewhere_with_all_claims_is_accepted() {
    let token = sign_members(
        vec![
            ("iat", number(10)),
            ("exp", number(70)),
            ("email", text("a@b.com")),
            ("id", text(ID_TEXT)),
            ("role", text("admin")),
        ],
        b"0123456789abcdef",
    );
    assert_eq!(
        UserToken::verify_token(&token, &key()),
        Ok(UserToken { iat: 10, exp: 70, email: email(), id: ID })
    );
    assert_eq!(
        UserToken::decode_token_at(&token, &key(), 70),
        Ok(UserToken { iat: 10, exp: 70, email: email(), id: ID })
    );
    assert_eq!(UserToken::decode_token_at(&token, &key(), 71), Err(UserError::Unauthorized));
}

#[test]
fn id_is_read_in_each_form_of_a_uuid() {
    for form in [
        "936da01f-9abd-4d9d-80c7-02af85c822a8",
        "936DA01F-9ABD-4D9D-80C7-02AF85C822A8",
        "936da01f9abd4d9d80c702af85c822a8",
        "urn:uuid:936da01f-9abd-4d9d-80c7-02af85c822a8",
    ] {
        let token = sign_members(
            vec![
                ("iat", number(10)),
                ("exp", number(70)),
                ("email", text("a@b.com")),
                ("id", text(form)),
            ],
            b"0123456789abcdef",
        );
        assert_eq!(UserToken::verify_token(&token, &key()).map(|claims| claims.id), Ok(ID));
    }
}

#[test]
fn token_without_all_claims_is_unauthorized() {
    let all = vec![
        ("iat", number(10)),
        ("exp", number(70)),
        ("email", text("a@b.com")),
        ("id", text(ID_TEXT)),
    ];
    for missing in 0..all.len() {
        let mut members = all.clone();
        members.remove(missing);
        let token = sign_members(members, b"0123456789abcdef");
        assert_eq!(UserToken::verify_token(&token, &key()), Err(UserError::Unauthorized));
        assert_eq!(UserToken::decode_token_at(&token, &key(), 0), Err(UserError::Unauthorized));
    }
}

#[test]
fn token_with_a_claim_of_another_type_is_unauthorized() {
    let cases = vec![
        vec![("iat", text("10")), ("exp", number(70)), ("email", text("a@b.com")), ("id", text(ID_TEXT))],
        vec![("iat", number(10)), ("exp", number(70)), ("email", number(1)), ("id", text(ID_TEXT))],
        vec![("iat", number(10)), ("exp", number(70)), ("email", text("a@b.com")), ("id", number(7))],
        vec![("iat", number(10)), ("exp", number(70)), ("email", text("a@b.com")), ("id", text("no-uuid"))],
        vec![
            ("iat", number(10)),
            ("exp", number(70)),
            ("email", text("a@b.com")),
            ("id", text("936da01f-9abd-4d9d-80c7-02af85c822a")),
        ],
    ];
    for members in cases {
        let token = sign_members(members, b"0123456789abcdef");
        assert_eq!(UserToken::verify_token(&token, &key()), Err(UserError::Unauthorized));
    }
}

#[test]
fn token_issued_before_the_epoch_is_signed_but_never_accepted() {
    let token = UserToken::generate_token_at(ID, &email(), &key(), -100).unwrap();
    assert_eq!(UserToken::verify_token(&token, &key()), Err(UserError::Unauthorized));
    assert_eq!(UserToken::decode_token_at(&token, &key(), -100), Err(UserError::Unauthorized));
    let token = UserToken::generate_token_at(ID, &email(), &key(), -60).unwrap();
    assert_eq!(
        UserToken::verify_token(&token, &key()),
        Ok(UserToken { iat: -60, exp: 0, email: email(), id: ID })
    );
}

#[test]
fn generate_fails_where_the_expiry_does_not_fit() {
    assert_eq!(
        UserToken::generate_token_at(ID, &email(), &key(), i64::MAX),
        Err(UserError::InternalError)
    );
}

#[test]
fn empty_key_signs_and_checks() {
    let empty = SecretKey::new(Vec::new());
    let token = UserToken::generate_token_at(ID, &email(), &empty, 5).unwrap();
    assert!(UserToken::verify_token(&token, &empty).is_ok());
    assert_eq!(UserToken::verify_token(&token, &key()), Err(UserError::Unauthorized));
}

#[test]
fn key_gives_back_its_bytes() {
    assert_eq!(key().as_bytes(), b"0123456789abcdef");
    assert_eq!(key().clone().as_bytes(), b"0123456789abcdef");
}

#[test]
fn claims_of_a_request_are_decoded_leniently() {
    let token = UserToken::generate_token_at(ID, &email(), &key(), 1_000_000_000).unwrap();
    let header = format!("Bearer {}", token);
    assert_eq!(
        UserToken::from_request(Some(&header), &key()),
        Ok(UserToken { iat: 1_000_000_000, exp: 1_000_000_060, email: email(), id: ID })
    );
    assert_eq!(UserToken::from_request(None, &key()), Err(UserError::Unauthorized));
    assert_eq!(UserToken::from_request(Some(&token), &key()), Err(UserError::Unauthorized));
    assert_eq!(
        UserToken::from_request(Some(&header), &other_key()),
        Err(UserError::Unauthorized)
    );
}

#[test]
fn clone_of_claims_is_equal() {
    let claims = UserToken { iat: 1, exp: 61, email: email(), id: ID };
    assert_eq!(claims.clone(), claims);
}

#[test]
fn token_is_one_word_and_comes_back_out_of_its_header() {
    for now in [0, 1_700_000_000, -100, i64::MAX - 60] {
        let token = UserToken::generate_token_at(ID, &email(), &key(), now).unwrap();
        assert!(!token.is_empty());
        assert!(!token.contains(char::is_whitespace));
        assert!(token.chars().all(|c| c.is_ascii_alphanumeric() || "-_.".contains(c)));
        let header = format!("Bearer {}", token);
        assert_eq!(UserToken::parse_jwt_from_request(Some(&header)), Ok(token));
    }
}

#[test]
fn generate_with_the_clock_succeeds_and_comes_back_out_of_its_header() {
    let token = UserToken::generate_token(ID, &email(), &key()).unwrap();
    let header = format!("Bearer {}", token);
    assert_eq!(UserToken::parse_jwt_from_request(Some(&header)), Ok(token.clone()));
    let claims = UserToken::from_request(Some(&header), &key()).unwrap();
    assert_eq!(claims.id, ID);
    assert!(0 <= claims.iat && claims.iat <= user_auth::clock::LAST_CLOCK_SECOND);
    assert!(claims.iat <= claims.exp);
}

#[test]
fn last_clock_second_is_the_last_that_chrono_holds() {
    assert_eq!(
        user_auth::clock::LAST_CLOCK_SECOND,
        chrono::DateTime::<chrono::Utc>::MAX_UTC.timestamp()
    );
    assert_eq!(user_auth::clock::LAST_CLOCK_SECOND, 8_210_266_876_799);
    assert!(chrono::DateTime::from_timestamp(user_auth::clock::LAST_CLOCK_SECOND + 1, 0).is_none());
}

#[test]
fn accepted_token_is_one_word() {
    let token = UserToken::generate_token_at(ID, &email(), &key(), 1_700_000_000).unwrap();
    for padded in [format!(" {}", token), format!("{} ", token), format!("{}\n", token)] {
        assert_eq!(UserToken::verify_token(&padded, &key()), Err(UserError::Unauthorized));
    }
}
