use user_auth::bearer::extract_bearer;
use user_auth::bearer::is_whitespace;
use user_auth::bearer::to_ascii_lower;
use user_auth::errors::UserError;
use user_auth::jwt::UserToken;

#[test]
fn bearer_with_capital_gives_token() {
    assert_eq!(extract_bearer("Bearer abc123"), Some("abc123".to_string()));
}

#[test]
fn bearer_in_small_letters_gives_token() {
    assert_eq!(extract_bearer("bearer abc123"), Some("abc123".to_string()));
}

#[test]
fn bearer_in_any_case_gives_token() {
    assert_eq!(extract_bearer("BEARER abc123"), Some("abc123".to_string()));
    assert_eq!(extract_bearer("bEaReR abc123"), Some("abc123".to_string()));
}

#[test]
fn basic_scheme_is_refused() {
    assert_eq!(extract_bearer("Basic abc123"), None);
}

#[test]
fn bearer_alone_is_refused() {
    assert_eq!(extract_bearer("Bearer"), None);
    assert_eq!(extract_bearer("Bearer "), None);
}

#[test]
fn empty_and_blank_headers_are_refused() {
    assert_eq!(extract_bearer(""), None);
    assert_eq!(extract_bearer("   "), None);
}

#[test]
fn three_words_are_refused() {
    assert_eq!(extract_bearer("Bearer abc 123"), None);
}

#[test]
fn scheme_must_be_a_whole_word() {
    assert_eq!(extract_bearer("Bearerx abc123"), None);
    assert_eq!(extract_bearer("Bearerabc123"), None);
    assert_eq!(extract_bearer("Beare abc123"), None);
    assert_eq!(extract_bearer("xBearer abc123"), None);
}

#[test]
fn white_space_around_the_words_is_skipped() {
    assert_eq!(extract_bearer("  Bearer \t abc123  "), Some("abc123".to_string()));
    assert_eq!(extract_bearer("Bearer\u{a0}abc123"), Some("abc123".to_string()));
    assert_eq!(extract_bearer("Bearer\u{3000}abc123\u{2028}"), Some("abc123".to_string()));
}

#[test]
fn token_keeps_its_characters() {
    assert_eq!(extract_bearer("Bearer a.b-c_d=é"), Some("a.b-c_d=é".to_string()));
}

#[test]
fn words_are_those_of_split_whitespace() {
    let headers = [
        "Bearer abc123",
        " bearer\tx ",
        "Bearer",
        "",
        "a b c",
        "bearer \u{85}\u{1680}tok\u{2000}\u{200a}\u{202f}\u{205f}",
        "bearer\u{200b}tok",
        "bearer\u{180e}tok y",
    ];
    for header in headers {
        let words: Vec<&str> = header.split_whitespace().collect();
        let expected = if words.len() == 2 && words[0].eq_ignore_ascii_case("bearer") {
            Some(words[1].to_string())
        } else {
            None
        };
        assert_eq!(extract_bearer(header), expected);
    }
}

#[test]
fn white_space_is_what_std_calls_white_space() {
    let mut code: u32 = 0;
    while code <= 0x10FFFF {
        if let Some(c) = char::from_u32(code) {
            assert_eq!(is_whitespace(c), c.is_whitespace());
        }
        code += 1;
    }
}

#[test]
fn lower_case_is_what_std_calls_ascii_lower_case() {
    let mut code: u32 = 0;
    while code <= 0x10FFFF {
        if let Some(c) = char::from_u32(code) {
            assert_eq!(to_ascii_lower(c), c.to_ascii_lowercase());
        }
        code += 1;
    }
}

#[test]
fn request_without_header_is_unauthorized() {
    assert_eq!(UserToken::parse_jwt_from_request(None), Err(UserError::Unauthorized));
}

#[test]
fn request_with_bearer_header_gives_token() {
    assert_eq!(
        UserToken::parse_jwt_from_request(Some("Bearer abc123")),
        Ok("abc123".to_string())
    );
    assert_eq!(
        UserToken::parse_jwt_from_request(Some("bearer abc123")),
        Ok("abc123".to_string())
    );
}

#[test]
fn request_with_other_header_is_unauthorized() {
    assert_eq!(
        UserToken::parse_jwt_from_request(Some("Basic abc123")),
        Err(UserError::Unauthorized)
    );
    assert_eq!(UserToken::parse_jwt_from_request(Some("Bearer")), Err(UserError::Unauthorized));
}
