use cr8s::token::{mint_session_token, session_key, SESSION_TOKEN_LENGTH, SESSION_TTL_SECONDS};

#[test]
fn token_has_128_alphanumeric_characters() {
    for _ in 0..50 {
        let token = mint_session_token();
        assert_eq!(token.chars().count(), 128);
        assert_eq!(token.len(), 128);
        assert!(token.chars().all(|c| c.is_ascii_alphanumeric()), "token {:?}", token);
    }
}

#[test]
fn token_length_constant() {
    assert_eq!(SESSION_TOKEN_LENGTH, 128);
}

#[test]
fn tokens_differ() {
    let a = mint_session_token();
    let b = mint_session_token();
    let c = mint_session_token();
    assert_ne!(a, b);
    assert_ne!(a, c);
    assert_ne!(b, c);
}

#[test]
fn session_lives_three_hours() {
    assert_eq!(SESSION_TTL_SECONDS, 3 * 60 * 60);
    assert_eq!(SESSION_TTL_SECONDS, 10800);
}

#[test]
fn session_key_format() {
    assert_eq!(session_key("abc"), "sessions/abc");
    assert_eq!(session_key(""), "sessions/");
    let token = mint_session_token();
    assert_eq!(session_key(&token), format!("sessions/{}", token));
}
