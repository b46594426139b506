use capability_auth::auth::{AuthError, AuthToken};
use capability_auth::generator::{generate, token_from_draw};

#[test]
fn a_draw_becomes_a_token() {
    assert_eq!(token_from_draw(Some([5u8; 32])).map(|t| t.0), Ok([5u8; 32]));
}

#[test]
fn a_failed_draw_is_an_entropy_failure() {
    assert_eq!(token_from_draw(None).map(|t| t.0), Err(AuthError::EntropySourceFailure));
}

#[test]
fn generated_tokens_do_not_repeat() {
    let mut seen: Vec<[u8; 32]> = Vec::new();
    for _ in 0..64 {
        let token: AuthToken = match generate() {
            Ok(token) => token,
            Err(e) => panic!("{:?}", e),
        };
        assert!(!seen.contains(&token.0));
        seen.push(token.0);
    }
}

#[test]
fn generated_tokens_are_not_blank() {
    for _ in 0..8 {
        match generate() {
            Ok(token) => assert_ne!(token.0, [0u8; 32]),
            Err(e) => panic!("{:?}", e),
        }
    }
}
