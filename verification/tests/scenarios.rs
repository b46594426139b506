use capability_auth::auth::{AuthError, AuthToken, ResponseClass, UnvalidatedAuthToken};
use capability_auth::generator::generate;
use capability_auth::masking::{mask, ClientAddress, IdentityTag};
use capability_auth::service::{assemble_project, capability, get_sample, new_project, new_sample};
use capability_auth::tiers::{AdminSecret, Project};

const ADMIN_HEX: &str = "a1a2a3a4a5a6a7a8a9aaabacadaeafb0b1b2b3b4b5b6b7b8b9babbbcbdbebfc0";

fn admin_secret() -> AdminSecret {
    match AuthToken::from_hex(ADMIN_HEX.as_bytes()) {
        Ok(token) => AdminSecret(token),
        Err(e) => panic!("{:?}", e),
    }
}

fn bearer(hex: &str) -> UnvalidatedAuthToken {
    match UnvalidatedAuthToken::from_header(Some(format!("Bearer {}", hex).as_bytes())) {
        Ok(token) => token,
        Err(e) => panic!("{:?}", e),
    }
}

fn created_project() -> Project {
    match new_project(&bearer(ADMIN_HEX), &admin_secret()) {
        Ok(project) => project,
        Err(e) => panic!("{:?}", e),
    }
}

fn is_lower_hex(text: &str) -> bool {
    text.len() == 64 && text.bytes().all(|b| matches!(b, b'0'..=b'9' | b'a'..=b'f'))
}

#[test]
fn project_creation_with_the_admin_secret() {
    let project = created_project();
    let identifier = project.identifier.0.to_hex();
    let admin_key = project.admin_key.0.to_hex();
    assert!(is_lower_hex(&identifier));
    assert!(is_lower_hex(&admin_key));
    assert_ne!(identifier, admin_key);
    assert_ne!(identifier, ADMIN_HEX);
    assert_ne!(admin_key, ADMIN_HEX);
}

#[test]
fn project_creation_draws_anew_each_time() {
    let first = created_project();
    let second = created_project();
    assert_ne!(first.identifier.0 .0, second.identifier.0 .0);
    assert_ne!(first.admin_key.0 .0, second.admin_key.0 .0);
}

#[test]
fn project_creation_without_the_admin_secret() {
    let stranger = bearer(&"00".repeat(32));
    match new_project(&stranger, &admin_secret()) {
        Ok(_) => panic!("a stranger created a project"),
        Err(e) => {
            assert_eq!(e, AuthError::ValidationFailed);
            assert_eq!(e.response_class(), ResponseClass::Unauthorized);
        }
    }
}

#[test]
fn project_assembly_from_two_draws() {
    let assembled = assemble_project(Ok(AuthToken([1u8; 32])), Ok(AuthToken([2u8; 32])));
    match assembled {
        Ok(project) => {
            assert_eq!(project.identifier.0 .0, [1u8; 32]);
            assert_eq!(project.admin_key.0 .0, [2u8; 32]);
        }
        Err(e) => panic!("{:?}", e),
    }
}

#[test]
fn project_assembly_fails_with_either_draw() {
    let failed: Result<AuthToken, AuthError> = Err(AuthError::EntropySourceFailure);
    assert_eq!(
        assemble_project(failed, Ok(AuthToken([2u8; 32]))).err(),
        Some(AuthError::EntropySourceFailure)
    );
    let failed: Result<AuthToken, AuthError> = Err(AuthError::EntropySourceFailure);
    assert_eq!(
        assemble_project(Ok(AuthToken([1u8; 32])), failed).err(),
        Some(AuthError::EntropySourceFailure)
    );
}

#[test]
fn sample_creation_authorized() {
    let project = created_project();
    let token = bearer(&project.admin_key.0.to_hex());
    let stored = Some(project.admin_key.0 .0.to_vec());
    assert_eq!(new_sample(&token, stored), Ok(()));
}

#[test]
fn sample_creation_unauthorized() {
    let project = created_project();
    let unrelated = match generate() {
        Ok(token) => token,
        Err(e) => panic!("{:?}", e),
    };
    let token = bearer(&unrelated.to_hex());
    let stored = Some(project.admin_key.0 .0.to_vec());
    let outcome = new_sample(&token, stored);
    assert_eq!(outcome, Err(AuthError::ValidationFailed));
    assert_eq!(AuthError::ValidationFailed.response_class(), ResponseClass::Unauthorized);
}

#[test]
fn sample_creation_with_the_project_identifier_is_unauthorized() {
    let project = created_project();
    let token = bearer(&project.identifier.0.to_hex());
    let stored = Some(project.admin_key.0 .0.to_vec());
    assert_eq!(new_sample(&token, stored), Err(AuthError::ValidationFailed));
}

#[test]
fn sample_creation_for_an_unknown_project() {
    let token = bearer(&"11".repeat(32));
    assert_eq!(new_sample(&token, None), Err(AuthError::UnknownIdentifier));
    assert_eq!(AuthError::UnknownIdentifier.response_class(), ResponseClass::NotFound);
}

#[test]
fn sample_creation_with_a_stored_key_of_the_wrong_length() {
    let token = bearer(&"11".repeat(32));
    assert_eq!(new_sample(&token, Some(vec![0x11u8; 31])), Err(AuthError::UnknownIdentifier));
    assert_eq!(new_sample(&token, Some(Vec::new())), Err(AuthError::UnknownIdentifier));
    assert_eq!(new_sample(&token, Some(vec![0x11u8; 32])), Ok(()));
}

#[test]
fn capability_read_with_the_project_identifier() {
    let project = created_project();
    let token = bearer(&project.identifier.0.to_hex());
    // The token is the key under which the repository looks the project up.
    assert_eq!(token.as_project_id().0 .0, project.identifier.0 .0);
    assert_eq!(capability(true), Ok(()));
    assert_eq!(get_sample(true, Some("a sample")), Ok(Some("a sample")));
}

#[test]
fn capability_read_of_a_project_without_samples() {
    let nothing: Option<&str> = None;
    assert_eq!(get_sample(true, nothing), Ok(None));
}

#[test]
fn capability_read_of_an_unknown_project() {
    let nothing: Option<&str> = None;
    assert_eq!(get_sample(false, nothing), Err(AuthError::UnknownIdentifier));
    assert_eq!(get_sample(false, Some("a sample")), Err(AuthError::UnknownIdentifier));
    assert_eq!(capability(false), Err(AuthError::UnknownIdentifier));
    assert_eq!(AuthError::UnknownIdentifier.response_class(), ResponseClass::NotFound);
}

#[test]
fn rating_for_an_unknown_project() {
    assert_eq!(capability(false), Err(AuthError::UnknownIdentifier));
}

#[test]
fn rating_for_a_known_project() {
    assert_eq!(capability(true), Ok(()));
}

#[test]
fn identity_dedup() {
    let a = ClientAddress::V4([198, 51, 100, 7]);
    let b = ClientAddress::V6([0x20, 0x01, 0x0d, 0xb8, 0, 0, 0, 0, 0, 0, 0, 0, 0, 0, 0, 7]);
    let mut ratings: Vec<(IdentityTag, i64)> = Vec::new();
    assert_eq!(capability(true), Ok(()));
    ratings.push((mask(&admin_secret(), &a), 1));
    let mine = |address: &ClientAddress| -> Vec<i64> {
        let tag = mask(&admin_secret(), address);
        ratings.iter().filter(|(stored, _)| stored.0 == tag.0).map(|(_, r)| *r).collect()
    };
    assert_eq!(mine(&a), vec![1i64]);
    assert_eq!(mine(&b), Vec::<i64>::new());
}
