use user_accounts::credential::{hash_password, verify_password, CredentialError, HASH_LEN};

#[test]
fn hash_verifies_against_its_password() {
    let hash = hash_password("hunter2").unwrap();
    assert_eq!(verify_password("hunter2", &hash), Ok(true));
    assert_eq!(verify_password("hunter3", &hash), Ok(false));
}

#[test]
fn hash_is_not_the_password_and_has_the_fixed_length() {
    let hash = hash_password("hunter2").unwrap();
    assert_ne!(hash, "hunter2");
    assert_eq!(hash.chars().count(), HASH_LEN);
    assert!(hash.starts_with("$2b$12$"));
}

#[test]
fn hash_agrees_with_bcrypt() {
    let hash = hash_password("correct horse").unwrap();
    assert!(bcrypt::verify("correct horse", &hash).unwrap());
}

#[test]
fn known_hash_accepts_its_password() {
    let hash = "$2b$04$EGdrhbKUv8Oc9vGiXX0HQOxSg445d458Muh7DAHskb6QbtCvdxcie";
    assert_eq!(verify_password("correctbatteryhorsestapler", hash), Ok(true));
}

#[test]
fn known_hash_refuses_another_password() {
    let hash = "$2b$04$EGdrhbKUv8Oc9vGiXX0HQOxSg445d458Muh7DAHskb6QbtCvdxcie";
    assert_eq!(verify_password("wrong", hash), Ok(false));
}

#[test]
fn malformed_hash_is_an_error_not_a_mismatch() {
    assert_eq!(verify_password("secret", "secret"), Err(CredentialError::Verification));
    assert_eq!(verify_password("secret", ""), Err(CredentialError::Verification));
    assert_eq!(
        verify_password("secret", "$2b$04$tooshort"),
        Err(CredentialError::Verification)
    );
}

#[test]
fn hash_with_a_cost_out_of_range_is_an_error() {
    let hash = "$2b$99$EGdrhbKUv8Oc9vGiXX0HQOxSg445d458Muh7DAHskb6QbtCvdxcie";
    assert_eq!(verify_password("secret", hash), Err(CredentialError::Verification));
}
