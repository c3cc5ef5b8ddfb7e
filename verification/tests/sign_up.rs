use user_accounts::credential::{verify_password, CredentialError};
use user_accounts::handlers::{
    build_new_user, sign_up, sign_up_commit, sign_up_decide, sign_up_finish, sign_up_prepare,
    sign_up_with, Body, Response, SignUpStep,
};
use user_accounts::models::{NewUser, SignUpReq, Timestamp, User};
use user_accounts::repo::{get_user_by_username, list_users, RepoError, UserTable};

fn request(username: &str, password: &str) -> SignUpReq {
    SignUpReq {
        username: username.to_string(),
        email: format!("{}@example.com", username),
        password: password.to_string(),
        display_name: "Display".to_string(),
    }
}

fn hashed() -> Result<String, CredentialError> {
    Ok("hash".to_string())
}

fn unhashed() -> Result<String, CredentialError> {
    Err(CredentialError::Hashing)
}

fn at(micros: i64) -> Timestamp {
    Timestamp { micros }
}

fn message(status: u16, text: &str) -> Response {
    Response { status, body: Body::Message(text.to_string()) }
}

fn expected_account(username: &str, hash: &str, id: u128, micros: i64) -> NewUser {
    NewUser {
        id,
        username: username.to_string(),
        email: format!("{}@example.com", username),
        password_hash: hash.to_string(),
        display_name: "Display".to_string(),
        user_role: "user".to_string(),
        is_active: true,
        last_login: None,
        created_at: Timestamp { micros },
        updated_at: Timestamp { micros },
    }
}

#[test]
fn built_account_has_the_defaults_of_sign_up() {
    let built = build_new_user(&request("alice", "pw"), "hash".to_string(), 11, at(42));
    assert_eq!(built, expected_account("alice", "hash", 11, 42));
}

#[test]
fn decide_inserts_where_the_password_was_hashed() {
    let step = sign_up_decide(&request("alice", "pw"), hashed(), 11, at(42));
    assert_eq!(step, SignUpStep::Insert(expected_account("alice", "hash", 11, 42)));
}

#[test]
fn decide_fails_where_hashing_failed() {
    let step = sign_up_decide(&request("alice", "pw"), unhashed(), 11, at(42));
    assert_eq!(step, SignUpStep::Reject(message(500, "Internal server error")));
}

#[test]
fn finish_answers_the_outcome_of_the_insertion() {
    assert_eq!(sign_up_finish(Ok(())), message(200, "User created successfully"));
    assert_eq!(sign_up_finish(Err(RepoError::DuplicateKey)), message(500, "Internal server error"));
    assert_eq!(
        sign_up_finish(Err(RepoError::StoreUnavailable)),
        message(500, "Internal server error")
    );
    assert_eq!(sign_up_finish(Err(RepoError::QueryFailed)), message(500, "Internal server error"));
    assert_eq!(sign_up_finish(Err(RepoError::NotFound)), message(500, "Internal server error"));
}

#[test]
fn commit_of_a_rejection_leaves_the_table() {
    let mut table = UserTable::new();
    let step = SignUpStep::Reject(message(400, "Email cannot be empty"));
    let resp = sign_up_commit(&mut table, step);
    assert_eq!(resp, message(400, "Email cannot be empty"));
    assert_eq!(table.len(), 0);
}

#[test]
fn sign_up_with_given_values_stores_exactly_that_account() {
    let mut table = UserTable::new();
    let resp = sign_up_with(&mut table, &request("alice", "pw"), hashed(), 11, at(42));
    assert_eq!(resp, message(200, "User created successfully"));
    assert_eq!(list_users(&table), Ok(vec![expected_account("alice", "hash", 11, 42).to_user()]));
}

#[test]
fn sign_up_with_alice_twice_fails_the_second_time() {
    let mut table = UserTable::new();
    let first = sign_up_with(&mut table, &request("alice", "pw"), hashed(), 11, at(42));
    let other = Ok("hash2".to_string());
    let second = sign_up_with(&mut table, &request("alice", "other"), other, 12, at(43));
    assert_eq!(first, message(200, "User created successfully"));
    assert_eq!(second, message(500, "Internal server error"));
    assert_eq!(list_users(&table), Ok(vec![expected_account("alice", "hash", 11, 42).to_user()]));
}

#[test]
fn sign_up_with_a_used_id_fails() {
    let mut table = UserTable::new();
    sign_up_with(&mut table, &request("alice", "pw"), hashed(), 11, at(42));
    let resp = sign_up_with(&mut table, &request("bob", "pw"), hashed(), 11, at(43));
    assert_eq!(resp, message(500, "Internal server error"));
    assert_eq!(table.len(), 1);
}

#[test]
fn sign_up_with_a_failed_hash_stores_nothing() {
    let mut table = UserTable::new();
    let resp = sign_up_with(&mut table, &request("alice", "pw"), unhashed(), 11, at(42));
    assert_eq!(resp, message(500, "Internal server error"));
    assert_eq!(table.len(), 0);
}

#[test]
fn sign_up_with_a_blank_field_is_rejected_before_anything_else() {
    let mut table = UserTable::new();
    let resp = sign_up_with(&mut table, &request("alice", " "), unhashed(), 11, at(42));
    assert_eq!(resp, message(400, "Password cannot be empty"));
    assert_eq!(table.len(), 0);
}

#[test]
fn sign_up_with_a_username_too_wide_fails() {
    let mut table = UserTable::new();
    let resp = sign_up_with(&mut table, &request(&"a".repeat(101), "pw"), hashed(), 11, at(42));
    assert_eq!(resp, message(500, "Internal server error"));
    assert_eq!(table.len(), 0);
}

#[test]
fn sign_up_with_empty_username_is_a_bad_request() {
    let mut table = UserTable::new();
    let req = SignUpReq {
        username: "".to_string(),
        email: "e@x.com".to_string(),
        password: "x".to_string(),
        display_name: "".to_string(),
    };
    assert_eq!(sign_up(&mut table, &req), message(400, "Username cannot be empty"));
    assert_eq!(table.len(), 0);
}

#[test]
fn sign_up_stores_a_hash_that_verifies_and_is_not_the_password() {
    let before = chrono::Utc::now().timestamp_micros();
    let mut table = UserTable::new();
    let resp = sign_up(&mut table, &request("alice", "wonderland"));
    let after = chrono::Utc::now().timestamp_micros();
    assert_eq!(resp, message(200, "User created successfully"));
    let alice: User = get_user_by_username(&table, "alice").unwrap();
    let hash = alice.password_hash.clone().unwrap();
    assert_ne!(hash, "wonderland");
    assert_eq!(verify_password("wonderland", &hash), Ok(true));
    assert_eq!(alice.email, "alice@example.com");
    assert_eq!(alice.display_name, "Display");
    assert_eq!(alice.user_role, "user");
    assert!(alice.is_active);
    assert_eq!(alice.last_login, None);
    assert_eq!(alice.created_at, alice.updated_at);
    assert!(before <= alice.created_at.micros && alice.created_at.micros <= after);
    assert_eq!(uuid::Uuid::from_u128(alice.id).get_version_num(), 4);
}

#[test]
fn sign_up_twice_with_alice_keeps_the_first_account() {
    let mut table = UserTable::new();
    let first = sign_up(&mut table, &request("alice", "one"));
    let stored = list_users(&table);
    let second = sign_up(&mut table, &request("alice", "two"));
    assert_eq!(first, message(200, "User created successfully"));
    assert_eq!(second, message(500, "Internal server error"));
    assert_eq!(list_users(&table), stored);
    assert_eq!(table.len(), 1);
}

#[test]
fn prepare_makes_an_account_of_a_valid_form() {
    match sign_up_prepare(&request("carol", "pw")) {
        SignUpStep::Insert(account) => {
            assert_eq!(account.username, "carol");
            assert_eq!(account.user_role, "user");
            assert_eq!(account.last_login, None);
            assert_eq!(account.password_hash.chars().count(), 60);
            assert_ne!(account.password_hash, "pw");
        }
        SignUpStep::Reject(resp) => panic!("rejected: {:?}", resp),
    }
}
