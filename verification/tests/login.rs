use user_accounts::credential::CredentialError;
use user_accounts::handlers::{
    login, login_at, login_check, login_finish, login_verdict, sign_up_with, Body, LoginStep,
    Response,
};
use user_accounts::models::{LoginRequest, NewUser, SignUpReq, Timestamp, User};
use user_accounts::repo::{create_user, get_user_by_username, list_users, RepoError, UserTable};

fn message(status: u16, text: &str) -> Response {
    Response { status, body: Body::Message(text.to_string()) }
}

fn credentials(username: &str, password: &str) -> LoginRequest {
    LoginRequest { username: username.to_string(), password: password.to_string() }
}

fn quick_hash(password: &str) -> String {
    bcrypt::hash(password, 4).unwrap()
}

fn user(id: u128, username: &str, password_hash: Option<String>) -> User {
    User {
        id,
        username: username.to_string(),
        email: format!("{}@example.com", username),
        password_hash,
        display_name: "Display".to_string(),
        user_role: "user".to_string(),
        is_active: true,
        last_login: None,
        created_at: Timestamp { micros: 100 },
        updated_at: Timestamp { micros: 100 },
    }
}

fn table_with(id: u128, username: &str, password: &str) -> UserTable {
    let mut table = UserTable::new();
    let account = NewUser {
        id,
        username: username.to_string(),
        email: format!("{}@example.com", username),
        password_hash: quick_hash(password),
        display_name: "Display".to_string(),
        user_role: "user".to_string(),
        is_active: true,
        last_login: None,
        created_at: Timestamp { micros: 100 },
        updated_at: Timestamp { micros: 100 },
    };
    create_user(&mut table, &account).unwrap();
    table
}

#[test]
fn verdict_follows_the_check_of_the_password() {
    assert_eq!(login_verdict(7, Ok(true)), LoginStep::Touch(7));
    assert_eq!(
        login_verdict(7, Ok(false)),
        LoginStep::Reject(message(400, "Invalid username or password"))
    );
    assert_eq!(
        login_verdict(7, Err(CredentialError::Verification)),
        LoginStep::Reject(message(500, "Internal server error"))
    );
}

#[test]
fn check_of_an_unknown_user_is_rejected() {
    assert_eq!(
        login_check(Err(RepoError::NotFound), "pw"),
        LoginStep::Reject(message(400, "Invalid username or password"))
    );
}

#[test]
fn check_with_an_unreachable_store_is_an_internal_error() {
    assert_eq!(
        login_check(Err(RepoError::StoreUnavailable), "pw"),
        LoginStep::Reject(message(500, "Internal server error"))
    );
    assert_eq!(
        login_check(Err(RepoError::QueryFailed), "pw"),
        LoginStep::Reject(message(500, "Internal server error"))
    );
}

#[test]
fn check_of_an_account_without_a_password_is_rejected() {
    assert_eq!(
        login_check(Ok(user(3, "carol", None)), "pw"),
        LoginStep::Reject(message(400, "User has no password stored"))
    );
}

#[test]
fn check_with_the_right_password_records_the_login() {
    let found = user(3, "carol", Some(quick_hash("pw")));
    assert_eq!(login_check(Ok(found), "pw"), LoginStep::Touch(3));
}

#[test]
fn check_with_a_wrong_password_is_rejected() {
    let found = user(3, "carol", Some(quick_hash("pw")));
    assert_eq!(
        login_check(Ok(found), "pW"),
        LoginStep::Reject(message(400, "Invalid username or password"))
    );
}

#[test]
fn check_against_a_malformed_hash_is_an_internal_error() {
    let found = user(3, "carol", Some("plaintext".to_string()));
    assert_eq!(
        login_check(Ok(found), "plaintext"),
        LoginStep::Reject(message(500, "Internal server error"))
    );
}

#[test]
fn finish_answers_the_outcome_of_the_update() {
    assert_eq!(login_finish(Ok(())), message(200, "Logged in successfully"));
    assert_eq!(login_finish(Err(RepoError::NotFound)), message(500, "Internal server error"));
    assert_eq!(
        login_finish(Err(RepoError::StoreUnavailable)),
        message(500, "Internal server error")
    );
}

#[test]
fn login_at_with_the_right_password_sets_the_last_login() {
    let mut table = table_with(5, "alice", "secret");
    let resp = login_at(&mut table, &credentials("alice", "secret"), Timestamp { micros: 900 });
    assert_eq!(resp, message(200, "Logged in successfully"));
    let alice = get_user_by_username(&table, "alice").unwrap();
    assert_eq!(alice.last_login, Some(Timestamp { micros: 900 }));
    assert_eq!(alice.updated_at, Timestamp { micros: 100 });
    assert_eq!(alice.id, 5);
}

#[test]
fn login_at_with_a_wrong_password_leaves_the_last_login() {
    let mut table = table_with(5, "alice", "secret");
    let before = list_users(&table);
    let resp = login_at(&mut table, &credentials("alice", "guess"), Timestamp { micros: 900 });
    assert_eq!(resp, message(400, "Invalid username or password"));
    assert_eq!(list_users(&table), before);
    assert_eq!(get_user_by_username(&table, "alice").unwrap().last_login, None);
}

#[test]
fn unknown_user_and_wrong_password_are_answered_alike() {
    let mut table = table_with(5, "alice", "secret");
    let unknown = login_at(&mut table, &credentials("nobody", "secret"), Timestamp { micros: 900 });
    let mistaken = login_at(&mut table, &credentials("alice", "guess"), Timestamp { micros: 901 });
    assert_eq!(unknown, mistaken);
    assert_eq!(unknown, message(400, "Invalid username or password"));
}

#[test]
fn login_of_an_account_without_a_password_hash_is_impossible_through_sign_up() {
    let mut table = UserTable::new();
    let req = SignUpReq {
        username: "alice".to_string(),
        email: "a@example.com".to_string(),
        password: "secret".to_string(),
        display_name: "A".to_string(),
    };
    sign_up_with(&mut table, &req, Ok(quick_hash("secret")), 1, Timestamp { micros: 1 });
    assert!(get_user_by_username(&table, "alice").unwrap().password_hash.is_some());
    let resp = login_at(&mut table, &credentials("alice", "secret"), Timestamp { micros: 2 });
    assert_eq!(resp, message(200, "Logged in successfully"));
}

#[test]
fn later_login_moves_the_last_login_forward() {
    let mut table = table_with(5, "alice", "secret");
    login_at(&mut table, &credentials("alice", "secret"), Timestamp { micros: 900 });
    login_at(&mut table, &credentials("alice", "secret"), Timestamp { micros: 950 });
    assert_eq!(
        get_user_by_username(&table, "alice").unwrap().last_login,
        Some(Timestamp { micros: 950 })
    );
}

#[test]
fn login_by_the_clock_sets_a_time_not_before_the_request() {
    let mut table = table_with(5, "alice", "secret");
    let requested = chrono::Utc::now().timestamp_micros();
    let resp = login(&mut table, &credentials("alice", "secret"));
    assert_eq!(resp, message(200, "Logged in successfully"));
    let at = get_user_by_username(&table, "alice").unwrap().last_login.unwrap();
    assert!(at.micros >= requested);
}

#[test]
fn login_by_the_clock_with_a_wrong_password_changes_nothing() {
    let mut table = table_with(5, "alice", "secret");
    let before = list_users(&table);
    assert_eq!(
        login(&mut table, &credentials("alice", "guess")),
        message(400, "Invalid username or password")
    );
    assert_eq!(
        login(&mut table, &credentials("bob", "secret")),
        message(400, "Invalid username or password")
    );
    assert_eq!(list_users(&table), before);
}
