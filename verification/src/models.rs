//! The records the service works with, and the mathematical view of each.

use vstd::prelude::*;

verus! {

/// An instant, counted in microseconds since 1970-01-01T00:00:00 UTC.
#[derive(Clone, Copy, Debug, PartialEq, Eq, Structural, PartialOrd, Ord, Hash)]
pub struct Timestamp {
    pub micros: i64,
}

/// What a row of the users table holds, as plain mathematical values.
pub ghost struct UserRecord {
    pub id: u128,
    pub username: Seq<char>,
    pub email: Seq<char>,
    pub password_hash: Option<Seq<char>>,
    pub display_name: Seq<char>,
    pub user_role: Seq<char>,
    pub is_active: bool,
    pub last_login: Option<Timestamp>,
    pub created_at: Timestamp,
    pub updated_at: Timestamp,
}

/// A stored user account.
#[derive(Debug, PartialEq, Eq)]
pub struct User {
    pub id: u128,
    pub username: String,
    pub email: String,
    pub password_hash: Option<String>,
    pub display_name: String,
    pub user_role: String,
    pub is_active: bool,
    pub last_login: Option<Timestamp>,
    pub created_at: Timestamp,
    pub updated_at: Timestamp,
}

impl View for User {
    type V = UserRecord;

    open spec fn view(&self) -> UserRecord {
        UserRecord {
            id: self.id,
            username: self.username@,
            email: self.email@,
            password_hash: match self.password_hash {
                Some(h) => Some(h@),
                None => None,
            },
            display_name: self.display_name@,
            user_role: self.user_role@,
            is_active: self.is_active,
            last_login: self.last_login,
            created_at: self.created_at,
            updated_at: self.updated_at,
        }
    }
}

impl Clone for User {
    fn clone(&self) -> (copy: Self)
        ensures
            copy@ == self@,
    {
        User {
            id: self.id,
            username: self.username.clone(),
            email: self.email.clone(),
            password_hash: match &self.password_hash {
                Some(h) => Some(h.clone()),
                None => None,
            },
            display_name: self.display_name.clone(),
            user_role: self.user_role.clone(),
            is_active: self.is_active,
            last_login: self.last_login,
            created_at: self.created_at,
            updated_at: self.updated_at,
        }
    }
}

/// An account about to be stored: what sign-up hands to the users table.
#[derive(Debug, PartialEq, Eq)]
pub struct NewUser {
    pub id: u128,
    pub username: String,
    pub email: String,
    pub password_hash: String,
    pub display_name: String,
    pub user_role: String,
    pub is_active: bool,
    pub last_login: Option<Timestamp>,
    pub created_at: Timestamp,
    pub updated_at: Timestamp,
}

impl View for NewUser {
    type V = UserRecord;

    /// The row that storing this account adds to the table.
    open spec fn view(&self) -> UserRecord {
        UserRecord {
            id: self.id,
            username: self.username@,
            email: self.email@,
            password_hash: Some(self.password_hash@),
            display_name: self.display_name@,
            user_role: self.user_role@,
            is_active: self.is_active,
            last_login: self.last_login,
            created_at: self.created_at,
            updated_at: self.updated_at,
        }
    }
}

impl NewUser {
    /// The account as it reads once stored.
    pub fn to_user(&self) -> (user: User)
        ensures
            user@ == self@,
    {
        User {
            id: self.id,
            username: self.username.clone(),
            email: self.email.clone(),
            password_hash: Some(self.password_hash.clone()),
            display_name: self.display_name.clone(),
            user_role: self.user_role.clone(),
            is_active: self.is_active,
            last_login: self.last_login,
            created_at: self.created_at,
            updated_at: self.updated_at,
        }
    }
}

/// The fields of a sign-up request, as sequences of characters.
pub ghost struct SignUpForm {
    pub username: Seq<char>,
    pub email: Seq<char>,
    pub password: Seq<char>,
    pub display_name: Seq<char>,
}

/// The body of a sign-up request.
#[derive(Debug, PartialEq, Eq)]
pub struct SignUpReq {
    pub username: String,
    pub email: String,
    pub password: String,
    pub display_name: String,
}

impl View for SignUpReq {
    type V = SignUpForm;

    open spec fn view(&self) -> SignUpForm {
        SignUpForm {
            username: self.username@,
            email: self.email@,
            password: self.password@,
            display_name: self.display_name@,
        }
    }
}

/// The fields of a login request, as sequences of characters.
pub ghost struct Credentials {
    pub username: Seq<char>,
    pub password: Seq<char>,
}

/// The body of a login request.
#[derive(Debug, PartialEq, Eq)]
pub struct LoginRequest {
    pub username: String,
    pub password: String,
}

impl View for LoginRequest {
    type V = Credentials;

    open spec fn view(&self) -> Credentials {
        Credentials { username: self.username@, password: self.password@ }
    }
}

/// Whether `id` reads as a random (version 4) UUID of the variant that
/// RFC 9562 lays out: the four version bits hold 4, the two variant bits 10.
pub open spec fn is_random_uuid(id: u128) -> bool {
    (id >> 76) & 0xf == 4 && (id >> 62) & 0x3 == 2
}

/// `uuid::Uuid::new_v4`, read as the 128-bit number that `Uuid::as_u128`
/// gives: random bits from the operating system, with the version and variant
/// bits of a random UUID set. That two calls give different ids is likely and
/// not claimed.
#[verifier::external_body]
pub(crate) fn fresh_user_id() -> (id: u128)
    ensures
        is_random_uuid(id),
{
    uuid::Uuid::new_v4().as_u128()
}

impl Timestamp {
    /// `chrono::Utc::now`, read in microseconds since the epoch as
    /// `DateTime::timestamp_micros` gives them. Nothing is claimed of the
    /// instant that comes back, not even that the clock never runs backwards.
    #[verifier::external_body]
    pub(crate) fn now() -> (now: Timestamp) {
        Timestamp { micros: chrono::Utc::now().timestamp_micros() }
    }
}

} // verus!
