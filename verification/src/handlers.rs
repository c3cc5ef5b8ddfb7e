//! The account service: sign-up, login and the list of users. Each flow is a
//! chain of decisions around one statement against the users table. The
//! decisions stand here as functions of their own, so that a caller with
//! another store behind it can run the statement itself; the flows at the end
//! of this module run it against the table in memory.

use vstd::prelude::*;
use vstd::string::StringExecFns;
use crate::credential::{hash_password, is_hash_of, verification, verify_password, CredentialError};
use crate::models::{
    fresh_user_id, is_random_uuid, Credentials, LoginRequest, NewUser, SignUpForm, SignUpReq,
    Timestamp, User, UserRecord,
};
use crate::repo::{
    after_insert, after_touch, create_user, fetch_result, fetched_view, get_user_by_username,
    insert_result, list_users, loaded_view, records, touch_result, touched, update_last_login,
    update_last_login_at, username_taken, RepoError, UserTable,
};
use crate::text::{blank, is_blank};

verus! {

/// The status of a request that was served.
pub const STATUS_OK: u16 = 200;

/// The status of a request that the client has to correct.
pub const STATUS_BAD_REQUEST: u16 = 400;

/// The status of a request that failed for a reason inside the service.
pub const STATUS_INTERNAL_ERROR: u16 = 500;

/// What a response carries, as plain mathematical values.
pub ghost enum BodyView {
    Message(Seq<char>),
    Users(Seq<UserRecord>),
}

/// What a response carries: a message, or the list of users.
#[derive(Debug, PartialEq, Eq)]
pub enum Body {
    Message(String),
    Users(Vec<User>),
}

impl View for Body {
    type V = BodyView;

    open spec fn view(&self) -> BodyView {
        match self {
            Body::Message(text) => BodyView::Message(text@),
            Body::Users(users) => BodyView::Users(records(users@)),
        }
    }
}

/// A response, as plain mathematical values.
pub ghost struct ResponseView {
    pub status: u16,
    pub body: BodyView,
}

/// The answer to a request: a status and a body.
#[derive(Debug, PartialEq, Eq)]
pub struct Response {
    pub status: u16,
    pub body: Body,
}

impl View for Response {
    type V = ResponseView;

    open spec fn view(&self) -> ResponseView {
        ResponseView { status: self.status, body: self.body@ }
    }
}

/// The response with this status and message.
pub open spec fn message_reply(status: u16, text: Seq<char>) -> ResponseView {
    ResponseView { status, body: BodyView::Message(text) }
}

/// The response to a sign-up that created the account.
pub open spec fn user_created() -> ResponseView {
    message_reply(STATUS_OK, "User created successfully"@)
}

/// The response to a login that succeeded.
pub open spec fn logged_in() -> ResponseView {
    message_reply(STATUS_OK, "Logged in successfully"@)
}

/// The response to a login with an unknown username or a wrong password. It
/// is one response for both, so that it does not tell which usernames exist.
pub open spec fn invalid_credentials() -> ResponseView {
    message_reply(STATUS_BAD_REQUEST, "Invalid username or password"@)
}

/// The response to a login for an account that has no password.
pub open spec fn no_password_stored() -> ResponseView {
    message_reply(STATUS_BAD_REQUEST, "User has no password stored"@)
}

/// The response to any failure inside the service. It names no cause.
pub open spec fn internal_error() -> ResponseView {
    message_reply(STATUS_INTERNAL_ERROR, "Internal server error"@)
}

/// The response that lists these accounts.
pub open spec fn users_listed(rows: Seq<UserRecord>) -> ResponseView {
    ResponseView { status: STATUS_OK, body: BodyView::Users(rows) }
}

impl Response {
    /// A response with a message for its body.
    pub fn message(status: u16, text: &str) -> (resp: Response)
        ensures
            resp@ == message_reply(status, text@),
    {
        Response { status, body: Body::Message(String::from_str(text)) }
    }

    /// See [`user_created`].
    pub fn user_created() -> (resp: Response)
        ensures
            resp@ == user_created(),
    {
        Response::message(STATUS_OK, "User created successfully")
    }

    /// See [`logged_in`].
    pub fn logged_in() -> (resp: Response)
        ensures
            resp@ == logged_in(),
    {
        Response::message(STATUS_OK, "Logged in successfully")
    }

    /// See [`invalid_credentials`].
    pub fn invalid_credentials() -> (resp: Response)
        ensures
            resp@ == invalid_credentials(),
    {
        Response::message(STATUS_BAD_REQUEST, "Invalid username or password")
    }

    /// See [`no_password_stored`].
    pub fn no_password_stored() -> (resp: Response)
        ensures
            resp@ == no_password_stored(),
    {
        Response::message(STATUS_BAD_REQUEST, "User has no password stored")
    }

    /// See [`internal_error`].
    pub fn internal_error() -> (resp: Response)
        ensures
            resp@ == internal_error(),
    {
        Response::message(STATUS_INTERNAL_ERROR, "Internal server error")
    }
}

/// A required field of a sign-up request that is blank.
#[derive(Clone, Copy, Debug, PartialEq, Eq, Structural)]
pub enum ValidationError {
    EmptyUsername,
    EmptyPassword,
    EmptyEmail,
}

impl ValidationError {
    /// The message that names the field.
    pub open spec fn message_text(self) -> Seq<char> {
        match self {
            ValidationError::EmptyUsername => "Username cannot be empty"@,
            ValidationError::EmptyPassword => "Password cannot be empty"@,
            ValidationError::EmptyEmail => "Email cannot be empty"@,
        }
    }

    /// The message that names the field.
    pub fn message(&self) -> (text: &'static str)
        ensures
            text@ == self.message_text(),
    {
        match self {
            ValidationError::EmptyUsername => "Username cannot be empty",
            ValidationError::EmptyPassword => "Password cannot be empty",
            ValidationError::EmptyEmail => "Email cannot be empty",
        }
    }

    /// The response that rejects the request.
    pub fn response(&self) -> (resp: Response)
        ensures
            resp@ == field_empty(*self),
    {
        Response::message(STATUS_BAD_REQUEST, self.message())
    }
}

/// The response to a sign-up with a blank required field.
pub open spec fn field_empty(e: ValidationError) -> ResponseView {
    message_reply(STATUS_BAD_REQUEST, e.message_text())
}

/// The first required field of the form that is blank, in the order username,
/// password, email.
pub open spec fn first_blank_field(form: SignUpForm) -> Option<ValidationError> {
    if blank(form.username) {
        Some(ValidationError::EmptyUsername)
    } else if blank(form.password) {
        Some(ValidationError::EmptyPassword)
    } else if blank(form.email) {
        Some(ValidationError::EmptyEmail)
    } else {
        None
    }
}

/// Checks that username, password and email each hold more than white space.
pub fn validate_sign_up(req: &SignUpReq) -> (r: Result<(), ValidationError>)
    ensures
        r == (match first_blank_field(req@) {
            Some(e) => Err::<(), ValidationError>(e),
            None => Ok(()),
        }),
{
    if is_blank(req.username.as_str()) {
        Err(ValidationError::EmptyUsername)
    } else if is_blank(req.password.as_str()) {
        Err(ValidationError::EmptyPassword)
    } else if is_blank(req.email.as_str()) {
        Err(ValidationError::EmptyEmail)
    } else {
        Ok(())
    }
}

/// The account that sign-up stores for a form: the form's username, email and
/// display name, the hash in place of the password, the role `user`, active,
/// never logged in, created and updated at `now`.
pub open spec fn new_account(
    form: SignUpForm,
    hash: Seq<char>,
    id: u128,
    now: Timestamp,
) -> UserRecord {
    UserRecord {
        id,
        username: form.username,
        email: form.email,
        password_hash: Some(hash),
        display_name: form.display_name,
        user_role: "user"@,
        is_active: true,
        last_login: None,
        created_at: now,
        updated_at: now,
    }
}

/// Builds the account that sign-up stores: see [`new_account`].
pub fn build_new_user(
    req: &SignUpReq,
    password_hash: String,
    id: u128,
    now: Timestamp,
) -> (new_user: NewUser)
    ensures
        new_user@ == new_account(req@, password_hash@, id, now),
{
    NewUser {
        id,
        username: req.username.clone(),
        email: req.email.clone(),
        password_hash,
        display_name: req.display_name.clone(),
        user_role: String::from_str("user"),
        is_active: true,
        last_login: None,
        created_at: now,
        updated_at: now,
    }
}

/// What sign-up does next, as plain mathematical values.
pub ghost enum SignUpStepView {
    Reject(ResponseView),
    Insert(UserRecord),
}

/// What sign-up does next: answer at once, or insert an account first.
#[derive(Debug, PartialEq, Eq)]
pub enum SignUpStep {
    /// Answer with this response; the table is not touched.
    Reject(Response),
    /// Insert this account, and answer by [`sign_up_finish`].
    Insert(NewUser),
}

impl View for SignUpStep {
    type V = SignUpStepView;

    open spec fn view(&self) -> SignUpStepView {
        match self {
            SignUpStep::Reject(resp) => SignUpStepView::Reject(resp@),
            SignUpStep::Insert(new_user) => SignUpStepView::Insert(new_user@),
        }
    }
}

/// The view of a hash, or the codec's error in its place.
pub open spec fn hashed_view(hashed: Result<String, CredentialError>) -> Result<
    Seq<char>,
    CredentialError,
> {
    match hashed {
        Ok(hash) => Ok(hash@),
        Err(e) => Err(e),
    }
}

/// The step of a sign-up whose fields passed validation: insert the account
/// where the password was hashed, and fail where it was not.
pub open spec fn sign_up_decision(
    form: SignUpForm,
    hashed: Result<Seq<char>, CredentialError>,
    id: u128,
    now: Timestamp,
) -> SignUpStepView {
    match hashed {
        Ok(hash) => SignUpStepView::Insert(new_account(form, hash, id, now)),
        Err(_) => SignUpStepView::Reject(internal_error()),
    }
}

/// The step of a sign-up: reject a form with a blank required field, and
/// decide by [`sign_up_decision`] on any other.
pub open spec fn sign_up_plan(
    form: SignUpForm,
    hashed: Result<Seq<char>, CredentialError>,
    id: u128,
    now: Timestamp,
) -> SignUpStepView {
    match first_blank_field(form) {
        Some(e) => SignUpStepView::Reject(field_empty(e)),
        None => sign_up_decision(form, hashed, id, now),
    }
}

/// The response of a sign-up to the outcome of its insertion.
pub open spec fn sign_up_reply(outcome: Result<(), RepoError>) -> ResponseView {
    match outcome {
        Ok(_) => user_created(),
        Err(_) => internal_error(),
    }
}

/// The response of a sign-up that takes this step against this table.
pub open spec fn sign_up_response(rows: Seq<UserRecord>, step: SignUpStepView) -> ResponseView {
    match step {
        SignUpStepView::Reject(resp) => resp,
        SignUpStepView::Insert(row) => sign_up_reply(insert_result(rows, row)),
    }
}

/// The table after a sign-up took this step against it.
pub open spec fn sign_up_table(rows: Seq<UserRecord>, step: SignUpStepView) -> Seq<UserRecord> {
    match step {
        SignUpStepView::Reject(_) => rows,
        SignUpStepView::Insert(row) => after_insert(rows, row),
    }
}

/// `row` is an account that sign-up makes of `form`: its password hash was
/// produced from the form's password, its id reads as a random UUID, and the
/// rest is as [`new_account`] says.
pub open spec fn opens_account(form: SignUpForm, row: UserRecord) -> bool {
    &&& row.password_hash matches Some(hash)
    &&& is_hash_of(form.password, hash)
    &&& is_random_uuid(row.id)
    &&& row == new_account(form, hash, row.id, row.created_at)
}

/// Decides the step of a sign-up whose fields passed validation, from the
/// outcome of hashing its password, a fresh id and the current time.
pub fn sign_up_decide(
    req: &SignUpReq,
    hashed: Result<String, CredentialError>,
    id: u128,
    now: Timestamp,
) -> (step: SignUpStep)
    ensures
        step@ == sign_up_decision(req@, hashed_view(hashed), id, now),
{
    match hashed {
        Ok(hash) => SignUpStep::Insert(build_new_user(req, hash, id, now)),
        Err(_) => SignUpStep::Reject(Response::internal_error()),
    }
}

/// The first part of a sign-up, up to the statement against the table:
/// validates the fields, and for fields that pass hashes the password, draws
/// an id and reads the clock. A form with a blank required field is rejected
/// with the message that names the first such field. For any other form the
/// step is an account made of it, unless hashing failed.
pub fn sign_up_prepare(req: &SignUpReq) -> (step: SignUpStep)
    ensures
        first_blank_field(req@) matches Some(e) ==> step@ == SignUpStepView::Reject(
            field_empty(e),
        ),
        first_blank_field(req@) is None ==> step@ == SignUpStepView::Reject(internal_error()) || (
        step@ matches SignUpStepView::Insert(row) && opens_account(req@, row)),
{
    match validate_sign_up(req) {
        Err(e) => SignUpStep::Reject(e.response()),
        Ok(_) => {
            let hashed = hash_password(req.password.as_str());
            let id = fresh_user_id();
            let now = Timestamp::now();
            sign_up_decide(req, hashed, id, now)
        },
    }
}

/// The last part of a sign-up: the response to the outcome of the insertion.
/// Any failure of the store is answered alike, without its cause.
pub fn sign_up_finish(outcome: Result<(), RepoError>) -> (resp: Response)
    ensures
        resp@ == sign_up_reply(outcome),
{
    match outcome {
        Ok(_) => Response::user_created(),
        Err(_) => Response::internal_error(),
    }
}

/// Takes a step of a sign-up against the table in memory.
pub fn sign_up_commit(table: &mut UserTable, step: SignUpStep) -> (resp: Response)
    ensures
        resp@ == sign_up_response(old(table)@, step@),
        final(table)@ == sign_up_table(old(table)@, step@),
{
    match step {
        SignUpStep::Reject(resp) => resp,
        SignUpStep::Insert(new_user) => {
            let outcome = create_user(table, &new_user);
            sign_up_finish(outcome)
        },
    }
}

/// Sign-up, with what lies outside the service given: the outcome of hashing
/// the password, the id and the time. Response and table are then fixed.
pub fn sign_up_with(
    table: &mut UserTable,
    req: &SignUpReq,
    hashed: Result<String, CredentialError>,
    id: u128,
    now: Timestamp,
) -> (resp: Response)
    ensures
        resp@ == sign_up_response(old(table)@, sign_up_plan(req@, hashed_view(hashed), id, now)),
        final(table)@ == sign_up_table(
            old(table)@,
            sign_up_plan(req@, hashed_view(hashed), id, now),
        ),
{
    match validate_sign_up(req) {
        Err(e) => e.response(),
        Ok(_) => {
            let step = sign_up_decide(req, hashed, id, now);
            sign_up_commit(table, step)
        },
    }
}

/// `after` is `before` with one row more: an account that sign-up made of
/// `form`, which the table accepted.
pub open spec fn account_added(
    before: Seq<UserRecord>,
    form: SignUpForm,
    after: Seq<UserRecord>,
) -> bool {
    &&& after.len() == before.len() + 1
    &&& after == before.push(after.last())
    &&& opens_account(form, after.last())
    &&& insert_result(before, after.last()) is Ok
}

/// Sign-up against the table in memory. A form with a blank required field
/// is answered 400 with the message that names the first such field. Any
/// other form has its password hashed and an account made of it, which the
/// table then accepts or refuses: where it accepts, the account is the one new
/// row and the answer is 200; in every other case the table is as before and
/// the answer is 500. A username that the table already holds is such a case.
pub fn sign_up(table: &mut UserTable, req: &SignUpReq) -> (resp: Response)
    ensures
        first_blank_field(req@) matches Some(e) ==> resp@ == field_empty(e) && final(table)@
            == old(table)@,
        first_blank_field(req@) is None ==> (resp@ == internal_error() && final(table)@ == old(
            table,
        )@) || (resp@ == user_created() && account_added(old(table)@, req@, final(table)@)),
        first_blank_field(req@) is None && username_taken(old(table)@, req@.username) ==> resp@
            == internal_error() && final(table)@ == old(table)@,
{
    let step = sign_up_prepare(req);
    sign_up_commit(table, step)
}

/// What login does next, as plain mathematical values.
pub ghost enum LoginStepView {
    Reject(ResponseView),
    Touch(u128),
}

/// What login does next: answer at once, or record the login first.
#[derive(Debug, PartialEq, Eq)]
pub enum LoginStep {
    /// Answer with this response; the table is not touched.
    Reject(Response),
    /// Set the last login of the account with this id, and answer by
    /// [`login_finish`].
    Touch(u128),
}

impl View for LoginStep {
    type V = LoginStepView;

    open spec fn view(&self) -> LoginStepView {
        match self {
            LoginStep::Reject(resp) => LoginStepView::Reject(resp@),
            LoginStep::Touch(id) => LoginStepView::Touch(*id),
        }
    }
}

/// The step of a login once the password was checked against the hash of the
/// account `user_id`: record the login where it matches, reject where it does
/// not, and fail where the hash could not be read.
pub open spec fn login_verdict_of(
    user_id: u128,
    verified: Result<bool, CredentialError>,
) -> LoginStepView {
    match verified {
        Ok(true) => LoginStepView::Touch(user_id),
        Ok(false) => LoginStepView::Reject(invalid_credentials()),
        Err(_) => LoginStepView::Reject(internal_error()),
    }
}

/// The step of a login once the account was searched for. An unknown username
/// is rejected as a wrong password is. An account without a password cannot
/// log in. Any other failure of the search is a failure of the service.
pub open spec fn login_decision(
    fetched: Result<UserRecord, RepoError>,
    password: Seq<char>,
) -> LoginStepView {
    match fetched {
        Err(RepoError::NotFound) => LoginStepView::Reject(invalid_credentials()),
        Err(_) => LoginStepView::Reject(internal_error()),
        Ok(user) => match user.password_hash {
            None => LoginStepView::Reject(no_password_stored()),
            Some(hash) => login_verdict_of(user.id, verification(password, hash)),
        },
    }
}

/// The response of a login to the outcome of recording it.
pub open spec fn login_reply(outcome: Result<(), RepoError>) -> ResponseView {
    match outcome {
        Ok(_) => logged_in(),
        Err(_) => internal_error(),
    }
}

/// The step of a login with these credentials against this table.
pub open spec fn login_step(rows: Seq<UserRecord>, credentials: Credentials) -> LoginStepView {
    login_decision(fetch_result(rows, credentials.username), credentials.password)
}

/// The response of a login with these credentials against this table.
pub open spec fn login_response(rows: Seq<UserRecord>, credentials: Credentials) -> ResponseView {
    match login_step(rows, credentials) {
        LoginStepView::Reject(resp) => resp,
        LoginStepView::Touch(id) => login_reply(touch_result(rows, id)),
    }
}

/// The table after a login with these credentials at the instant `now`.
pub open spec fn login_table(
    rows: Seq<UserRecord>,
    credentials: Credentials,
    now: Timestamp,
) -> Seq<UserRecord> {
    match login_step(rows, credentials) {
        LoginStepView::Reject(_) => rows,
        LoginStepView::Touch(id) => after_touch(rows, id, now),
    }
}

/// Decides the step of a login from the outcome of checking the password.
pub fn login_verdict(user_id: u128, verified: Result<bool, CredentialError>) -> (step: LoginStep)
    ensures
        step@ == login_verdict_of(user_id, verified),
{
    match verified {
        Ok(true) => LoginStep::Touch(user_id),
        Ok(false) => LoginStep::Reject(Response::invalid_credentials()),
        Err(_) => LoginStep::Reject(Response::internal_error()),
    }
}

/// The middle part of a login, between the search for the account and the
/// record of the login: checks the password against the hash of the account
/// that was found.
pub fn login_check(fetched: Result<User, RepoError>, password: &str) -> (step: LoginStep)
    ensures
        step@ == login_decision(fetched_view(fetched), password@),
{
    match fetched {
        Err(RepoError::NotFound) => LoginStep::Reject(Response::invalid_credentials()),
        Err(_) => LoginStep::Reject(Response::internal_error()),
        Ok(user) => match &user.password_hash {
            None => LoginStep::Reject(Response::no_password_stored()),
            Some(hash) => {
                let verified = verify_password(password, hash.as_str());
                login_verdict(user.id, verified)
            },
        },
    }
}

/// The last part of a login: the response to the outcome of recording it.
pub fn login_finish(outcome: Result<(), RepoError>) -> (resp: Response)
    ensures
        resp@ == login_reply(outcome),
{
    match outcome {
        Ok(_) => Response::logged_in(),
        Err(_) => Response::internal_error(),
    }
}

/// Login against the table in memory, at the instant `now`. Response and
/// table are fixed by the table before, the credentials and the instant.
pub fn login_at(table: &mut UserTable, req: &LoginRequest, now: Timestamp) -> (resp: Response)
    ensures
        resp@ == login_response(old(table)@, req@),
        final(table)@ == login_table(old(table)@, req@, now),
{
    let fetched = get_user_by_username(table, req.username.as_str());
    match login_check(fetched, req.password.as_str()) {
        LoginStep::Reject(resp) => resp,
        LoginStep::Touch(id) => {
            let outcome = update_last_login_at(table, id, now);
            login_finish(outcome)
        },
    }
}

/// Login against the table in memory. The response is fixed by the table and
/// the credentials. A login that is rejected leaves the table as it was; one
/// that succeeds sets the last login of the account to the time at which it
/// was recorded.
pub fn login(table: &mut UserTable, req: &LoginRequest) -> (resp: Response)
    ensures
        resp@ == login_response(old(table)@, req@),
        login_step(old(table)@, req@) is Reject ==> final(table)@ == old(table)@,
        login_step(old(table)@, req@) matches LoginStepView::Touch(id) ==> touched(
            old(table)@,
            id,
            final(table)@,
        ),
{
    let fetched = get_user_by_username(table, req.username.as_str());
    match login_check(fetched, req.password.as_str()) {
        LoginStep::Reject(resp) => resp,
        LoginStep::Touch(id) => {
            let outcome = update_last_login(table, id);
            login_finish(outcome)
        },
    }
}

/// The account without its password hash.
pub open spec fn redacted(row: UserRecord) -> UserRecord {
    UserRecord { password_hash: None, ..row }
}

/// The accounts in the same order, each without its password hash.
pub open spec fn redact_all(rows: Seq<UserRecord>) -> Seq<UserRecord> {
    Seq::new(rows.len(), |i: int| redacted(rows[i]))
}

/// The response to a request for the list of users, given what the store
/// loaded: the accounts without their password hashes, or a failure.
pub open spec fn users_reply(loaded: Result<Seq<UserRecord>, RepoError>) -> ResponseView {
    match loaded {
        Ok(rows) => users_listed(redact_all(rows)),
        Err(_) => internal_error(),
    }
}

/// Removes the password hash from every account of the list.
pub fn redact(users: Vec<User>) -> (public: Vec<User>)
    ensures
        records(public@) == redact_all(records(users@)),
{
    let mut users = users;
    let ghost before = records(users@);
    let n = users.len();
    let mut i: usize = 0;
    while i < n
        invariant
            n == users@.len(),
            n == before.len(),
            i <= n,
            forall|k: int| 0 <= k < i ==> (#[trigger] users@[k])@ == redacted(before[k]),
            forall|k: int| i <= k < n ==> (#[trigger] users@[k])@ == before[k],
        decreases n - i,
    {
        users[i].password_hash = None;
        i += 1;
    }
    assert(records(users@) =~= redact_all(before));
    users
}

/// The last part of listing the users: the response to what the store
/// loaded. No password hash leaves the service.
pub fn users_finish(loaded: Result<Vec<User>, RepoError>) -> (resp: Response)
    ensures
        resp@ == users_reply(loaded_view(loaded)),
{
    match loaded {
        Ok(users) => Response { status: STATUS_OK, body: Body::Users(redact(users)) },
        Err(_) => Response::internal_error(),
    }
}

/// The list of users of the table in memory: every account, in the order of
/// insertion, without its password hash. An empty table gives an empty list.
pub fn users_endpoint(table: &UserTable) -> (resp: Response)
    ensures
        resp@ == users_listed(redact_all(table@)),
{
    users_finish(list_users(table))
}

} // verus!
