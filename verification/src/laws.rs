//! What holds of the service as a whole: laws that relate several of its
//! operations, each proved from the definitions that the operations'
//! contracts use.

use vstd::prelude::*;
use crate::credential::{bcrypt_verify_outcome, verification, CredentialError, HASH_LEN};
use crate::handlers::{
    field_empty, invalid_credentials, logged_in, login_response, login_step, login_table,
    opens_account, redact_all, sign_up_plan, sign_up_response, sign_up_table, user_created,
    users_listed, BodyView, LoginStepView, ResponseView, SignUpStepView, ValidationError,
    STATUS_BAD_REQUEST, STATUS_OK,
};
use crate::models::{Credentials, SignUpForm, Timestamp, UserRecord};
use crate::repo::{
    after_insert, after_touch, find_by_username, id_taken, insert_result, table_ok, touch_result,
    username_taken, with_last_login,
};

verus! {

/// In a table, a username names one row: the search for it finds the row
/// that holds it.
pub proof fn lemma_username_names_one_row(rows: Seq<UserRecord>, i: int)
    requires
        table_ok(rows),
        0 <= i < rows.len(),
    ensures
        find_by_username(rows, rows[i].username) == Some(rows[i]),
{
    let name = rows[i].username;
    let j = choose|j: int| 0 <= j < rows.len() && (#[trigger] rows[j]).username == name;
    assert(0 <= j < rows.len() && rows[j].username == name);
    if i < j {
        assert(rows[i].username != rows[j].username);
    } else if j < i {
        assert(rows[j].username != rows[i].username);
    }
}

/// Insertion keeps the table in order, removes nothing and changes no row
/// that was there.
pub proof fn lemma_insert_keeps_table(rows: Seq<UserRecord>, row: UserRecord)
    requires
        table_ok(rows),
    ensures
        table_ok(after_insert(rows, row)),
        after_insert(rows, row).len() >= rows.len(),
        forall|i: int| 0 <= i < rows.len() ==> after_insert(rows, row)[i] == #[trigger] rows[i],
{
    if insert_result(rows, row) is Ok {
        let grown = rows.push(row);
        assert forall|i: int, j: int| 0 <= i < j < grown.len() implies (#[trigger] grown[i]).id != (
        #[trigger] grown[j]).id && grown[i].username != grown[j].username by {
            if j == rows.len() {
                assert(grown[i] == rows[i]);
            }
        }
    }
}

/// The update of a last login keeps the table in order and its length, and
/// changes nothing of any row but the last login: ids and usernames stay as
/// they were created.
pub proof fn lemma_touch_keeps_table(rows: Seq<UserRecord>, id: u128, at: Timestamp)
    requires
        table_ok(rows),
    ensures
        table_ok(after_touch(rows, id, at)),
        after_touch(rows, id, at).len() == rows.len(),
        forall|i: int|
            0 <= i < rows.len() ==> #[trigger] after_touch(rows, id, at)[i] == (UserRecord {
                last_login: after_touch(rows, id, at)[i].last_login,
                ..rows[i]
            }),
        forall|i: int|
            0 <= i < rows.len() && rows[i].id != id ==> #[trigger] after_touch(rows, id, at)[i]
                == rows[i],
{
}

/// A username is claimed once: after an account was stored, the table
/// refuses every further account with the same username, whatever else that
/// account holds, and stays as it is.
pub proof fn lemma_username_is_claimed_once(
    rows: Seq<UserRecord>,
    first: UserRecord,
    second: UserRecord,
)
    requires
        table_ok(rows),
        insert_result(rows, first) is Ok,
        second.username == first.username,
    ensures
        insert_result(after_insert(rows, first), second) is Err,
        after_insert(after_insert(rows, first), second) == after_insert(rows, first),
{
    let grown = rows.push(first);
    assert(grown[rows.len() as int].username == second.username);
}

/// Two sign-ups with one username: where the first is answered with success,
/// the second is not, whatever password, hash, id and time it comes with, and
/// it leaves the table as the first left it.
pub proof fn lemma_second_sign_up_fails(
    rows: Seq<UserRecord>,
    first: SignUpForm,
    first_hashed: Result<Seq<char>, CredentialError>,
    first_id: u128,
    first_now: Timestamp,
    second: SignUpForm,
    second_hashed: Result<Seq<char>, CredentialError>,
    second_id: u128,
    second_now: Timestamp,
)
    requires
        table_ok(rows),
        second.username == first.username,
        sign_up_response(rows, sign_up_plan(first, first_hashed, first_id, first_now))
            == user_created(),
    ensures
        ({
            let between = sign_up_table(
                rows,
                sign_up_plan(first, first_hashed, first_id, first_now),
            );
            let step = sign_up_plan(second, second_hashed, second_id, second_now);
            &&& sign_up_response(between, step) != user_created()
            &&& sign_up_table(between, step) == between
        }),
{
    let first_step = sign_up_plan(first, first_hashed, first_id, first_now);
    let between = sign_up_table(rows, first_step);
    let step = sign_up_plan(second, second_hashed, second_id, second_now);
    match first_step {
        SignUpStepView::Insert(row) => {
            match step {
                SignUpStepView::Insert(next) => {
                    lemma_username_is_claimed_once(rows, row, next);
                },
                SignUpStepView::Reject(_) => {},
            }
        },
        SignUpStepView::Reject(_) => {},
    }
}

/// An account that sign-up stores holds no plaintext. The password verifies
/// against the stored hash. The stored hash differs from the password, unless
/// the password is a string that bcrypt accepts as the hash of itself; a
/// password of any length but that of a hash is none.
pub proof fn lemma_stored_hash_is_not_plaintext(form: SignUpForm, row: UserRecord)
    requires
        opens_account(form, row),
    ensures
        row.password_hash is Some,
        verification(form.password, row.password_hash->0) == Ok::<bool, CredentialError>(true),
        row.password_hash->0 == form.password ==> bcrypt_verify_outcome(
            form.password,
            form.password,
        ) == Some(true),
        form.password.len() != HASH_LEN ==> row.password_hash->0 != form.password,
{
}

/// A login with the right password for an account succeeds, and sets the last
/// login of that account to the instant at which it is recorded: an instant
/// no earlier than any instant that the clock showed before. It changes
/// nothing else, of that account or of any other.
pub proof fn lemma_login_records_time(
    rows: Seq<UserRecord>,
    credentials: Credentials,
    requested_at: Timestamp,
    now: Timestamp,
    i: int,
)
    requires
        table_ok(rows),
        0 <= i < rows.len(),
        rows[i].username == credentials.username,
        rows[i].password_hash matches Some(hash) && verification(credentials.password, hash)
            == Ok::<bool, CredentialError>(true),
        requested_at.micros <= now.micros,
    ensures
        login_response(rows, credentials) == logged_in(),
        login_table(rows, credentials, now) == rows.update(i, with_last_login(rows[i], now)),
        login_table(rows, credentials, now)[i].last_login matches Some(at) && at.micros
            >= requested_at.micros,
{
    lemma_username_names_one_row(rows, i);
    let id = rows[i].id;
    assert(login_step(rows, credentials) == LoginStepView::Touch(id));
    assert(id_taken(rows, id));
    assert forall|k: int| 0 <= k < rows.len() && k != i implies (#[trigger] rows[k]).id != id by {
        if k < i {
            assert(rows[k].id != rows[i].id);
        } else {
            assert(rows[i].id != rows[k].id);
        }
    }
    assert(after_touch(rows, id, now) =~= rows.update(i, with_last_login(rows[i], now)));
}

/// A login with a wrong password is answered 400 and leaves the table, and
/// with it every last login, as it was.
pub proof fn lemma_wrong_password_changes_nothing(
    rows: Seq<UserRecord>,
    credentials: Credentials,
    now: Timestamp,
    i: int,
)
    requires
        table_ok(rows),
        0 <= i < rows.len(),
        rows[i].username == credentials.username,
        rows[i].password_hash matches Some(hash) && verification(credentials.password, hash)
            == Ok::<bool, CredentialError>(false),
    ensures
        login_response(rows, credentials) == invalid_credentials(),
        login_response(rows, credentials).status == STATUS_BAD_REQUEST,
        login_table(rows, credentials, now) == rows,
{
    lemma_username_names_one_row(rows, i);
}

/// A login for a username that the table does not hold and a login with a
/// wrong password for one that it holds are answered alike, in status and in
/// body, and neither changes the table: the answer does not tell which
/// usernames exist.
pub proof fn lemma_login_hides_usernames(
    rows: Seq<UserRecord>,
    unknown: Credentials,
    mistaken: Credentials,
    now: Timestamp,
    i: int,
)
    requires
        table_ok(rows),
        !username_taken(rows, unknown.username),
        0 <= i < rows.len(),
        rows[i].username == mistaken.username,
        rows[i].password_hash matches Some(hash) && verification(mistaken.password, hash)
            == Ok::<bool, CredentialError>(false),
    ensures
        login_response(rows, unknown) == login_response(rows, mistaken),
        login_response(rows, unknown) == invalid_credentials(),
        login_table(rows, unknown, now) == rows,
        login_table(rows, mistaken, now) == rows,
{
    lemma_wrong_password_changes_nothing(rows, mistaken, now, i);
}

/// While an account exists, the update of its last login succeeds, however
/// often it is repeated: the account is still there after each update. The
/// table after two updates is the table after the second alone, so the last
/// login is the instant of the latest update, and it never moves back while
/// the clock does not.
pub proof fn lemma_touch_repeats(
    rows: Seq<UserRecord>,
    i: int,
    earlier: Timestamp,
    later: Timestamp,
)
    requires
        table_ok(rows),
        0 <= i < rows.len(),
        earlier.micros <= later.micros,
    ensures
        ({
            let id = rows[i].id;
            let once = after_touch(rows, id, earlier);
            let twice = after_touch(once, id, later);
            &&& touch_result(rows, id) is Ok
            &&& touch_result(once, id) is Ok
            &&& touch_result(twice, id) is Ok
            &&& once[i].last_login == Some(earlier)
            &&& twice[i].last_login == Some(later)
            &&& twice == after_touch(rows, id, later)
            &&& twice[i].last_login->0.micros >= once[i].last_login->0.micros
        }),
{
    let id = rows[i].id;
    let once = after_touch(rows, id, earlier);
    let twice = after_touch(once, id, later);
    assert(once[i].id == id);
    assert(twice[i].id == id);
    assert(twice =~= after_touch(rows, id, later));
}

/// A form whose username is empty is answered 400 with the message that
/// names the username, whatever its other fields hold, and no row is stored.
pub proof fn lemma_empty_username_is_rejected(
    rows: Seq<UserRecord>,
    form: SignUpForm,
    hashed: Result<Seq<char>, CredentialError>,
    id: u128,
    now: Timestamp,
)
    requires
        form.username.len() == 0,
    ensures
        sign_up_response(rows, sign_up_plan(form, hashed, id, now)) == field_empty(
            ValidationError::EmptyUsername,
        ),
        sign_up_table(rows, sign_up_plan(form, hashed, id, now)) == rows,
{
}

/// The list of users of an empty table is a success with an empty list.
pub proof fn lemma_empty_table_lists_nothing()
    ensures
        users_listed(redact_all(Seq::<UserRecord>::empty())) == (ResponseView {
            status: STATUS_OK,
            body: BodyView::Users(Seq::<UserRecord>::empty()),
        }),
{
    assert(redact_all(Seq::<UserRecord>::empty()) =~= Seq::<UserRecord>::empty());
}

} // verus!
