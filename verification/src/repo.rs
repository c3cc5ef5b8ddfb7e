//! The user repository: the users table as a sequence of rows, and the
//! statements the service issues against it.

use vstd::prelude::*;
use std::borrow::ToOwned;
use vstd::string::StrSliceExecFns;
use crate::models::{NewUser, Timestamp, User, UserRecord};

verus! {

/// Why a statement against the users table failed.
#[derive(Clone, Copy, Debug, PartialEq, Eq, Structural)]
pub enum RepoError {
    /// No row matches.
    NotFound,
    /// The id or the username of the new row is already in the table.
    DuplicateKey,
    /// The store refused the statement, as the table refuses a value wider
    /// than its column.
    QueryFailed,
    /// The store could not be reached.
    StoreUnavailable,
}

/// The widest username, display name and role that the table stores.
pub const NAME_WIDTH: usize = 100;

/// The widest email address that the table stores.
pub const EMAIL_WIDTH: usize = 255;

/// Every text of the row fits its column.
pub open spec fn fits_columns(row: UserRecord) -> bool {
    &&& row.username.len() <= NAME_WIDTH
    &&& row.email.len() <= EMAIL_WIDTH
    &&& row.display_name.len() <= NAME_WIDTH
    &&& row.user_role.len() <= NAME_WIDTH
}

/// Some row of the table has this id.
pub open spec fn id_taken(rows: Seq<UserRecord>, id: u128) -> bool {
    exists|i: int| 0 <= i < rows.len() && (#[trigger] rows[i]).id == id
}

/// Some row of the table has this username.
pub open spec fn username_taken(rows: Seq<UserRecord>, username: Seq<char>) -> bool {
    exists|i: int| 0 <= i < rows.len() && (#[trigger] rows[i]).username == username
}

/// What the table guarantees of its rows: each fits its columns, the id is a
/// key, and no username occurs twice.
pub open spec fn table_ok(rows: Seq<UserRecord>) -> bool {
    &&& forall|i: int| 0 <= i < rows.len() ==> fits_columns(#[trigger] rows[i])
    &&& forall|i: int, j: int|
        0 <= i < j < rows.len() ==> (#[trigger] rows[i]).id != (#[trigger] rows[j]).id
    &&& forall|i: int, j: int|
        0 <= i < j < rows.len() ==> (#[trigger] rows[i]).username != (#[trigger] rows[j]).username
}

/// The row with this username, if there is one.
pub open spec fn find_by_username(rows: Seq<UserRecord>, username: Seq<char>) -> Option<
    UserRecord,
> {
    if username_taken(rows, username) {
        Some(
            rows[choose|i: int| 0 <= i < rows.len() && (#[trigger] rows[i]).username == username],
        )
    } else {
        None
    }
}

/// How the table answers the insertion of `row`.
pub open spec fn insert_result(rows: Seq<UserRecord>, row: UserRecord) -> Result<(), RepoError> {
    if !fits_columns(row) {
        Err(RepoError::QueryFailed)
    } else if id_taken(rows, row.id) || username_taken(rows, row.username) {
        Err(RepoError::DuplicateKey)
    } else {
        Ok(())
    }
}

/// The table after the insertion of `row` was tried: one row longer where the
/// table accepts the row, and as before where it does not.
pub open spec fn after_insert(rows: Seq<UserRecord>, row: UserRecord) -> Seq<UserRecord> {
    if insert_result(rows, row) is Ok {
        rows.push(row)
    } else {
        rows
    }
}

/// The row with its last login set to `at`, and nothing else changed.
pub open spec fn with_last_login(row: UserRecord, at: Timestamp) -> UserRecord {
    UserRecord { last_login: Some(at), ..row }
}

/// How the table answers the update of the last login of `id`.
pub open spec fn touch_result(rows: Seq<UserRecord>, id: u128) -> Result<(), RepoError> {
    if id_taken(rows, id) {
        Ok(())
    } else {
        Err(RepoError::NotFound)
    }
}

/// The table after every row with this id had its last login set to `at`.
pub open spec fn after_touch(rows: Seq<UserRecord>, id: u128, at: Timestamp) -> Seq<UserRecord> {
    Seq::new(
        rows.len(),
        |i: int|
            if rows[i].id == id {
                with_last_login(rows[i], at)
            } else {
                rows[i]
            },
    )
}

/// The users table, held in memory.
pub struct UserTable {
    rows: Vec<User>,
}

impl View for UserTable {
    type V = Seq<UserRecord>;

    closed spec fn view(&self) -> Seq<UserRecord> {
        Seq::new(self.rows@.len(), |i: int| self.rows@[i]@)
    }
}

impl UserTable {
    /// Holds of every table: see [`table_ok`].
    #[verifier::type_invariant]
    pub open spec fn well_formed(self) -> bool {
        table_ok(self@)
    }

    /// A table without rows.
    pub fn new() -> (table: UserTable)
        ensures
            table@ == Seq::<UserRecord>::empty(),
    {
        let table = UserTable { rows: Vec::new() };
        assert(table@ =~= Seq::<UserRecord>::empty());
        table
    }

    /// The number of rows.
    pub fn len(&self) -> (n: usize)
        ensures
            n == self@.len(),
    {
        self.rows.len()
    }
}

impl UserTable {
    /// The place of the first row with this username.
    fn position_of_username(&self, username: &String) -> (found: Option<usize>)
        ensures
            match found {
                Some(i) => i < self@.len() && self@[i as int].username == username@,
                None => !username_taken(self@, username@),
            },
    {
        let n = self.rows.len();
        let mut i: usize = 0;
        while i < n
            invariant
                n == self.rows@.len(),
                i <= n,
                forall|j: int| 0 <= j < i ==> (#[trigger] self@[j]).username != username@,
            decreases n - i,
        {
            if self.rows[i].username == *username {
                return Some(i);
            }
            i += 1;
        }
        None
    }

    /// The place of the first row with this id.
    fn position_of_id(&self, id: u128) -> (found: Option<usize>)
        ensures
            match found {
                Some(i) => i < self@.len() && self@[i as int].id == id,
                None => !id_taken(self@, id),
            },
    {
        let n = self.rows.len();
        let mut i: usize = 0;
        while i < n
            invariant
                n == self.rows@.len(),
                i <= n,
                forall|j: int| 0 <= j < i ==> (#[trigger] self@[j]).id != id,
            decreases n - i,
        {
            if self.rows[i].id == id {
                return Some(i);
            }
            i += 1;
        }
        None
    }
}

/// Whether `text` has at most `width` characters.
fn fits(text: &String, width: usize) -> (b: bool)
    ensures
        b == (text@.len() <= width),
{
    text.as_str().unicode_len() <= width
}

/// Inserts a new row into the users table. The table refuses a row with a
/// text wider than its column, and one whose id or username it already holds;
/// any other row is added at the end.
pub fn create_user(table: &mut UserTable, new_user: &NewUser) -> (r: Result<(), RepoError>)
    ensures
        r == insert_result(old(table)@, new_user@),
        final(table)@ == after_insert(old(table)@, new_user@),
{
    proof {
        use_type_invariant(&*table);
    }
    if !(fits(&new_user.username, NAME_WIDTH) && fits(&new_user.email, EMAIL_WIDTH) && fits(
        &new_user.display_name,
        NAME_WIDTH,
    ) && fits(&new_user.user_role, NAME_WIDTH)) {
        return Err(RepoError::QueryFailed);
    }
    if table.position_of_id(new_user.id).is_some() {
        return Err(RepoError::DuplicateKey);
    }
    if table.position_of_username(&new_user.username).is_some() {
        return Err(RepoError::DuplicateKey);
    }
    let mut rows: Vec<User> = Vec::new();
    core::mem::swap(&mut table.rows, &mut rows);
    rows.push(new_user.to_user());
    proof {
        let grown = Seq::new(rows@.len(), |i: int| rows@[i]@);
        assert(grown =~= old(table)@.push(new_user@));
        assert(table_ok(grown));
    }
    core::mem::swap(&mut table.rows, &mut rows);
    assert(table@ =~= old(table)@.push(new_user@));
    Ok(())
}

/// Sets the last login of the account with this id to `at`, and changes
/// nothing else. Fails with `NotFound` where the table holds no such account.
pub fn update_last_login_at(table: &mut UserTable, user_id: u128, at: Timestamp) -> (r: Result<
    (),
    RepoError,
>)
    ensures
        r == touch_result(old(table)@, user_id),
        final(table)@ == after_touch(old(table)@, user_id, at),
{
    proof {
        use_type_invariant(&*table);
    }
    match table.position_of_id(user_id) {
        None => {
            assert(table@ =~= after_touch(table@, user_id, at));
            Err(RepoError::NotFound)
        },
        Some(i) => {
            let mut rows: Vec<User> = Vec::new();
            core::mem::swap(&mut table.rows, &mut rows);
            rows[i].last_login = Some(at);
            proof {
                let touched = Seq::new(rows@.len(), |k: int| rows@[k]@);
                assert(touched =~= after_touch(old(table)@, user_id, at));
                assert(table_ok(touched));
            }
            core::mem::swap(&mut table.rows, &mut rows);
            assert(table@ =~= after_touch(old(table)@, user_id, at));
            Ok(())
        },
    }
}

/// The answer to an update that changed `affected` rows of a store: an
/// update that changed none found no account.
pub fn update_outcome(affected: usize) -> (r: Result<(), RepoError>)
    ensures
        r == (if affected == 0 {
            Err::<(), RepoError>(RepoError::NotFound)
        } else {
            Ok(())
        }),
{
    if affected == 0 {
        Err(RepoError::NotFound)
    } else {
        Ok(())
    }
}

/// The table after an update of the last login of `id`, made at some instant.
pub open spec fn touched(before: Seq<UserRecord>, id: u128, after: Seq<UserRecord>) -> bool {
    exists|at: Timestamp| after == #[trigger] after_touch(before, id, at)
}

/// Sets the last login of the account with this id to the current time, and
/// changes nothing else. Fails with `NotFound` where the table holds no such
/// account. The instant is the clock's: [`update_last_login_at`] takes it as
/// an argument.
pub fn update_last_login(table: &mut UserTable, user_id: u128) -> (r: Result<(), RepoError>)
    ensures
        r == touch_result(old(table)@, user_id),
        touched(old(table)@, user_id, final(table)@),
{
    let at = Timestamp::now();
    update_last_login_at(table, user_id, at)
}

/// What a search for `username` answers.
pub open spec fn fetch_result(rows: Seq<UserRecord>, username: Seq<char>) -> Result<
    UserRecord,
    RepoError,
> {
    match find_by_username(rows, username) {
        Some(row) => Ok(row),
        None => Err(RepoError::NotFound),
    }
}

/// The view of a fetched account, or the error in its place.
pub open spec fn fetched_view(fetched: Result<User, RepoError>) -> Result<UserRecord, RepoError> {
    match fetched {
        Ok(user) => Ok(user@),
        Err(e) => Err(e),
    }
}

/// Fetches the account with this username. Fails with `NotFound` where the
/// table holds none.
pub fn get_user_by_username(table: &UserTable, target_username: &str) -> (r: Result<
    User,
    RepoError,
>)
    ensures
        fetched_view(r) == fetch_result(table@, target_username@),
{
    proof {
        use_type_invariant(table);
    }
    let wanted = target_username.to_owned();
    match table.position_of_username(&wanted) {
        None => Err(RepoError::NotFound),
        Some(i) => {
            assert(table@[i as int].username == target_username@);
            Ok(table.rows[i].clone())
        },
    }
}

/// The views of a list of accounts.
pub open spec fn records(users: Seq<User>) -> Seq<UserRecord> {
    Seq::new(users.len(), |i: int| users[i]@)
}

/// The views of a list of accounts, or the error in its place.
pub open spec fn loaded_view(loaded: Result<Vec<User>, RepoError>) -> Result<
    Seq<UserRecord>,
    RepoError,
> {
    match loaded {
        Ok(users) => Ok(records(users@)),
        Err(e) => Err(e),
    }
}

/// Every account of the table, in the order of insertion. The table in
/// memory always answers.
pub fn list_users(table: &UserTable) -> (r: Result<Vec<User>, RepoError>)
    ensures
        loaded_view(r) == Ok::<Seq<UserRecord>, RepoError>(table@),
{
    let n = table.rows.len();
    let mut users: Vec<User> = Vec::new();
    let mut i: usize = 0;
    while i < n
        invariant
            n == table.rows@.len(),
            i <= n,
            users@.len() == i,
            forall|k: int| 0 <= k < i ==> (#[trigger] users@[k])@ == table@[k],
        decreases n - i,
    {
        users.push(table.rows[i].clone());
        i += 1;
    }
    assert(records(users@) =~= table@);
    Ok(users)
}

} // verus!
