use vstd::prelude::*;

use crate::password::{check_result, hash_password, PasswordError};
use crate::tables::Users;

verus! {

/// What the store answered to a lookup by username.
#[derive(Clone, Debug, PartialEq, Eq)]
pub enum Lookup {
    Found(Users),
    Missing,
    Failed(String),
}

/// What the store answered to the write of a new user.
#[derive(Clone, Debug, PartialEq, Eq)]
pub enum Saved {
    /// Written, under the id that the store assigned.
    Stored(u64),
    /// The unique constraint on `username` refused the row.
    Duplicate,
    Failed(String),
}

/// What a registration or login attempt ends in.
#[derive(Clone, Debug, PartialEq, Eq)]
pub enum Outcome {
    Created { id: u64, username: String, status: i32 },
    Verified { id: u64, username: String, status: i32 },
    InvalidCredentials,
    DuplicateUsername,
    StorageError { message: String },
}

/// `Outcome` with its strings taken as character sequences.
pub enum OutcomeView {
    Created { id: u64, username: Seq<char>, status: i32 },
    Verified { id: u64, username: Seq<char>, status: i32 },
    InvalidCredentials,
    DuplicateUsername,
    StorageError { message: Seq<char> },
}

impl View for Outcome {
    type V = OutcomeView;

    open spec fn view(&self) -> OutcomeView {
        match self {
            Outcome::Created { id, username, status } => OutcomeView::Created {
                id: *id,
                username: username@,
                status: *status,
            },
            Outcome::Verified { id, username, status } => OutcomeView::Verified {
                id: *id,
                username: username@,
                status: *status,
            },
            Outcome::InvalidCredentials => OutcomeView::InvalidCredentials,
            Outcome::DuplicateUsername => OutcomeView::DuplicateUsername,
            Outcome::StorageError { message } => OutcomeView::StorageError { message: message@ },
        }
    }
}

/// What the caller does next on behalf of an attempt.
#[derive(Clone, Debug, PartialEq, Eq)]
pub enum Action {
    /// Write this new row, then hand the store's answer to `after_save`.
    Save(Users),
    /// The attempt is over.
    Finish(Outcome),
}

/// The message of the storage error that ends an attempt whose password
/// could not be hashed, or whose stored hash could not be read.
pub open spec fn password_failure_message() -> Seq<char> {
    "password hash failed"@
}

/// The outcome for an existing user once the password check has answered.
pub open spec fn verdict_spec(user: Users, check: Result<bool, PasswordError>) -> OutcomeView {
    match check {
        Ok(true) => OutcomeView::Verified { id: user.id, username: user.username@, status: user.status },
        Ok(false) => OutcomeView::InvalidCredentials,
        Err(_) => OutcomeView::StorageError { message: password_failure_message() },
    }
}

/// The outcome for an existing user who offers `password`.
pub open spec fn existing_user_spec(user: Users, password: Seq<char>) -> OutcomeView {
    verdict_spec(user, check_result(password, user.password@))
}

/// The outcome of writing the new row `user`, given the store's answer.
pub open spec fn save_outcome_spec(user: Users, saved: Saved) -> OutcomeView {
    match saved {
        Saved::Stored(id) => OutcomeView::Created { id, username: user.username@, status: user.status },
        Saved::Duplicate => OutcomeView::DuplicateUsername,
        Saved::Failed(m) => OutcomeView::StorageError { message: m@ },
    }
}

fn password_failure() -> (r: Outcome)
    ensures
        r@ == (OutcomeView::StorageError { message: password_failure_message() }),
{
    proof {
        reveal_strlit("password hash failed");
    }
    Outcome::StorageError { message: "password hash failed".to_string() }
}

/// Decides the outcome for an existing user from the answer of the password check.
pub fn verdict(user: &Users, check: Result<bool, PasswordError>) -> (r: Outcome)
    ensures
        r@ == verdict_spec(*user, check),
{
    match check {
        Ok(true) => Outcome::Verified {
            id: user.id,
            username: user.username.clone(),
            status: user.status,
        },
        Ok(false) => Outcome::InvalidCredentials,
        Err(_) => password_failure(),
    }
}

/// Decides the outcome of an attempt whose new row `user` the store was asked
/// to write.
pub fn after_save(user: &Users, saved: Saved) -> (r: Outcome)
    ensures
        r@ == save_outcome_spec(*user, saved),
{
    match saved {
        Saved::Stored(id) => Outcome::Created { id, username: user.username.clone(), status: user.status },
        Saved::Duplicate => Outcome::DuplicateUsername,
        Saved::Failed(message) => Outcome::StorageError { message },
    }
}

/// Decides what follows for a name that the store does not hold, once its
/// password has been hashed: write a new row with that hash, or end the
/// attempt where hashing failed.
pub fn register_action(username: &str, status: i32, hashed: Result<String, PasswordError>) -> (r: Action)
    ensures
        hashed matches Ok(h) ==> r matches Action::Save(user) && user.id == 0 && user.username@
            == username@ && user.password == h && user.status == status,
        hashed is Err ==> (r matches Action::Finish(out) && out@ == (OutcomeView::StorageError {
            message: password_failure_message(),
        })),
{
    match hashed {
        Ok(password) => Action::Save(Users { id: 0, username: username.to_string(), password, status }),
        Err(_) => Action::Finish(password_failure()),
    }
}

/// Decides what follows the lookup of `username`: an existing user has the
/// password checked and the attempt ends; an absent one gets a new row with a
/// freshly hashed password, to be written; a failed lookup ends the attempt
/// with its message. Nothing is written for an existing user.
pub fn after_lookup(username: &str, password: &str, status: i32, lookup: Lookup) -> (r: Action)
    ensures
        lookup matches Lookup::Found(user) ==> r matches Action::Finish(out) && out@
            == existing_user_spec(user, password@),
        lookup is Missing ==> match r {
            Action::Save(user) => user.is_new_for(username@, password@, status),
            Action::Finish(out) => out@ == (OutcomeView::StorageError {
                message: password_failure_message(),
            }),
        },
        lookup matches Lookup::Failed(m) ==> r matches Action::Finish(out) && out@
            == (OutcomeView::StorageError { message: m@ }),
{
    match lookup {
        Lookup::Found(user) => {
            let check = user.check_password(password);
            Action::Finish(verdict(&user, check))
        },
        Lookup::Missing => register_action(username, status, hash_password(password)),
        Lookup::Failed(message) => Action::Finish(Outcome::StorageError { message }),
    }
}

/// `pat` occurs in `s` starting at position `i`.
pub open spec fn occurs_at(s: Seq<char>, pat: Seq<char>, i: int) -> bool {
    &&& 0 <= i
    &&& i + pat.len() <= s.len()
    &&& s.subrange(i, i + pat.len()) == pat
}

/// `pat` occurs somewhere in `s`.
pub open spec fn has_infix(s: Seq<char>, pat: Seq<char>) -> bool {
    exists|i: int| occurs_at(s, pat, i)
}

/// The words with which the store reports a row refused by a unique constraint.
pub open spec fn unique_violation_marker() -> Seq<char> {
    "UNIQUE constraint failed"@
}

fn matches_at(s: &str, pat: &str, i: usize) -> (r: bool)
    requires
        i <= s@.len(),
    ensures
        r == occurs_at(s@, pat@, i as int),
{
    let n = s.unicode_len();
    let m = pat.unicode_len();
    if m > n - i {
        return false;
    }
    let mut j: usize = 0;
    while j < m
        invariant
            n == s@.len(),
            m == pat@.len(),
            i + m <= n,
            j <= m,
            forall|k: int| 0 <= k < j ==> s@[i + k] == pat@[k],
        decreases m - j,
    {
        if s.get_char(i + j) != pat.get_char(j) {
            proof {
                assert(s@.subrange(i as int, i + m)[j as int] == s@[i + j]);
            }
            return false;
        }
        j += 1;
    }
    proof {
        assert(s@.subrange(i as int, i + m) =~= pat@);
    }
    true
}

/// Whether `pat` occurs in `s`.
pub fn contains_text(s: &str, pat: &str) -> (r: bool)
    ensures
        r == has_infix(s@, pat@),
{
    let n = s.unicode_len();
    let mut i: usize = 0;
    while i < n
        invariant
            n == s@.len(),
            i <= n,
            forall|k: int| 0 <= k < i ==> !occurs_at(s@, pat@, k),
        decreases n - i,
    {
        if matches_at(s, pat, i) {
            return true;
        }
        i += 1;
    }
    matches_at(s, pat, n)
}

/// Turns the message of a failed write into the store's answer: a refusal by
/// the unique constraint is a duplicate username, anything else a storage
/// failure that carries the message.
pub fn save_failure(message: String) -> (r: Saved)
    ensures
        has_infix(message@, unique_violation_marker()) ==> r is Duplicate,
        !has_infix(message@, unique_violation_marker()) ==> r == Saved::Failed(message),
{
    proof {
        reveal_strlit("UNIQUE constraint failed");
    }
    if contains_text(message.as_str(), "UNIQUE constraint failed") {
        Saved::Duplicate
    } else {
        Saved::Failed(message)
    }
}

/// Every row of the user relation is filed under its own username.
pub open spec fn rows_wf(rows: Map<Seq<char>, Users>) -> bool {
    forall|k: Seq<char>| #[trigger] rows.contains_key(k) ==> rows[k].username@ == k
}

/// What the store answers to a lookup of `username` in `rows`.
pub open spec fn lookup_spec(rows: Map<Seq<char>, Users>, username: Seq<char>) -> Lookup {
    if rows.contains_key(username) {
        Lookup::Found(rows[username])
    } else {
        Lookup::Missing
    }
}

/// The rows after a write of the new row `user` under the id `id`, and the
/// store's answer: the unique constraint on `username` refuses a second row
/// for a name, and leaves the rows as they were.
pub open spec fn store_spec(rows: Map<Seq<char>, Users>, user: Users, id: u64) -> (Map<Seq<char>, Users>, Saved) {
    if rows.contains_key(user.username@) {
        (rows, Saved::Duplicate)
    } else {
        (
            rows.insert(user.username@, Users { id, username: user.username, password: user.password, status: user.status }),
            Saved::Stored(id),
        )
    }
}

} // verus!
