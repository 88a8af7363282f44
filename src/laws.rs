use vstd::prelude::*;

use crate::account::{
    existing_user_spec, lookup_spec, rows_wf, save_outcome_spec, store_spec, Lookup, OutcomeView,
    Saved,
};
use crate::password::pbkdf2_check;
use crate::tables::Users;

verus! {

/// Registering a name that the store does not hold creates the user under
/// the id the store assigns; a later attempt with the same name and password
/// finds that row and is verified.
pub proof fn register_then_verify(
    rows: Map<Seq<char>, Users>,
    username: Seq<char>,
    password: Seq<char>,
    status: i32,
    user: Users,
    id: u64,
)
    requires
        rows_wf(rows),
        !rows.contains_key(username),
        user.is_new_for(username, password, status),
    ensures
        lookup_spec(rows, username) is Missing,
        store_spec(rows, user, id).1 == Saved::Stored(id),
        save_outcome_spec(user, store_spec(rows, user, id).1) == (OutcomeView::Created {
            id,
            username,
            status,
        }),
        rows_wf(store_spec(rows, user, id).0),
        lookup_spec(store_spec(rows, user, id).0, username) matches Lookup::Found(row)
            && existing_user_spec(row, password) == (OutcomeView::Verified { id, username, status }),
{
    let after = store_spec(rows, user, id).0;
    assert forall|k: Seq<char>| #[trigger] after.contains_key(k) implies after[k].username@ == k by {
        if k != username {
            assert(rows.contains_key(k));
        }
    }
}

/// An attempt on a name that the store holds never creates a user: it is
/// verified when the password matches the stored hash, refused when it does
/// not, and the row is left as it was.
pub proof fn registered_never_created(
    rows: Map<Seq<char>, Users>,
    username: Seq<char>,
    password: Seq<char>,
)
    requires
        rows_wf(rows),
        rows.contains_key(username),
    ensures
        lookup_spec(rows, username) matches Lookup::Found(row) && {
            let out = existing_user_spec(row, password);
            &&& !(out is Created)
            &&& pbkdf2_check(password, row.password@) == Some(true) ==> out == (OutcomeView::Verified {
                id: row.id,
                username,
                status: row.status,
            })
            &&& pbkdf2_check(password, row.password@) == Some(false) ==> out is InvalidCredentials
        },
{
}

/// Two attempts that register one unused name: once the first has written its
/// row, the second either finds that row at its lookup and is verified or
/// refused, or, had its lookup come first, has its own write refused as a
/// duplicate. Neither way is a second user created.
pub proof fn no_second_creation(
    rows: Map<Seq<char>, Users>,
    username: Seq<char>,
    first: Users,
    first_id: u64,
    second: Users,
    second_id: u64,
    second_password: Seq<char>,
)
    requires
        rows_wf(rows),
        !rows.contains_key(username),
        first.username@ == username,
        second.username@ == username,
    ensures
        store_spec(rows, first, first_id).1 == Saved::Stored(first_id),
        store_spec(store_spec(rows, first, first_id).0, second, second_id) == (
            store_spec(rows, first, first_id).0,
            Saved::Duplicate,
        ),
        save_outcome_spec(second, Saved::Duplicate) is DuplicateUsername,
        lookup_spec(store_spec(rows, first, first_id).0, username) matches Lookup::Found(row) && row.id
            == first_id && !(existing_user_spec(row, second_password) is Created),
{
}

} // verus!
