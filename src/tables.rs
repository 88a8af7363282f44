use vstd::prelude::*;

use crate::password::{
    check_result, hash_password, pbkdf2_check, starts_as_phc, verify_password, PasswordError,
};

verus! {

/// One account: a unique username, the hash of its password and a
/// permission level. The store assigns `id` when the row is written.
#[derive(Clone, Debug, PartialEq, Eq)]
pub struct Users {
    pub id: u64,
    pub username: String,
    /// The PHC hash of the password, never the plaintext.
    pub password: String,
    pub status: i32,
}

/// An electronic component held in stock.
#[derive(Clone, Debug, PartialEq, Eq)]
pub struct Components {
    pub id: u64,
    pub type_id: i32,
    pub value: String,
    pub quantity: u64,
    pub footprint: String,
    /// The `id` of a row of `Vendors`.
    pub vendor_id: i32,
    pub description: String,
    pub vendor_part_number: String,
    pub price: i32,
}

/// A supplier of components, looked up by `name`.
#[derive(Clone, Debug, PartialEq, Eq)]
pub struct Vendors {
    pub id: u64,
    pub url: String,
    pub description: String,
    pub name: String,
}

/// A kind of component.
#[derive(Clone, Debug, PartialEq, Eq)]
pub struct Types {
    pub id: u64,
    pub name: String,
    pub description: String,
}

impl Users {
    /// A row not yet written, for `username` with a hash of `password`: the
    /// store has assigned it no id.
    pub open spec fn is_new_for(self, username: Seq<char>, password: Seq<char>, status: i32) -> bool {
        &&& self.id == 0
        &&& self.username@ == username
        &&& self.status == status
        &&& pbkdf2_check(password, self.password@) == Some(true)
        &&& starts_as_phc(self.password@)
    }

    /// Builds an unsaved user, hashing `password` with a fresh salt.
    pub fn new(username: &str, password: &str, status: i32) -> (r: Result<Users, PasswordError>)
        ensures
            r matches Ok(u) ==> u.is_new_for(username@, password@, status),
            r is Err ==> r == Err::<Users, PasswordError>(PasswordError::HashingFailed),
    {
        match hash_password(password) {
            Ok(hash) => Ok(Users { id: 0, username: username.to_string(), password: hash, status }),
            Err(e) => Err(e),
        }
    }

    /// Checks a plaintext password against the stored hash.
    pub fn check_password(&self, password: &str) -> (r: Result<bool, PasswordError>)
        ensures
            r == check_result(password@, self.password@),
    {
        verify_password(password, self.password.as_str())
    }
}

} // verus!
