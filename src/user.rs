use vstd::prelude::*;

use crate::password::{bcrypt_hash, bcrypt_verifies, PasswordHashError, PASSWORD_HASH_COST};
use crate::timestamp::Timestamp;

verus! {

/// A stored user.
///
/// `password` holds the salted hash of the user's password, never the
/// plaintext. A user is active exactly when `deleted_at` is absent; lookups
/// only ever yield active users.
#[derive(Clone, Debug, PartialEq, Eq)]
pub struct User {
    pub id: i64,
    pub email: String,
    pub password: String,
    pub full_name: String,
    pub created_at: Timestamp,
    pub updated_at: Timestamp,
    pub deleted_at: Option<Timestamp>,
}

/// The request to create a user: the password here is plaintext.
#[derive(Clone, Debug, PartialEq, Eq)]
pub struct CreateUser {
    pub email: String,
    pub password: String,
    pub full_name: String,
}

/// The values a new row is inserted with: the password is already hashed.
#[derive(Clone, Debug, PartialEq, Eq)]
pub struct NewUser {
    pub email: String,
    pub password: String,
    pub full_name: String,
}

/// The form in which a user leaves the process (and comes back, through the
/// identity payload): every field of `User` but the password.
#[derive(Clone, Debug, PartialEq, Eq)]
pub struct PublicUser {
    pub id: i64,
    pub email: String,
    pub full_name: String,
    pub created_at: Timestamp,
    pub updated_at: Timestamp,
    pub deleted_at: Option<Timestamp>,
}

/// Why a lookup yielded no user.
#[derive(Clone, Copy, Debug, PartialEq, Eq, Structural)]
pub enum LookupError {
    /// No active row matches the key.
    NotFound,
}

impl User {
    /// A user is active while it carries no deletion time.
    pub open spec fn active(&self) -> bool {
        self.deleted_at is None
    }

    /// The public form of this user.
    pub open spec fn public_view(&self) -> PublicUser {
        PublicUser {
            id: self.id,
            email: self.email,
            full_name: self.full_name,
            created_at: self.created_at,
            updated_at: self.updated_at,
            deleted_at: self.deleted_at,
        }
    }

    /// Whether this user is active, that is, not soft-deleted.
    pub fn is_active(&self) -> (r: bool)
        ensures
            r == self.active(),
    {
        self.deleted_at.is_none()
    }
    /// The public form of this user: what may be shown or serialized.
    pub fn to_public(&self) -> (r: PublicUser)
        ensures
            r == self.public_view(),
    {
        PublicUser {
            id: self.id,
            email: self.email.clone(),
            full_name: self.full_name.clone(),
            created_at: self.created_at,
            updated_at: self.updated_at,
            deleted_at: self.deleted_at,
        }
    }

    /// The user that a public form stands for. The password is not part of
    /// the public form, so it comes back empty.
    pub fn from_public(p: PublicUser) -> (r: User)
        ensures
            r.public_view() == p,
            r.password@.len() == 0,
    {
        User {
            id: p.id,
            email: p.email,
            password: String::new(),
            full_name: p.full_name,
            created_at: p.created_at,
            updated_at: p.updated_at,
            deleted_at: p.deleted_at,
        }
    }

    /// The outcome of a lookup by id, given the row that the store returned
    /// for it, if any: a user only when the row carries that id and is active.
    pub fn select_by_id(id: i64, row: Option<User>) -> (r: Result<User, LookupError>)
        ensures
            r is Ok <==> (row matches Some(u) && u.id == id && u.active()),
            r matches Ok(u) ==> row == Some(u),
            r matches Err(e) ==> e == LookupError::NotFound,
    {
        match row {
            Some(u) => {
                if u.id == id && u.is_active() {
                    Ok(u)
                } else {
                    Err(LookupError::NotFound)
                }
            },
            None => Err(LookupError::NotFound),
        }
    }

    /// The outcome of a lookup by email, given the row that the store
    /// returned for it, if any: a user only when the row carries that email
    /// and is active.
    pub fn select_by_email(email: &String, row: Option<User>) -> (r: Result<User, LookupError>)
        ensures
            r is Ok <==> (row matches Some(u) && u.email@ == email@ && u.active()),
            r matches Ok(u) ==> row == Some(u),
            r matches Err(e) ==> e == LookupError::NotFound,
    {
        match row {
            Some(u) => {
                if u.email == *email && u.is_active() {
                    Ok(u)
                } else {
                    Err(LookupError::NotFound)
                }
            },
            None => Err(LookupError::NotFound),
        }
    }
}

impl CreateUser {
    /// The values to insert for this request, given the hash of its password.
    pub fn with_password_hash(self, hash: String) -> (r: NewUser)
        ensures
            r.email == self.email,
            r.password == hash,
            r.full_name == self.full_name,
    {
        NewUser { email: self.email, password: hash, full_name: self.full_name }
    }

    /// The values to insert for this request: the password is replaced by
    /// its bcrypt hash under a fresh random salt. Fails only when hashing
    /// does, which this crate cannot rule out (the salt needs the system's
    /// randomness).
    pub fn hash_password(self) -> (r: Result<NewUser, PasswordHashError>)
        ensures
            r matches Ok(n) ==> {
                &&& n.email == self.email
                &&& n.full_name == self.full_name
                &&& bcrypt_verifies(self.password@, n.password@)
                &&& n.password@.len() == 60
                &&& n.password@[0] == '$'
            },
            r matches Ok(n) ==> (self.password@.len() != 60 || self.password@[0] != '$'
                ==> n.password@ != self.password@),
            r matches Err(e) ==> e == PasswordHashError::HashFailed,
    {
        match bcrypt_hash(self.password.as_str(), PASSWORD_HASH_COST) {
            Ok(hash) => Ok(self.with_password_hash(hash)),
            Err(_) => Err(PasswordHashError::HashFailed),
        }
    }
}

/// Serialization never carries the password: two users that differ in their
/// password alone have the same public form.
pub proof fn lemma_public_form_ignores_password(a: User, b: User)
    requires
        a.id == b.id,
        a.email == b.email,
        a.full_name == b.full_name,
        a.created_at == b.created_at,
        a.updated_at == b.updated_at,
        a.deleted_at == b.deleted_at,
    ensures
        a.public_view() == b.public_view(),
{
}

} // verus!
