//! The `User` entity of an authentication layer: its data model, the rule that
//! decides which stored rows count as active, the form in which a user leaves
//! the process, password hashing for new users, and the decision that turns a
//! request's identity payload into an authenticated user.
//!
//! Database access and HTTP plumbing stand outside this crate; they hand the
//! functions here plain values and take plain values back.

mod identity;
mod password;
mod timestamp;
mod user;

pub use identity::{AuthError, IdentityPayload};
pub use password::{bcrypt_verifies, PasswordHashError, PASSWORD_HASH_COST};
pub use timestamp::Timestamp;
pub use user::{lemma_public_form_ignores_password, CreateUser, LookupError, NewUser, PublicUser, User};
