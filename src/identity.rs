use vstd::prelude::*;

use crate::user::{PublicUser, User};

verus! {

/// What a request's identity held, once its payload was read and decoded as
/// the public form of a user.
#[derive(Clone, Debug, PartialEq, Eq)]
pub enum IdentityPayload {
    /// The request carries no identity.
    Missing,
    /// The identity payload is not JSON, or not JSON of a user's public form.
    Malformed,
    /// The identity payload decoded to this public form.
    Decoded(PublicUser),
}

/// Why a request could not be turned into an authenticated user.
#[derive(Clone, Copy, Debug, PartialEq, Eq, Structural)]
pub enum AuthError {
    Unauthorized,
}

impl User {
    /// The authenticated user of a request, from its identity payload. The
    /// payload is trusted as it stands: the store is not asked again. Any
    /// failure along the way is `Unauthorized`.
    pub fn from_identity(payload: IdentityPayload) -> (r: Result<User, AuthError>)
        ensures
            r is Ok <==> payload is Decoded,
            r matches Ok(u) ==> payload == IdentityPayload::Decoded(u.public_view()),
            r matches Ok(u) ==> u.password@.len() == 0,
            r matches Err(e) ==> e == AuthError::Unauthorized,
    {
        match payload {
            IdentityPayload::Decoded(p) => Ok(User::from_public(p)),
            _ => Err(AuthError::Unauthorized),
        }
    }
}

} // verus!
