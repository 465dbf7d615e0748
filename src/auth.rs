use vstd::prelude::*;

verus! {

/// uuid's `Uuid`: a user's identifier, carried through unread.
#[verifier::external_type_specification]
#[verifier::external_body]
pub struct ExUuid(uuid::Uuid);

/// uuid's `Clone` for `Uuid`, reached when an identity is copied.
pub assume_specification[ <uuid::Uuid as core::clone::Clone>::clone ](u: &uuid::Uuid) -> uuid::Uuid;

/// What a valid access token says about its bearer.
#[derive(Debug, Clone)]
pub struct TokenClaims {
    pub user_id: uuid::Uuid,
    pub email: String,
    pub roles: Vec<String>,
    /// Expiry, in seconds since the Unix epoch.
    pub exp: i64,
}

/// The authenticated user of a request.
#[derive(Debug, Clone)]
pub struct Identity {
    pub user_id: uuid::Uuid,
    pub email: String,
    pub roles: Vec<String>,
}

impl Identity {
    /// The identity that a token's claims describe.
    pub fn from_claims(claims: TokenClaims) -> (r: Identity)
        ensures
            r.user_id == claims.user_id,
            r.email == claims.email,
            r.roles == claims.roles,
    {
        Identity { user_id: claims.user_id, email: claims.email, roles: claims.roles }
    }

    /// Whether the user holds `role`.
    pub fn has_role(&self, role: &str) -> (r: bool)
        ensures
            r == exists|i: int| 0 <= i < self.roles@.len() && self.roles@[i]@ == role@,
    {
        let wanted = role.to_owned();
        let mut i: usize = 0;
        while i < self.roles.len()
            invariant
                0 <= i <= self.roles@.len(),
                wanted@ == role@,
                forall|j: int| 0 <= j < i ==> self.roles@[j]@ != role@,
            decreases self.roles@.len() - i,
        {
            if self.roles[i] == wanted {
                return true;
            }
            i += 1;
        }
        false
    }
}

} // verus!
