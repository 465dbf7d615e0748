use apex::auth::{Identity, TokenClaims};

fn claims(roles: &[&str]) -> TokenClaims {
    TokenClaims {
        user_id: uuid::Uuid::from_u128(7),
        email: "test@example.com".to_string(),
        roles: roles.iter().map(|r| r.to_string()).collect(),
        exp: 0,
    }
}

#[test]
fn identity_from_claims_keeps_fields() {
    let id = Identity::from_claims(claims(&["user"]));
    assert_eq!(id.user_id, uuid::Uuid::from_u128(7));
    assert_eq!(id.email, "test@example.com");
    assert_eq!(id.roles, vec!["user".to_string()]);
}

#[test]
fn identity_role_check() {
    let id = Identity::from_claims(claims(&["user", "admin"]));
    assert!(id.has_role("admin"));
    assert!(id.has_role("user"));
    assert!(!id.has_role("owner"));
    assert!(!Identity::from_claims(claims(&[])).has_role("user"));
}
