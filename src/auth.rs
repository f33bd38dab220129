use vstd::prelude::*;
use crate::error::AppError;
use crate::text::str_eq;

verus! {

/// The caller named by a bearer token.
pub struct AuthUser {
    pub id: String,
    pub email: String,
    pub role: Option<String>,
}

/// The user that the identity provider vouches for with `token`.
///
/// Tokens are issued and checked by the identity provider; the core only
/// refuses an empty one. Every other token stands for the provider's
/// standard user, with no role.
pub fn extract_user_from_token(token: &str) -> (r: Result<AuthUser, AppError>)
    ensures
        token@.len() == 0 <==> r is Err,
        r matches Err(e) ==> (e matches AppError::Authentication(m) && m@ == "Token is empty"@),
        r matches Ok(u) ==> u.id@ == "user-uuid-from-jwt"@ && u.email@ == "user@example.com"@
            && u.role is None,
{
    if token.is_empty() {
        return Err(AppError::authentication("Token is empty"));
    }
    Ok(
        AuthUser {
            id: String::from_str("user-uuid-from-jwt"),
            email: String::from_str("user@example.com"),
            role: None,
        },
    )
}

/// Whether a request carries a token that the provider accepts.
pub fn is_authenticated(token: Option<&str>) -> (r: bool)
    ensures
        r == (token matches Some(t) && t@.len() > 0),
{
    match token {
        Some(t) => {
            if t.is_empty() {
                false
            } else {
                extract_user_from_token(t).is_ok()
            }
        },
        None => false,
    }
}

/// Whether a request's token names a user with the `admin` role. No user
/// that `extract_user_from_token` yields carries a role, so none is admin.
pub fn is_admin(token: Option<&str>) -> (r: bool)
    ensures
        !r,
{
    match token {
        Some(t) => match extract_user_from_token(t) {
            Ok(user) => match &user.role {
                Some(role) => str_eq(role.as_str(), "admin"),
                None => false,
            },
            Err(_) => false,
        },
        None => false,
    }
}

} // verus!
