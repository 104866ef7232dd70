use rest_backend::auth::{admin_guard, authenticated, bearer_token, AuthenticatedUser, JsonWebTokenClaims, ADMIN_ROLE};
use rest_backend::error::{ApiError, DbFailure};

fn claims(sub: i32) -> JsonWebTokenClaims {
    JsonWebTokenClaims { sub, exp: 1_700_000_000, name: "Ana".to_string(), email: "ana@x.io".to_string() }
}

#[test]
fn missing_header_is_unauthorized() {
    assert_eq!(bearer_token(None).unwrap_err(), ApiError::Unauthorized);
}

#[test]
fn header_without_bearer_prefix_is_unauthorized() {
    assert_eq!(bearer_token(Some("Basic abc")).unwrap_err(), ApiError::Unauthorized);
    assert_eq!(bearer_token(Some("bearer abc")).unwrap_err(), ApiError::Unauthorized);
    assert_eq!(bearer_token(Some("Bearer")).unwrap_err(), ApiError::Unauthorized);
    assert_eq!(bearer_token(Some("")).unwrap_err(), ApiError::Unauthorized);
}

#[test]
fn bearer_token_is_extracted_and_trimmed() {
    assert_eq!(bearer_token(Some("Bearer abc.def.ghi")).unwrap(), "abc.def.ghi");
    assert_eq!(bearer_token(Some("Bearer   abc \t")).unwrap(), "abc");
    assert_eq!(bearer_token(Some("Bearer Bearer abc")).unwrap(), "abc");
    assert_eq!(bearer_token(Some("Bearer ")).unwrap(), "");
    assert_eq!(bearer_token(Some("Bearer \u{3000}tok\u{a0}")).unwrap(), "tok");
}

#[test]
fn undecodable_token_is_unauthorized() {
    assert_eq!(authenticated(None).err(), Some(ApiError::Unauthorized));
    let user = authenticated(Some(claims(4))).ok().unwrap();
    assert_eq!(user.0.sub, 4);
}

#[test]
fn admin_guard_admits_admin() {
    let g = admin_guard(AuthenticatedUser(claims(7)), Ok(Some(true))).ok().unwrap();
    assert_eq!(g.0.sub, 7);
    assert_eq!(g.0.email, "ana@x.io");
}

#[test]
fn admin_guard_forbids_non_admin() {
    assert_eq!(admin_guard(AuthenticatedUser(claims(7)), Ok(Some(false))).err(), Some(ApiError::Forbidden));
    assert_eq!(admin_guard(AuthenticatedUser(claims(7)), Ok(None)).err(), Some(ApiError::Forbidden));
}

#[test]
fn admin_guard_treats_query_failure_as_no_role() {
    assert_eq!(admin_guard(AuthenticatedUser(claims(7)), Err(DbFailure)).err(), Some(ApiError::Forbidden));
}

#[test]
fn admin_role_name() {
    assert_eq!(ADMIN_ROLE, "ADMIN");
}

#[test]
fn error_status_codes() {
    assert_eq!(ApiError::Unauthorized.status_code(), 401);
    assert_eq!(ApiError::Forbidden.status_code(), 403);
    assert_eq!(ApiError::BadRequest.status_code(), 400);
    assert_eq!(ApiError::NotFound.status_code(), 404);
    assert_eq!(ApiError::Internal.status_code(), 500);
}
