//! Behaviour of login, verification and invalidation on concrete values.

use session_core::controller::SessionController;
use session_core::errors::{UserInvalidateError, UserLoginError, UserVerifyError};
use session_core::types::{
    role_permissions, AccessToken, Permission, Role, UserId, MILLIS_PER_DAY, PERM_MANAGE_USERS,
    PERM_VIEW_SUBMISSIONS, SESSION_TTL_MILLIS,
};

#[test]
fn end_to_end_scenario() {
    let mut c = SessionController::default();
    let r = c.login_at(Ok((UserId(1), Role::User)), AccessToken(7), 1_000);
    assert_eq!(r, Ok((UserId(1), AccessToken(7), Role::User)));
    assert_eq!(c.verify_session_at(AccessToken(7), vec![], 1_001), Ok(UserId(1)));
    assert_eq!(c.invalidate(UserId(1), AccessToken(7)), Ok(()));
    assert_eq!(
        c.verify_session_at(AccessToken(7), vec![], 1_002),
        Err(UserVerifyError::InvalidAccessToken)
    );
}

#[test]
fn login_propagates_credential_failures() {
    let mut c = SessionController::default();
    assert_eq!(
        c.login_at(Err(UserLoginError::InvalidCredentials), AccessToken(7), 0),
        Err(UserLoginError::InvalidCredentials)
    );
    assert_eq!(
        c.login(Err(UserLoginError::ExternalServiceError)),
        Err(UserLoginError::ExternalServiceError)
    );
    assert_eq!(
        c.verify_session_at(AccessToken(7), vec![], 0),
        Err(UserVerifyError::InvalidAccessToken)
    );
}

#[test]
fn token_collision_is_refused_not_overwritten() {
    let mut c = SessionController::default();
    assert!(c.login_at(Ok((UserId(1), Role::User)), AccessToken(7), 0).is_ok());
    assert_eq!(
        c.login_at(Ok((UserId(2), Role::Admin)), AccessToken(7), 0),
        Err(UserLoginError::DatabaseError)
    );
    // the first user's session is untouched
    assert_eq!(c.verify_session_at(AccessToken(7), vec![], 1), Ok(UserId(1)));
}

#[test]
fn successful_logins_return_distinct_tokens() {
    let mut c = SessionController::default();
    let t1 = c.login(Ok((UserId(1), Role::User))).expect("first login").1;
    let t2 = c.login(Ok((UserId(1), Role::User))).expect("second login").1;
    assert_ne!(t1, t2);
    let t3 = c.login(Ok((UserId(2), Role::Admin))).expect("third login").1;
    assert_ne!(t1, t3);
    assert_ne!(t2, t3);
}

#[test]
fn session_valid_at_29_days_invalid_at_31() {
    let t0: i64 = 5_000;
    let mut c = SessionController::default();
    c.login_at(Ok((UserId(1), Role::User)), AccessToken(7), t0).unwrap();
    assert_eq!(
        c.verify_session_at(AccessToken(7), vec![], t0 + 29 * MILLIS_PER_DAY),
        Ok(UserId(1))
    );

    let mut c = SessionController::default();
    c.login_at(Ok((UserId(1), Role::User)), AccessToken(7), t0).unwrap();
    assert_eq!(
        c.verify_session_at(AccessToken(7), vec![], t0 + 31 * MILLIS_PER_DAY),
        Err(UserVerifyError::TokenTimedOut)
    );
    // eviction happened: absence, not a second timeout
    assert_eq!(
        c.verify_session_at(AccessToken(7), vec![], t0 + 31 * MILLIS_PER_DAY),
        Err(UserVerifyError::InvalidAccessToken)
    );
}

#[test]
fn expiry_boundary_is_already_expired() {
    let t0: i64 = 0;
    let mut c = SessionController::default();
    c.login_at(Ok((UserId(1), Role::User)), AccessToken(7), t0).unwrap();
    // one tick before the expiry instant the session is still valid
    assert_eq!(
        c.verify_session_at(AccessToken(7), vec![], t0 + SESSION_TTL_MILLIS - 1),
        Ok(UserId(1))
    );
    // at exactly the expiry instant it is expired
    let mut c = SessionController::default();
    c.login_at(Ok((UserId(1), Role::User)), AccessToken(7), t0).unwrap();
    assert_eq!(
        c.verify_session_at(AccessToken(7), vec![], t0 + SESSION_TTL_MILLIS),
        Err(UserVerifyError::TokenTimedOut)
    );
}

#[test]
fn invalidate_ownership() {
    let mut c = SessionController::default();
    c.login_at(Ok((UserId(2), Role::User)), AccessToken(7), 0).unwrap();
    // a different user may not invalidate the token
    assert_eq!(
        c.invalidate(UserId(1), AccessToken(7)),
        Err(UserInvalidateError::InvalidUserId)
    );
    // and the session is still there
    assert_eq!(c.verify_session_at(AccessToken(7), vec![], 1), Ok(UserId(2)));
    // the owner may
    assert_eq!(c.invalidate(UserId(2), AccessToken(7)), Ok(()));
    assert_eq!(
        c.verify_session_at(AccessToken(7), vec![], 2),
        Err(UserVerifyError::InvalidAccessToken)
    );
}

#[test]
fn invalidate_missing_token() {
    let mut c = SessionController::default();
    assert_eq!(
        c.invalidate(UserId(1), AccessToken(7)),
        Err(UserInvalidateError::InvalidAccessToken)
    );
}

#[test]
fn permissions_are_checked_against_the_role() {
    let mut c = SessionController::default();
    c.login_at(Ok((UserId(1), Role::User)), AccessToken(7), 0).unwrap();
    c.login_at(Ok((UserId(2), Role::Admin)), AccessToken(8), 0).unwrap();

    let view = Permission(PERM_VIEW_SUBMISSIONS);
    let manage = Permission(PERM_MANAGE_USERS);

    assert_eq!(c.verify_session_at(AccessToken(7), vec![view], 1), Ok(UserId(1)));
    assert_eq!(
        c.verify_session_at(AccessToken(7), vec![manage], 1),
        Err(UserVerifyError::InvalidPermissions)
    );
    assert_eq!(
        c.verify_session_at(AccessToken(7), vec![view, manage], 1),
        Err(UserVerifyError::InvalidPermissions)
    );
    assert_eq!(
        c.verify_session_at(AccessToken(8), vec![view, manage], 1),
        Ok(UserId(2))
    );
}

#[test]
fn verify_with_real_clock_right_after_login() {
    let mut c = SessionController::default();
    let (uid, token, role) = c.login(Ok((UserId(9), Role::Admin))).expect("login");
    assert_eq!(uid, UserId(9));
    assert_eq!(role, Role::Admin);
    assert_eq!(c.verify_session(token, vec![]), Ok(UserId(9)));
}

#[test]
fn role_permission_sets() {
    assert_eq!(
        role_permissions(Role::User),
        vec![Permission(PERM_VIEW_SUBMISSIONS)]
    );
    assert_eq!(
        role_permissions(Role::Admin),
        vec![Permission(PERM_VIEW_SUBMISSIONS), Permission(PERM_MANAGE_USERS)]
    );
}

#[test]
fn fresh_controller_is_empty() {
    let mut c = SessionController::default();
    assert_eq!(
        c.verify_session_at(AccessToken(0), vec![], 0),
        Err(UserVerifyError::InvalidAccessToken)
    );
    assert_eq!(c.cached_info(UserId(0)), None);
}
