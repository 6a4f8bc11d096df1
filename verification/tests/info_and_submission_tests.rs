//! Behaviour of the profile cache and the submission listing on concrete
//! values.

use session_core::controller::SessionController;
use session_core::errors::{DbError, SubmissionError, UserGetInfoError};
use session_core::submissions::{distinct_submissions, submissions_from_query};
use session_core::types::{AccessToken, Role, SubId, UserId, UserInfo, SESSION_TTL_MILLIS};

#[test]
fn profile_requires_a_valid_token() {
    let mut c = SessionController::default();
    assert_eq!(
        c.get_user_info_at(UserId(1), AccessToken(7), 0),
        Err(UserGetInfoError::TokenInvalid)
    );
    // an expired token collapses to the same error
    c.login_at(Ok((UserId(1), Role::User)), AccessToken(7), 0).unwrap();
    assert_eq!(
        c.get_user_info_at(UserId(1), AccessToken(7), SESSION_TTL_MILLIS),
        Err(UserGetInfoError::TokenInvalid)
    );
}

#[test]
fn cache_answers_repeated_profile_requests() {
    let mut c = SessionController::default();
    c.login_at(Ok((UserId(1), Role::User)), AccessToken(7), 0).unwrap();

    // a miss asks the caller to fetch
    assert_eq!(c.get_user_info_at(UserId(1), AccessToken(7), 1), Ok(None));
    assert_eq!(c.cached_info(UserId(1)), None);

    // once recorded, the same snapshot is served on every later request
    let info = UserInfo { user_id: UserId(1), reputation: 41 };
    c.cache_user_info(UserId(1), info);
    for _ in 0..3 {
        assert_eq!(c.get_user_info_at(UserId(1), AccessToken(7), 2), Ok(Some(info)));
    }
    assert_eq!(c.cached_info(UserId(1)), Some(info));

    // any valid token serves any user's cached profile
    c.login_at(Ok((UserId(2), Role::User)), AccessToken(8), 0).unwrap();
    assert_eq!(c.get_user_info_at(UserId(1), AccessToken(8), 3), Ok(Some(info)));
}

#[test]
fn get_user_info_with_real_clock() {
    let mut c = SessionController::default();
    let (uid, token, _role) = c.login(Ok((UserId(5), Role::User))).expect("login");
    assert_eq!(c.get_user_info(uid, token), Ok(None));
    let info = UserInfo { user_id: uid, reputation: 3 };
    c.cache_user_info(uid, info);
    assert_eq!(c.get_user_info(uid, token), Ok(Some(info)));
}

#[test]
fn submission_listing_maps_each_verify_failure_distinctly() {
    let mut c = SessionController::default();
    assert_eq!(
        c.get_submissions_by_user_at(AccessToken(7), 0),
        Err(SubmissionError::InvalidAccessToken)
    );
    c.login_at(Ok((UserId(1), Role::User)), AccessToken(7), 0).unwrap();
    assert_eq!(
        c.get_submissions_by_user_at(AccessToken(7), SESSION_TTL_MILLIS),
        Err(SubmissionError::TokenTimedOut)
    );
    // the eviction was final
    assert_eq!(
        c.get_submissions_by_user_at(AccessToken(7), SESSION_TTL_MILLIS),
        Err(SubmissionError::InvalidAccessToken)
    );
}

#[test]
fn submission_listing_names_the_verified_user() {
    let mut c = SessionController::default();
    c.login_at(Ok((UserId(3), Role::User)), AccessToken(7), 0).unwrap();
    assert_eq!(c.get_submissions_by_user_at(AccessToken(7), 1), Ok(UserId(3)));
}

#[test]
fn duplicate_rows_are_listed_once() {
    let rows = vec![SubId(5), SubId(3), SubId(5), SubId(9), SubId(3)];
    assert_eq!(
        submissions_from_query(Ok(rows)),
        Ok(vec![SubId(5), SubId(3), SubId(9)])
    );
}

#[test]
fn distinct_submissions_on_edge_inputs() {
    assert_eq!(distinct_submissions(&vec![]), vec![]);
    assert_eq!(distinct_submissions(&vec![SubId(1)]), vec![SubId(1)]);
    assert_eq!(
        distinct_submissions(&vec![SubId(1), SubId(1), SubId(1)]),
        vec![SubId(1)]
    );
}

#[test]
fn database_failure_maps_to_database_error() {
    assert_eq!(
        submissions_from_query(Err(DbError)),
        Err(SubmissionError::DatabaseError)
    );
}
