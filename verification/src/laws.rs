//! The guarantees of the session core that relate several operations,
//! stated over the controller's model and proved once and for all.

use vstd::prelude::*;

use crate::types::{AccessToken, Permission, Role, UserId, MILLIS_PER_DAY};
use crate::errors::{UserInvalidateError, UserVerifyError};
use crate::controller::SessionController;

verus! {

/// Token uniqueness: when two logins both succeed, the second from the
/// state the first produced, they return distinct tokens — the collision
/// check refuses a token that is already live, so a fresh session never
/// overwrites another.
pub proof fn law_token_uniqueness(
    s0: SessionController,
    s1: SessionController,
    s2: SessionController,
    t1: AccessToken,
    t2: AccessToken,
    u1: UserId,
    u2: UserId,
    r1: Role,
    r2: Role,
    n1: int,
    n2: int,
)
    requires
        s0.created_session(s1, t1, u1, r1, n1),
        s1.created_session(s2, t2, u2, r2, n2),
    ensures
        t1 != t2,
{
    assert(s1.has_session(t1));
    assert(!s1.has_session(t2));
}

/// A created session, and every session already live, stays in the store
/// across each later creation in a chain of successful logins.
proof fn token_stays_live(
    states: Seq<SessionController>,
    tokens: Seq<AccessToken>,
    users: Seq<UserId>,
    roles: Seq<Role>,
    times: Seq<int>,
    i: int,
    k: int,
)
    requires
        states.len() == tokens.len() + 1,
        users.len() == tokens.len(),
        roles.len() == tokens.len(),
        times.len() == tokens.len(),
        forall|m: int|
            0 <= m < tokens.len() ==> states[m].created_session(
                states[m + 1],
                #[trigger] tokens[m],
                users[m],
                roles[m],
                times[m],
            ),
        0 <= i < k <= tokens.len(),
    ensures
        states[k].has_session(tokens[i]),
    decreases k,
{
    if k == i + 1 {
        assert(states[i].created_session(states[i + 1], tokens[i], users[i], roles[i], times[i]));
    } else {
        token_stays_live(states, tokens, users, roles, times, i, k - 1);
        assert(states[k - 1].created_session(
            states[k],
            tokens[k - 1],
            users[k - 1],
            roles[k - 1],
            times[k - 1],
        ));
        assert(states[k].sessions_view().contains_key(tokens[i].0));
    }
}

/// Token uniqueness across the lifetime of the store, as long as no
/// session leaves it: along any chain of successful logins the returned
/// tokens are pairwise distinct, for every length of the chain.
pub proof fn law_token_uniqueness_across_logins(
    states: Seq<SessionController>,
    tokens: Seq<AccessToken>,
    users: Seq<UserId>,
    roles: Seq<Role>,
    times: Seq<int>,
)
    requires
        states.len() == tokens.len() + 1,
        users.len() == tokens.len(),
        roles.len() == tokens.len(),
        times.len() == tokens.len(),
        forall|m: int|
            0 <= m < tokens.len() ==> states[m].created_session(
                states[m + 1],
                #[trigger] tokens[m],
                users[m],
                roles[m],
                times[m],
            ),
    ensures
        forall|i: int, j: int| 0 <= i < j < tokens.len() ==> tokens[i] != tokens[j],
{
    assert forall|i: int, j: int| 0 <= i < j < tokens.len() implies tokens[i] != tokens[j] by {
        token_stays_live(states, tokens, users, roles, times, i, j);
        assert(states[j].created_session(states[j + 1], tokens[j], users[j], roles[j], times[j]));
        assert(!states[j].has_session(tokens[j]));
    }
}

/// Expiry monotonicity: a session created at time `t` carries a 30-day
/// expiry, so verification accepts it a day before that instant and
/// reports it timed out a day after.
pub proof fn law_expiry_monotonicity(
    pre: SessionController,
    post: SessionController,
    token: AccessToken,
    user: UserId,
    role: Role,
    t: int,
)
    requires
        pre.created_session(post, token, user, role, t),
    ensures
        post.spec_verify_session(token, Seq::empty(), t + 29 * MILLIS_PER_DAY)
            == Ok::<UserId, UserVerifyError>(user),
        post.spec_verify_session(token, Seq::empty(), t + 31 * MILLIS_PER_DAY)
            == Err::<UserId, UserVerifyError>(UserVerifyError::TokenTimedOut),
{
}

/// Invalidate ownership: a token held by one user is never removed on a
/// different user's request — that request is refused as `InvalidUserId`
/// and leaves the store untouched — while the owner's own request then
/// succeeds and removes the session.
pub proof fn law_invalidate_ownership(
    s: SessionController,
    u1: UserId,
    u2: UserId,
    token: AccessToken,
)
    requires
        s.has_session(token),
        s.session_of(token).user_id == u2,
        u1 != u2,
    ensures
        s.spec_invalidate(u1, token) == Err::<(), UserInvalidateError>(
            UserInvalidateError::InvalidUserId,
        ),
        s.spec_sessions_after_invalidate(u1, token) == s.sessions_view(),
        s.spec_invalidate(u2, token) == Ok::<(), UserInvalidateError>(()),
        s.spec_sessions_after_invalidate(u2, token) == s.sessions_view().remove(token.0),
{
}

/// A token the store does not hold — never issued, invalidated, or
/// evicted — is refused as `InvalidAccessToken` for every permission set
/// and every clock reading, never as `TokenTimedOut`.
pub proof fn law_absent_token_is_invalid(s: SessionController, token: AccessToken)
    requires
        !s.has_session(token),
    ensures
        forall|required: Seq<Permission>, now: int|
            s.spec_verify_session(token, required, now) == Err::<UserId, UserVerifyError>(
                UserVerifyError::InvalidAccessToken,
            ),
{
}

/// Eviction is irreversible: once a verification observes a session
/// expired and evicts it, any controller left in that state refuses the
/// token as `InvalidAccessToken` — never again as `TokenTimedOut` — at
/// every later clock reading.
pub proof fn law_no_timeout_after_eviction(
    s: SessionController,
    evicted: SessionController,
    token: AccessToken,
    now: int,
    required: Seq<Permission>,
    later: int,
)
    requires
        s.has_session(token),
        s.session_of(token).expires <= now,
        evicted.sessions_view() == s.spec_sessions_after_verify(token, now),
    ensures
        evicted.spec_verify_session(token, required, later) == Err::<UserId, UserVerifyError>(
            UserVerifyError::InvalidAccessToken,
        ),
{
    assert(!evicted.sessions_view().contains_key(token.0));
}

/// Cache consistency: while a session is live and the cache holds an
/// entry for a user, the profile request is answered from that entry and
/// changes neither map — so any number of repetitions of the request
/// returns the same snapshot without consulting the profile service.
pub proof fn law_cache_consistency(
    s: SessionController,
    user: UserId,
    token: AccessToken,
    now: int,
)
    requires
        s.session_live_at(token, now),
        s.cache_view().contains_key(user.0),
    ensures
        s.spec_get_user_info(user, token, now) == Ok::<
            Option<crate::types::UserInfo>,
            crate::errors::UserGetInfoError,
        >(Some(s.cache_view()[user.0])),
        s.spec_sessions_after_verify(token, now) == s.sessions_view(),
{
}

} // verus!
