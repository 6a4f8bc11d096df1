//! The session store and its public API: issuing, verifying and
//! invalidating sessions, and gating profile lookups behind them.

use vstd::prelude::*;
use std::collections::HashMap;

use crate::types::{AccessToken, Permission, Role, UserId, UserInfo};
use crate::types::{role_permissions, spec_role_permissions, SESSION_TTL_MILLIS};
use crate::errors::{
    SubmissionError, UserGetInfoError, UserInvalidateError, UserLoginError, UserVerifyError,
};
use crate::external::{fresh_token_value, now_millis};

verus! {

broadcast use vstd::std_specs::hash::group_hash_axioms;

/// A live session: the record binding an access token to a user, the
/// instant at which the session stops being valid, and the capabilities
/// granted at creation. The user and the expiry are set once, at login,
/// and never changed in place.
pub struct Session {
    pub access_token: AccessToken,
    pub user_id: UserId,
    pub expires: i64,
    pub granted: Vec<Permission>,
}

/// Whether every permission in `required` is among `granted`.
pub open spec fn granted_covers(granted: Seq<Permission>, required: Seq<Permission>) -> bool {
    forall|i: int| 0 <= i < required.len() ==> granted.contains(#[trigger] required[i])
}

/// The only process-wide mutable state of the core: the session store and
/// the user-info cache. Created once at service startup; nothing persists
/// across restarts.
pub struct SessionController {
    sessions: HashMap<u64, Session>,
    info_cache: HashMap<u64, UserInfo>,
}

impl SessionController {
    /// The session store, as a map from token value to session record.
    pub closed spec fn sessions_view(self) -> Map<u64, Session> {
        self.sessions@
    }

    /// The user-info cache, as a map from user id value to snapshot.
    pub closed spec fn cache_view(self) -> Map<u64, UserInfo> {
        self.info_cache@
    }

    /// Well-formedness: every stored session is keyed by its own token.
    pub open spec fn wf(self) -> bool {
        forall|t: u64| #[trigger] self.sessions_view().contains_key(t)
            ==> self.sessions_view()[t].access_token == AccessToken(t)
    }

    /// Whether the store holds a session under `token`, expired or not.
    pub open spec fn has_session(self, token: AccessToken) -> bool {
        self.sessions_view().contains_key(token.0)
    }

    /// The session stored under `token`.
    pub open spec fn session_of(self, token: AccessToken) -> Session {
        self.sessions_view()[token.0]
    }

    /// A session is live at `now` while its expiry is still in the future;
    /// a session whose expiry equals `now` is already expired.
    pub open spec fn session_live_at(self, token: AccessToken, now: int) -> bool {
        self.has_session(token) && self.session_of(token).expires > now
    }

    /// What verification of `token` against `required` decides when the
    /// clock reads `now`: absence, expiry and missing capabilities are
    /// reported in that order, and only a live, sufficiently privileged
    /// session yields its user.
    pub open spec fn spec_verify_session(
        self,
        token: AccessToken,
        required: Seq<Permission>,
        now: int,
    ) -> Result<UserId, UserVerifyError> {
        if !self.has_session(token) {
            Err(UserVerifyError::InvalidAccessToken)
        } else if self.session_of(token).expires <= now {
            Err(UserVerifyError::TokenTimedOut)
        } else if !granted_covers(self.session_of(token).granted@, required) {
            Err(UserVerifyError::InvalidPermissions)
        } else {
            Ok(self.session_of(token).user_id)
        }
    }

    /// The session store after a verification of `token` at `now`: an
    /// expired session is evicted, everything else is left in place.
    pub open spec fn spec_sessions_after_verify(
        self,
        token: AccessToken,
        now: int,
    ) -> Map<u64, Session> {
        if self.has_session(token) && self.session_of(token).expires <= now {
            self.sessions_view().remove(token.0)
        } else {
            self.sessions_view()
        }
    }

    /// Verifies `token` against `permissions` with the clock read as `now`.
    /// Evicting an observed-expired session is the one side effect.
    pub fn verify_session_at(
        &mut self,
        token: AccessToken,
        permissions: Vec<Permission>,
        now: i64,
    ) -> (r: Result<UserId, UserVerifyError>)
        requires
            old(self).wf(),
        ensures
            final(self).wf(),
            r == old(self).spec_verify_session(token, permissions@, now as int),
            final(self).sessions_view() == old(self).spec_sessions_after_verify(token, now as int),
            final(self).cache_view() == old(self).cache_view(),
    {
        let sess = match self.sessions.get(&token.0) {
            Some(s) => s,
            None => {
                return Err(UserVerifyError::InvalidAccessToken);
            },
        };
        if sess.expires <= now {
            self.sessions.remove(&token.0);
            return Err(UserVerifyError::TokenTimedOut);
        }
        let user_id = sess.user_id;
        if !covers(&sess.granted, &permissions) {
            return Err(UserVerifyError::InvalidPermissions);
        }
        Ok(user_id)
    }

    /// Verifies `token` against `permissions` with the clock read now.
    /// The outcome is that of `spec_verify_session` at some clock reading;
    /// independently of the reading, `InvalidAccessToken` comes back exactly
    /// when the token is absent, and only an observed expiry changes the
    /// store, by evicting that one session.
    pub fn verify_session(
        &mut self,
        token: AccessToken,
        permissions: Vec<Permission>,
    ) -> (r: Result<UserId, UserVerifyError>)
        requires
            old(self).wf(),
        ensures
            final(self).wf(),
            final(self).cache_view() == old(self).cache_view(),
            exists|now: int|
                r == old(self).spec_verify_session(token, permissions@, now)
                    && final(self).sessions_view() == old(self).spec_sessions_after_verify(
                    token,
                    now,
                ),
            r == Err::<UserId, UserVerifyError>(UserVerifyError::InvalidAccessToken)
                <==> !old(self).has_session(token),
            r is Ok ==> old(self).has_session(token)
                && r->Ok_0 == old(self).session_of(token).user_id
                && granted_covers(old(self).session_of(token).granted@, permissions@),
            r == Err::<UserId, UserVerifyError>(UserVerifyError::InvalidPermissions)
                ==> old(self).has_session(token)
                && !granted_covers(old(self).session_of(token).granted@, permissions@),
            r == Err::<UserId, UserVerifyError>(UserVerifyError::TokenTimedOut)
                ==> old(self).has_session(token)
                && final(self).sessions_view() == old(self).sessions_view().remove(token.0),
            r != Err::<UserId, UserVerifyError>(UserVerifyError::TokenTimedOut)
                ==> final(self).sessions_view() == old(self).sessions_view(),
    {
        let now = now_millis();
        let r = self.verify_session_at(token, permissions, now);
        proof {
            assert(r == old(self).spec_verify_session(token, permissions@, now as int)
                && self.sessions_view() == old(self).spec_sessions_after_verify(
                token,
                now as int,
            ));
        }
        r
    }

    /// `post` is `pre` with exactly one session added: a fresh one under
    /// `token`, bound to `user_id`, expiring a full TTL after `now`, granted
    /// the capabilities of `role`. The cache is untouched.
    pub open spec fn created_session(
        self,
        post: SessionController,
        token: AccessToken,
        user_id: UserId,
        role: Role,
        now: int,
    ) -> bool {
        &&& !self.has_session(token)
        &&& post.has_session(token)
        &&& post.sessions_view() == self.sessions_view().insert(token.0, post.session_of(token))
        &&& post.session_of(token).access_token == token
        &&& post.session_of(token).user_id == user_id
        &&& post.session_of(token).expires == now + SESSION_TTL_MILLIS
        &&& post.session_of(token).granted@ == spec_role_permissions(role)
        &&& post.cache_view() == self.cache_view()
    }

    /// Completes a login whose credential check already came back, binding
    /// `token` at clock reading `now`: a failed check is propagated
    /// unchanged, a token collision is refused as an internal error rather
    /// than overwriting the live session, and otherwise a session with a
    /// 30-day expiry is stored and the user, token and role are returned.
    pub fn login_at(
        &mut self,
        credentials: Result<(UserId, Role), UserLoginError>,
        token: AccessToken,
        now: i64,
    ) -> (r: Result<(UserId, AccessToken, Role), UserLoginError>)
        requires
            old(self).wf(),
            now <= i64::MAX - SESSION_TTL_MILLIS,
        ensures
            final(self).wf(),
            credentials is Err ==> r == Err::<(UserId, AccessToken, Role), UserLoginError>(
                credentials->Err_0,
            ) && *final(self) == *old(self),
            credentials is Ok && old(self).has_session(token) ==> r == Err::<
                (UserId, AccessToken, Role),
                UserLoginError,
            >(UserLoginError::DatabaseError) && *final(self) == *old(self),
            credentials is Ok && !old(self).has_session(token) ==> {
                &&& r == Ok::<(UserId, AccessToken, Role), UserLoginError>(
                    (credentials->Ok_0.0, token, credentials->Ok_0.1),
                )
                &&& old(self).created_session(
                    *final(self),
                    token,
                    credentials->Ok_0.0,
                    credentials->Ok_0.1,
                    now as int,
                )
            },
    {
        let (user_id, role) = match credentials {
            Ok(p) => p,
            Err(e) => {
                return Err(e);
            },
        };
        if self.sessions.contains_key(&token.0) {
            return Err(UserLoginError::DatabaseError);
        }
        let session = Session {
            access_token: token,
            user_id,
            expires: now + SESSION_TTL_MILLIS,
            granted: role_permissions(role),
        };
        let ghost stored = session;
        self.sessions.insert(token.0, session);
        proof {
            assert(self.sessions_view()[token.0] == stored);
            assert forall|t: u64| #[trigger] self.sessions_view().contains_key(t) implies self
                .sessions_view()[t].access_token == AccessToken(t) by {
                if t != token.0 {
                    assert(old(self).sessions_view().contains_key(t));
                }
            }
        }
        Ok((user_id, token, role))
    }

    /// Logs a user in: the credential check's outcome is handed in, the
    /// token and the clock are drawn here. A failed check is propagated
    /// unchanged; on success either a fresh session is created for the
    /// returned token, or the internal error is reported — for a token
    /// collision, or for a clock reading too large to be given a 30-day
    /// expiry — with the store left as it was.
    pub fn login(
        &mut self,
        credentials: Result<(UserId, Role), UserLoginError>,
    ) -> (r: Result<(UserId, AccessToken, Role), UserLoginError>)
        requires
            old(self).wf(),
        ensures
            final(self).wf(),
            credentials is Err ==> r == Err::<(UserId, AccessToken, Role), UserLoginError>(
                credentials->Err_0,
            ),
            credentials is Ok && r is Err ==> r == Err::<
                (UserId, AccessToken, Role),
                UserLoginError,
            >(UserLoginError::DatabaseError),
            r is Err ==> *final(self) == *old(self),
            r is Ok ==> {
                &&& credentials is Ok
                &&& r->Ok_0.0 == credentials->Ok_0.0
                &&& r->Ok_0.2 == credentials->Ok_0.1
                &&& exists|now: int|
                    old(self).created_session(
                        *final(self),
                        r->Ok_0.1,
                        credentials->Ok_0.0,
                        credentials->Ok_0.1,
                        now,
                    )
            },
    {
        let (user_id, role) = match credentials {
            Ok(p) => p,
            Err(e) => {
                return Err(e);
            },
        };
        let now = now_millis();
        if now > i64::MAX - SESSION_TTL_MILLIS {
            return Err(UserLoginError::DatabaseError);
        }
        let token = AccessToken(fresh_token_value());
        let r = self.login_at(Ok((user_id, role)), token, now);
        proof {
            if r is Ok {
                assert(r->Ok_0.1 == token);
                assert(old(self).created_session(*self, r->Ok_0.1, user_id, role, now as int));
                assert(exists|n: int|
                    old(self).created_session(*self, r->Ok_0.1, user_id, role, n));
            }
        }
        r
    }

    /// What invalidation of `token` on behalf of `user_id` decides: a
    /// missing token is refused, a token owned by a different user is
    /// refused without touching the session, and only the owner's request
    /// succeeds. Expiry plays no part: a stale session may be invalidated.
    pub open spec fn spec_invalidate(
        self,
        user_id: UserId,
        token: AccessToken,
    ) -> Result<(), UserInvalidateError> {
        if !self.has_session(token) {
            Err(UserInvalidateError::InvalidAccessToken)
        } else if self.session_of(token).user_id != user_id {
            Err(UserInvalidateError::InvalidUserId)
        } else {
            Ok(())
        }
    }

    /// The session store after invalidation: the session leaves exactly
    /// when the request succeeds.
    pub open spec fn spec_sessions_after_invalidate(
        self,
        user_id: UserId,
        token: AccessToken,
    ) -> Map<u64, Session> {
        if self.has_session(token) && self.session_of(token).user_id == user_id {
            self.sessions_view().remove(token.0)
        } else {
            self.sessions_view()
        }
    }

    /// Invalidates the login session under `token` on behalf of `user_id`.
    pub fn invalidate(
        &mut self,
        user_id: UserId,
        access_token: AccessToken,
    ) -> (r: Result<(), UserInvalidateError>)
        requires
            old(self).wf(),
        ensures
            final(self).wf(),
            r == old(self).spec_invalidate(user_id, access_token),
            final(self).sessions_view() == old(self).spec_sessions_after_invalidate(
                user_id,
                access_token,
            ),
            final(self).cache_view() == old(self).cache_view(),
    {
        let sess = match self.sessions.get(&access_token.0) {
            Some(s) => s,
            None => {
                return Err(UserInvalidateError::InvalidAccessToken);
            },
        };
        if sess.user_id.0 != user_id.0 {
            return Err(UserInvalidateError::InvalidUserId);
        }
        self.sessions.remove(&access_token.0);
        Ok(())
    }

    /// What the profile request decides at clock reading `now`: any
    /// verification failure collapses to `TokenInvalid`; under a live
    /// session the cache answers for `user`, with a miss reported as
    /// `Ok(None)` so that the caller may consult the profile service.
    pub open spec fn spec_get_user_info(
        self,
        user: UserId,
        token: AccessToken,
        now: int,
    ) -> Result<Option<UserInfo>, UserGetInfoError> {
        if self.spec_verify_session(token, Seq::empty(), now) is Ok {
            if self.cache_view().contains_key(user.0) {
                Ok(Some(self.cache_view()[user.0]))
            } else {
                Ok(None)
            }
        } else {
            Err(UserGetInfoError::TokenInvalid)
        }
    }

    /// Serves the profile request for `user` from the cache, with the clock
    /// read as `now`. `Ok(None)` asks the caller to fetch from the profile
    /// service; `cache_user_info` then records what came back.
    pub fn get_user_info_at(
        &mut self,
        user: UserId,
        token: AccessToken,
        now: i64,
    ) -> (r: Result<Option<UserInfo>, UserGetInfoError>)
        requires
            old(self).wf(),
        ensures
            final(self).wf(),
            r == old(self).spec_get_user_info(user, token, now as int),
            final(self).sessions_view() == old(self).spec_sessions_after_verify(token, now as int),
            final(self).cache_view() == old(self).cache_view(),
    {
        if self.verify_session_at(token, Vec::new(), now).is_err() {
            return Err(UserGetInfoError::TokenInvalid);
        }
        match self.info_cache.get(&user.0) {
            Some(info) => Ok(Some(*info)),
            None => Ok(None),
        }
    }

    /// Serves the profile request for `user` with the clock read now.
    /// Independently of the reading: the cache is never changed, a hit is
    /// answered from it alone, an absent token is always refused, and the
    /// store is at most relieved of the one expired session.
    pub fn get_user_info(&mut self, user: UserId, token: AccessToken) -> (r: Result<
        Option<UserInfo>,
        UserGetInfoError,
    >)
        requires
            old(self).wf(),
        ensures
            final(self).wf(),
            final(self).cache_view() == old(self).cache_view(),
            exists|now: int|
                r == old(self).spec_get_user_info(user, token, now)
                    && final(self).sessions_view() == old(self).spec_sessions_after_verify(
                    token,
                    now,
                ),
            !old(self).has_session(token) ==> r == Err::<Option<UserInfo>, UserGetInfoError>(
                UserGetInfoError::TokenInvalid,
            ) && final(self).sessions_view() == old(self).sessions_view(),
            r is Ok ==> old(self).has_session(token)
                && final(self).sessions_view() == old(self).sessions_view(),
            r == Ok::<Option<UserInfo>, UserGetInfoError>(None)
                ==> !old(self).cache_view().contains_key(user.0),
            forall|info: UserInfo|
                r == Ok::<Option<UserInfo>, UserGetInfoError>(Some(info))
                    ==> old(self).cache_view().contains_key(user.0)
                    && info == old(self).cache_view()[user.0],
            r is Err ==> r == Err::<Option<UserInfo>, UserGetInfoError>(
                UserGetInfoError::TokenInvalid,
            ),
    {
        let now = now_millis();
        let r = self.get_user_info_at(user, token, now);
        proof {
            assert(r == old(self).spec_get_user_info(user, token, now as int)
                && self.sessions_view() == old(self).spec_sessions_after_verify(
                token,
                now as int,
            ));
        }
        r
    }

    /// Records a freshly fetched profile snapshot for `user`, so that later
    /// requests are served from the cache. Entries are never evicted or
    /// refreshed; staleness against the live profile is accepted.
    pub fn cache_user_info(&mut self, user: UserId, info: UserInfo)
        requires
            old(self).wf(),
        ensures
            final(self).wf(),
            final(self).cache_view() == old(self).cache_view().insert(user.0, info),
            final(self).sessions_view() == old(self).sessions_view(),
    {
        self.info_cache.insert(user.0, info);
        proof {
            assert(self.sessions_view() == old(self).sessions_view());
            assert forall|t: u64| #[trigger] self.sessions_view().contains_key(t) implies self
                .sessions_view()[t].access_token == AccessToken(t) by {
                assert(old(self).sessions_view().contains_key(t));
            }
        }
    }

    /// The cached profile snapshot for `user`, if one was ever recorded.
    pub fn cached_info(&self, user: UserId) -> (r: Option<UserInfo>)
        ensures
            r is Some <==> self.cache_view().contains_key(user.0),
            r is Some ==> r->0 == self.cache_view()[user.0],
    {
        match self.info_cache.get(&user.0) {
            Some(info) => Some(*info),
            None => None,
        }
    }

    /// What the submission listing decides about the token at clock
    /// reading `now`: each verification failure surfaces as its own
    /// variant, one for one, never collapsed; success names the user whose
    /// submissions are to be queried.
    pub open spec fn spec_submission_verify(
        self,
        token: AccessToken,
        now: int,
    ) -> Result<UserId, SubmissionError> {
        match self.spec_verify_session(token, Seq::empty(), now) {
            Ok(u) => Ok(u),
            Err(UserVerifyError::InvalidAccessToken) => Err(SubmissionError::InvalidAccessToken),
            Err(UserVerifyError::TokenTimedOut) => Err(SubmissionError::TokenTimedOut),
            Err(UserVerifyError::InvalidPermissions) => Err(SubmissionError::InvalidPermissions),
        }
    }

    /// First step of the submission listing, with the clock read as `now`:
    /// verifies the token and names the verified user. The caller runs the
    /// distinct-selection query for that user and hands its outcome to
    /// `submissions_from_query`.
    pub fn get_submissions_by_user_at(&mut self, token: AccessToken, now: i64) -> (r: Result<
        UserId,
        SubmissionError,
    >)
        requires
            old(self).wf(),
        ensures
            final(self).wf(),
            r == old(self).spec_submission_verify(token, now as int),
            final(self).sessions_view() == old(self).spec_sessions_after_verify(token, now as int),
            final(self).cache_view() == old(self).cache_view(),
    {
        match self.verify_session_at(token, Vec::new(), now) {
            Ok(user_id) => Ok(user_id),
            Err(UserVerifyError::InvalidAccessToken) => Err(SubmissionError::InvalidAccessToken),
            Err(UserVerifyError::TokenTimedOut) => Err(SubmissionError::TokenTimedOut),
            Err(UserVerifyError::InvalidPermissions) => Err(SubmissionError::InvalidPermissions),
        }
    }

    /// First step of the submission listing, with the clock read now.
    pub fn get_submissions_by_user(&mut self, token: AccessToken) -> (r: Result<
        UserId,
        SubmissionError,
    >)
        requires
            old(self).wf(),
        ensures
            final(self).wf(),
            final(self).cache_view() == old(self).cache_view(),
            exists|now: int|
                r == old(self).spec_submission_verify(token, now)
                    && final(self).sessions_view() == old(self).spec_sessions_after_verify(
                    token,
                    now,
                ),
            r == Err::<UserId, SubmissionError>(SubmissionError::InvalidAccessToken)
                <==> !old(self).has_session(token),
            r is Ok ==> old(self).has_session(token)
                && r->Ok_0 == old(self).session_of(token).user_id
                && final(self).sessions_view() == old(self).sessions_view(),
            r == Err::<UserId, SubmissionError>(SubmissionError::TokenTimedOut)
                ==> old(self).has_session(token)
                && final(self).sessions_view() == old(self).sessions_view().remove(token.0),
            r != Err::<UserId, SubmissionError>(SubmissionError::TokenTimedOut)
                ==> final(self).sessions_view() == old(self).sessions_view(),
    {
        let now = now_millis();
        let r = self.get_submissions_by_user_at(token, now);
        proof {
            assert(r == old(self).spec_submission_verify(token, now as int)
                && self.sessions_view() == old(self).spec_sessions_after_verify(
                token,
                now as int,
            ));
        }
        r
    }
}

impl Default for SessionController {
    /// A controller with no sessions and an empty cache, as created once
    /// at service startup.
    fn default() -> (c: Self)
        ensures
            c.wf(),
            c.sessions_view() == Map::<u64, Session>::empty(),
            c.cache_view() == Map::<u64, UserInfo>::empty(),
    {
        SessionController { sessions: HashMap::new(), info_cache: HashMap::new() }
    }
}

/// Whether every permission in `required` occurs in `granted`.
fn covers(granted: &Vec<Permission>, required: &Vec<Permission>) -> (r: bool)
    ensures
        r == granted_covers(granted@, required@),
{
    let mut i: usize = 0;
    while i < required.len()
        invariant
            i <= required.len(),
            forall|j: int| 0 <= j < i ==> granted@.contains(#[trigger] required@[j]),
        decreases required.len() - i,
    {
        if !contains_permission(granted, required[i]) {
            return false;
        }
        i += 1;
    }
    true
}

/// Whether `p` occurs in `v`.
fn contains_permission(v: &Vec<Permission>, p: Permission) -> (r: bool)
    ensures
        r == v@.contains(p),
{
    let mut i: usize = 0;
    while i < v.len()
        invariant
            i <= v.len(),
            forall|j: int| 0 <= j < i ==> v@[j] != p,
        decreases v.len() - i,
    {
        if v[i] == p {
            return true;
        }
        i += 1;
    }
    false
}

} // verus!
