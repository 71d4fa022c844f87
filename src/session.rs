use vstd::prelude::*;

use crate::auth::{AuthError, TokenStore, SESSION_LIFETIME_MS, TOKEN_LIFETIME_MS};
use crate::email::EmailAddress;
use crate::events::copy_opt;
use crate::platform::fresh_secret;
use crate::text::{opt_view, str_eq};
use crate::theme::Theme;

verus! {

/// A long-lived credential bound to the user `user_id`, valid until
/// `expires` (milliseconds since the Unix epoch).
#[derive(Debug)]
pub struct Session {
    pub user_id: String,
    pub session_token: String,
    pub expires: i64,
}

pub struct SessionView {
    pub user_id: Seq<char>,
    pub session_token: Seq<char>,
    pub expires: i64,
}

impl View for Session {
    type V = SessionView;

    open spec fn view(&self) -> SessionView {
        SessionView {
            user_id: self.user_id@,
            session_token: self.session_token@,
            expires: self.expires,
        }
    }
}

pub open spec fn session_views(s: Seq<Session>) -> Seq<SessionView> {
    s.map_values(|x: Session| x@)
}

pub open spec fn session_result_view(r: Result<Session, AuthError>) -> Result<
    SessionView,
    AuthError,
> {
    match r {
        Ok(s) => Ok(s@),
        Err(e) => Err(e),
    }
}

/// The most recently created session carrying `token`.
pub open spec fn last_session(s: Seq<SessionView>, token: Seq<char>) -> Option<SessionView>
    decreases s.len(),
{
    if s.len() == 0 {
        None
    } else if s.last().session_token == token {
        Some(s.last())
    } else {
        last_session(s.drop_last(), token)
    }
}

/// The sessions that do not carry `token`, in their order.
pub open spec fn sessions_without(s: Seq<SessionView>, token: Seq<char>) -> Seq<SessionView>
    decreases s.len(),
{
    if s.len() == 0 {
        s
    } else {
        let rest = sessions_without(s.drop_last(), token);
        if s.last().session_token == token {
            rest
        } else {
            rest.push(s.last())
        }
    }
}

/// The sessions with every one carrying `token` set to expire at `expires`.
pub open spec fn sessions_renewed(s: Seq<SessionView>, token: Seq<char>, expires: i64) -> Seq<
    SessionView,
>
    decreases s.len(),
{
    if s.len() == 0 {
        s
    } else {
        let rest = sessions_renewed(s.drop_last(), token, expires);
        if s.last().session_token == token {
            rest.push(SessionView { expires, ..s.last() })
        } else {
            rest.push(s.last())
        }
    }
}

/// Authentication of a credential, given the session it names (if any):
/// unknown and lapsed sessions are both `Unauthenticated`.
pub open spec fn authentication(found: Option<SessionView>, now: i64) -> Result<
    SessionView,
    AuthError,
> {
    match found {
        None => Err(AuthError::Unauthenticated),
        Some(s) => if s.expires < now {
            Err(AuthError::Unauthenticated)
        } else {
            Ok(s)
        },
    }
}

impl Session {
    /// A field-by-field copy.
    pub fn copy(&self) -> (r: Session)
        ensures
            r@ == self@,
    {
        Session {
            user_id: self.user_id.clone(),
            session_token: self.session_token.clone(),
            expires: self.expires,
        }
    }

    /// A new session for `user_id` with a fresh random secret, valid for
    /// 365 days from `now`.
    pub fn new(user_id: String, now: i64) -> (r: Session)
        requires
            now <= i64::MAX - SESSION_LIFETIME_MS,
        ensures
            r.user_id@ == user_id@,
            r.session_token@.len() == 36,
            r.expires == now + SESSION_LIFETIME_MS,
    {
        Session { user_id, session_token: fresh_secret(), expires: now + SESSION_LIFETIME_MS }
    }
}

/// The live sessions.
pub struct SessionStore {
    sessions: Vec<Session>,
}

impl View for SessionStore {
    type V = Seq<SessionView>;

    closed spec fn view(&self) -> Seq<SessionView> {
        session_views(self.sessions@)
    }
}

impl SessionStore {
    /// A store with no sessions.
    pub fn new() -> (r: SessionStore)
        ensures
            r@ == Seq::<SessionView>::empty(),
    {
        let r = SessionStore { sessions: Vec::new() };
        proof {
            assert(r@ =~= Seq::<SessionView>::empty());
        }
        r
    }

    /// Issues and stores a new session for `user_id`.
    pub fn create(&mut self, user_id: String, now: i64) -> (r: Session)
        requires
            now <= i64::MAX - SESSION_LIFETIME_MS,
        ensures
            r.user_id@ == user_id@,
            r.session_token@.len() == 36,
            r.expires == now + SESSION_LIFETIME_MS,
            final(self)@ == old(self)@.push(r@),
    {
        let s = Session::new(user_id, now);
        let r = s.copy();
        self.sessions.push(s);
        proof {
            assert(session_views(self.sessions@) =~= session_views(old(self).sessions@).push(s@));
        }
        r
    }

    /// Checks a presented credential at time `now`.
    pub fn authenticate(&self, session_token: &str, now: i64) -> (r: Result<Session, AuthError>)
        ensures
            session_result_view(r) == authentication(last_session(self@, session_token@), now),
    {
        let ghost all = session_views(self.sessions@);
        let n = self.sessions.len();
        let mut i: usize = n;
        proof {
            assert(all.subrange(0, n as int) =~= all);
        }
        while i > 0
            invariant
                n == self.sessions@.len(),
                all == session_views(self.sessions@),
                i <= n,
                last_session(all, session_token@) == last_session(
                    all.subrange(0, i as int),
                    session_token@,
                ),
            decreases i,
        {
            let s = &self.sessions[i - 1];
            proof {
                let sub = all.subrange(0, i as int);
                assert(sub.drop_last() =~= all.subrange(0, i - 1));
                assert(sub.last() == s@);
            }
            if str_eq(s.session_token.as_str(), session_token) {
                if s.expires < now {
                    return Err(AuthError::Unauthenticated);
                }
                return Ok(s.copy());
            }
            i = i - 1;
        }
        proof {
            assert(all.subrange(0, 0) =~= Seq::<SessionView>::empty());
            assert(all.subrange(0, n as int) =~= all);
        }
        Err(AuthError::Unauthenticated)
    }

    /// Moves the expiry of every session carrying `session_token` to
    /// `expires` and returns the most recent one as updated;
    /// `Unauthenticated` if there was none.
    pub fn update(&mut self, session_token: &str, expires: i64) -> (r: Result<Session, AuthError>)
        ensures
            final(self)@ == sessions_renewed(old(self)@, session_token@, expires),
            session_result_view(r) == match last_session(old(self)@, session_token@) {
                Some(s) => Ok(SessionView { expires, ..s }),
                None => Err(AuthError::Unauthenticated),
            },
    {
        let ghost all = session_views(self.sessions@);
        let n = self.sessions.len();
        let mut out: Vec<Session> = Vec::new();
        let mut found: Option<Session> = None;
        let mut i: usize = 0;
        while i < n
            invariant
                n == self.sessions@.len(),
                all == session_views(self.sessions@),
                i <= n,
                session_views(out@) == sessions_renewed(all.subrange(0, i as int), session_token@, expires),
                match found {
                    Some(f) => Some(f@),
                    None => None,
                } == match last_session(all.subrange(0, i as int), session_token@) {
                    Some(x) => Some(SessionView { expires, ..x }),
                    None => None,
                },
            decreases n - i,
        {
            let s = &self.sessions[i];
            let ghost before = out@;
            proof {
                let sub = all.subrange(0, i + 1);
                assert(sub.drop_last() =~= all.subrange(0, i as int));
                assert(sub.last() == s@);
            }
            if str_eq(s.session_token.as_str(), session_token) {
                let renewed = Session {
                    user_id: s.user_id.clone(),
                    session_token: s.session_token.clone(),
                    expires,
                };
                found = Some(renewed.copy());
                out.push(renewed);
            } else {
                out.push(s.copy());
            }
            proof {
                assert(session_views(out@) =~= sessions_renewed(
                    all.subrange(0, i + 1),
                    session_token@,
                    expires,
                ));
            }
            i = i + 1;
        }
        proof {
            assert(all.subrange(0, n as int) =~= all);
        }
        self.sessions = out;
        match found {
            Some(s) => Ok(s),
            None => Err(AuthError::Unauthenticated),
        }
    }

    /// Ends every session carrying `session_token` and returns the most
    /// recent one; `Unauthenticated` if there was none.
    pub fn delete(&mut self, session_token: &str) -> (r: Result<Session, AuthError>)
        ensures
            final(self)@ == sessions_without(old(self)@, session_token@),
            session_result_view(r) == match last_session(old(self)@, session_token@) {
                Some(s) => Ok(s),
                None => Err(AuthError::Unauthenticated),
            },
    {
        let ghost all = session_views(self.sessions@);
        let n = self.sessions.len();
        let mut kept: Vec<Session> = Vec::new();
        let mut found: Option<Session> = None;
        let mut i: usize = 0;
        while i < n
            invariant
                n == self.sessions@.len(),
                all == session_views(self.sessions@),
                i <= n,
                session_views(kept@) == sessions_without(all.subrange(0, i as int), session_token@),
                match found {
                    Some(f) => Some(f@),
                    None => None,
                } == last_session(all.subrange(0, i as int), session_token@),
            decreases n - i,
        {
            let s = &self.sessions[i];
            let ghost before = kept@;
            proof {
                let sub = all.subrange(0, i + 1);
                assert(sub.drop_last() =~= all.subrange(0, i as int));
                assert(sub.last() == s@);
            }
            if str_eq(s.session_token.as_str(), session_token) {
                found = Some(s.copy());
            } else {
                kept.push(s.copy());
                proof {
                    assert(session_views(kept@) =~= session_views(before).push(s@));
                }
            }
            i = i + 1;
        }
        proof {
            assert(all.subrange(0, n as int) =~= all);
        }
        self.sessions = kept;
        match found {
            Some(s) => Ok(s),
            None => Err(AuthError::Unauthenticated),
        }
    }
}

// ---------------------------------------------------------------- users
/// A registered user. `email_verified` is when the address was confirmed,
/// in milliseconds since the Unix epoch.
#[derive(Debug)]
pub struct User {
    pub id: String,
    pub name: String,
    pub email: EmailAddress,
    pub email_verified: Option<i64>,
    pub image: Option<String>,
    pub superadmin: Option<bool>,
    pub theme: Theme,
}

pub struct UserView {
    pub id: Seq<char>,
    pub name: Seq<char>,
    pub email: Seq<char>,
    pub email_verified: Option<i64>,
    pub image: Option<Seq<char>>,
    pub superadmin: Option<bool>,
    pub theme: Theme,
}

impl View for User {
    type V = UserView;

    open spec fn view(&self) -> UserView {
        UserView {
            id: self.id@,
            name: self.name@,
            email: self.email.0@,
            email_verified: self.email_verified,
            image: opt_view(self.image),
            superadmin: self.superadmin,
            theme: self.theme,
        }
    }
}

pub open spec fn user_views(s: Seq<User>) -> Seq<UserView> {
    s.map_values(|u: User| u@)
}

pub open spec fn user_result_view(r: Result<User, AuthError>) -> Result<UserView, AuthError> {
    match r {
        Ok(u) => Ok(u@),
        Err(e) => Err(e),
    }
}

/// The first user satisfying `by_email ? email == key : id == key`.
pub open spec fn first_user(s: Seq<UserView>, key: Seq<char>, by_email: bool) -> Option<UserView>
    decreases s.len(),
{
    if s.len() == 0 {
        None
    } else if (if by_email {
        s[0].email == key
    } else {
        s[0].id == key
    }) {
        Some(s[0])
    } else {
        first_user(s.drop_first(), key, by_email)
    }
}

impl User {
    /// A field-by-field copy.
    pub fn copy(&self) -> (r: User)
        ensures
            r@ == self@,
    {
        User {
            id: self.id.clone(),
            name: self.name.clone(),
            email: self.email.copy(),
            email_verified: self.email_verified,
            image: copy_opt(&self.image),
            superadmin: self.superadmin,
            theme: self.theme,
        }
    }

    /// The super-administrator flag, where one was recorded.
    pub fn is_super_admin(&self) -> (r: Result<bool, AuthError>)
        ensures
            r == match self.superadmin {
                Some(b) => Ok::<bool, AuthError>(b),
                None => Err(AuthError::Unauthenticated),
            },
    {
        match self.superadmin {
            Some(b) => Ok(b),
            None => Err(AuthError::Unauthenticated),
        }
    }
}

/// Looks a user up by id (`by_email == false`) or by address.
pub fn find_user(users: &Vec<User>, key: &str, by_email: bool) -> (r: Result<User, AuthError>)
    ensures
        user_result_view(r) == match first_user(user_views(users@), key@, by_email) {
            Some(u) => Ok(u),
            None => Err(AuthError::NotFound),
        },
{
    let ghost all = user_views(users@);
    let mut i: usize = 0;
    proof {
        assert(all.subrange(0, all.len() as int) =~= all);
    }
    while i < users.len()
        invariant
            all == user_views(users@),
            i <= users@.len(),
            first_user(all, key@, by_email) == first_user(all.subrange(i as int, all.len() as int), key@, by_email),
        decreases users@.len() - i,
    {
        let u = &users[i];
        proof {
            let sub = all.subrange(i as int, all.len() as int);
            assert(sub.drop_first() =~= all.subrange(i + 1, all.len() as int));
            assert(sub[0] == u@);
        }
        let hit = if by_email {
            str_eq(u.email.0.as_str(), key)
        } else {
            str_eq(u.id.as_str(), key)
        };
        if hit {
            return Ok(u.copy());
        }
        i = i + 1;
    }
    proof {
        assert(all.subrange(i as int, all.len() as int) =~= Seq::<UserView>::empty());
    }
    Err(AuthError::NotFound)
}

// ---------------------------------------------------------------- sign-in
/// The storage adapter of the sign-in flow: users, outstanding sign-in
/// tokens and sessions, kept together.
pub struct SurrealAdapter {
    pub users: Vec<User>,
    pub tokens: TokenStore,
    pub sessions: SessionStore,
}

/// Whether some user in `s` has the address `email`.
pub open spec fn has_email(s: Seq<UserView>, email: Seq<char>) -> bool {
    first_user(s, email, true) is Some
}

impl SurrealAdapter {
    /// An adapter with no users, tokens or sessions.
    pub fn new() -> (r: SurrealAdapter)
        ensures
            r.users@.len() == 0,
            r.tokens@ == Seq::<crate::auth::TokenView>::empty(),
            r.sessions@ == Seq::<SessionView>::empty(),
    {
        SurrealAdapter { users: Vec::new(), tokens: TokenStore::new(), sessions: SessionStore::new() }
    }

    /// Stores a new user; `Conflict` if one with the same address exists.
    pub fn create_user(&mut self, user: User) -> (r: Result<User, AuthError>)
        ensures
            has_email(user_views(old(self).users@), user.email.0@) ==> r == Err::<User, AuthError>(
                AuthError::Conflict,
            ) && final(self).users@ == old(self).users@,
            !has_email(user_views(old(self).users@), user.email.0@) ==> (r matches Ok(u) && u@
                == user@ && final(self).users@ == old(self).users@.push(user)),
            final(self).tokens@ == old(self).tokens@,
            final(self).sessions@ == old(self).sessions@,
    {
        match find_user(&self.users, user.email.0.as_str(), true) {
            Ok(_) => Err(AuthError::Conflict),
            Err(_) => {
                let r = user.copy();
                self.users.push(user);
                Ok(r)
            },
        }
    }

    /// The user with id `id`.
    pub fn get_user(&self, id: &str) -> (r: Result<User, AuthError>)
        ensures
            user_result_view(r) == match first_user(user_views(self.users@), id@, false) {
                Some(u) => Ok(u),
                None => Err(AuthError::NotFound),
            },
    {
        find_user(&self.users, id, false)
    }

    /// Issues a sign-in token for `identifier`.
    pub fn create_verification_token(&mut self, identifier: String, expires: i64) -> (r:
        crate::auth::VerificationToken)
        ensures
            r.identifier@ == identifier@,
            r.expires == expires,
            r.token@.len() == 36,
            final(self).tokens@ == old(self).tokens@.push(r@),
            final(self).users@ == old(self).users@,
            final(self).sessions@ == old(self).sessions@,
    {
        self.tokens.create(identifier, expires)
    }

    /// Issues a sign-in token for `user`'s address, valid for one hour from
    /// `now`.
    pub fn new_verification_token(&mut self, user: &User, now: i64) -> (r:
        crate::auth::VerificationToken)
        requires
            now <= i64::MAX - TOKEN_LIFETIME_MS,
        ensures
            r.identifier@ == user.email.0@,
            r.expires == now + TOKEN_LIFETIME_MS,
            r.token@.len() == 36,
            final(self).tokens@ == old(self).tokens@.push(r@),
            final(self).users@ == old(self).users@,
            final(self).sessions@ == old(self).sessions@,
    {
        self.create_verification_token(user.email.to_string(), now + TOKEN_LIFETIME_MS)
    }

    /// Redeems a sign-in token (see `TokenStore::redeem`).
    pub fn use_verification_token(&mut self, identifier: &str, token: &str, now: i64) -> (r:
        Result<crate::auth::VerificationToken, AuthError>)
        ensures
            final(self).tokens@ == crate::auth::unmatched_tokens(
                old(self).tokens@,
                identifier@,
                token@,
            ),
            crate::auth::token_result_view(r) == crate::auth::redemption(
                crate::auth::last_matching_token(old(self).tokens@, identifier@, token@),
                now,
            ),
            final(self).users@ == old(self).users@,
            final(self).sessions@ == old(self).sessions@,
    {
        self.tokens.redeem(identifier, token, now)
    }

    /// Issues a session for `user_id`.
    pub fn create_session(&mut self, user_id: String, now: i64) -> (r: Session)
        requires
            now <= i64::MAX - SESSION_LIFETIME_MS,
        ensures
            r.user_id@ == user_id@,
            r.session_token@.len() == 36,
            r.expires == now + SESSION_LIFETIME_MS,
            final(self).sessions@ == old(self).sessions@.push(r@),
            final(self).users@ == old(self).users@,
            final(self).tokens@ == old(self).tokens@,
    {
        self.sessions.create(user_id, now)
    }

    /// Moves the expiry of the sessions carrying `session_token` (see
    /// `SessionStore::update`).
    pub fn update_session(&mut self, session_token: &str, expires: i64) -> (r: Result<
        Session,
        AuthError,
    >)
        ensures
            final(self).sessions@ == sessions_renewed(old(self).sessions@, session_token@, expires),
            session_result_view(r) == match last_session(old(self).sessions@, session_token@) {
                Some(s) => Ok(SessionView { expires, ..s }),
                None => Err(AuthError::Unauthenticated),
            },
            final(self).users@ == old(self).users@,
            final(self).tokens@ == old(self).tokens@,
    {
        self.sessions.update(session_token, expires)
    }

    /// Ends the sessions carrying `session_token` (see `SessionStore::delete`).
    pub fn delete_session(&mut self, session_token: &str) -> (r: Result<Session, AuthError>)
        ensures
            final(self).sessions@ == sessions_without(old(self).sessions@, session_token@),
            session_result_view(r) == match last_session(old(self).sessions@, session_token@) {
                Some(s) => Ok(s),
                None => Err(AuthError::Unauthenticated),
            },
            final(self).users@ == old(self).users@,
            final(self).tokens@ == old(self).tokens@,
    {
        self.sessions.delete(session_token)
    }

    /// Exchanges a sign-in token for a session: the token is consumed, the
    /// user whose address is the token's identifier is looked up, and a new
    /// session for that user is stored and returned.
    pub fn sign_in(&mut self, identifier: &str, token: &str, now: i64) -> (r: Result<
        Session,
        AuthError,
    >)
        requires
            now <= i64::MAX - SESSION_LIFETIME_MS,
        ensures
            final(self).tokens@ == crate::auth::unmatched_tokens(
                old(self).tokens@,
                identifier@,
                token@,
            ),
            final(self).users@ == old(self).users@,
            ({
                let redeemed = crate::auth::redemption(
                    crate::auth::last_matching_token(old(self).tokens@, identifier@, token@),
                    now,
                );
                match redeemed {
                    Err(e) => r == Err::<Session, AuthError>(e) && final(self).sessions@ == old(
                        self,
                    ).sessions@,
                    Ok(t) => match first_user(user_views(old(self).users@), t.identifier, true) {
                        None => r == Err::<Session, AuthError>(AuthError::NotFound)
                            && final(self).sessions@ == old(self).sessions@,
                        Some(u) => r matches Ok(s) && s.user_id@ == u.id && s.expires == now
                            + SESSION_LIFETIME_MS && final(self).sessions@ == old(
                            self,
                        ).sessions@.push(s@),
                    },
                }
            }),
    {
        let t = match self.tokens.redeem(identifier, token, now) {
            Ok(t) => t,
            Err(e) => {
                return Err(e);
            },
        };
        let user = match find_user(&self.users, t.identifier.as_str(), true) {
            Ok(u) => u,
            Err(e) => {
                return Err(e);
            },
        };
        let s = self.sessions.create(user.id, now);
        Ok(s)
    }

    /// The user that a presented session credential belongs to.
    pub fn user_for_session(&self, session_token: &str, now: i64) -> (r: Result<User, AuthError>)
        ensures
            user_result_view(r) == match authentication(
                last_session(self.sessions@, session_token@),
                now,
            ) {
                Err(e) => Err(e),
                Ok(s) => match first_user(user_views(self.users@), s.user_id, false) {
                    Some(u) => Ok(u),
                    None => Err(AuthError::Unauthenticated),
                },
            },
    {
        let s = match self.sessions.authenticate(session_token, now) {
            Ok(s) => s,
            Err(e) => {
                return Err(e);
            },
        };
        match find_user(&self.users, s.user_id.as_str(), false) {
            Ok(u) => Ok(u),
            Err(_) => Err(AuthError::Unauthenticated),
        }
    }
}

} // verus!
