use vstd::prelude::*;

use crate::platform::fresh_secret;
use crate::text::str_eq;

verus! {

/// Failures of the sign-in and session paths.
#[derive(Debug, Clone, Copy, PartialEq, Eq, Structural)]
pub enum AuthError {
    /// No token, session or user matches.
    NotFound,
    /// The token was past its expiry when it was redeemed.
    Expired,
    /// The session credential is missing, unknown or lapsed.
    Unauthenticated,
    /// The storage collaborator could not be reached.
    StorageUnavailable,
    /// The record to be created exists already.
    Conflict,
}

/// How long a session stays valid: 365 days, in milliseconds.
pub const SESSION_LIFETIME_MS: i64 = 31_536_000_000;

/// How long a sign-in token stays valid: one hour, in milliseconds.
pub const TOKEN_LIFETIME_MS: i64 = 3_600_000;

// ---------------------------------------------------------------- tokens
/// A one-time secret proving control of `identifier`, valid until `expires`
/// (milliseconds since the Unix epoch).
#[derive(Debug)]
pub struct VerificationToken {
    pub identifier: String,
    pub token: String,
    pub expires: i64,
}

pub struct TokenView {
    pub identifier: Seq<char>,
    pub token: Seq<char>,
    pub expires: i64,
}

impl View for VerificationToken {
    type V = TokenView;

    open spec fn view(&self) -> TokenView {
        TokenView { identifier: self.identifier@, token: self.token@, expires: self.expires }
    }
}

impl VerificationToken {
    /// A field-by-field copy.
    pub fn copy(&self) -> (r: VerificationToken)
        ensures
            r@ == self@,
    {
        VerificationToken {
            identifier: self.identifier.clone(),
            token: self.token.clone(),
            expires: self.expires,
        }
    }
}

pub open spec fn token_views(s: Seq<VerificationToken>) -> Seq<TokenView> {
    s.map_values(|t: VerificationToken| t@)
}

pub open spec fn token_matches(t: TokenView, identifier: Seq<char>, token: Seq<char>) -> bool {
    t.identifier == identifier && t.token == token
}

/// The rows that do not match the pair, in their order.
pub open spec fn unmatched_tokens(s: Seq<TokenView>, identifier: Seq<char>, token: Seq<char>) -> Seq<
    TokenView,
>
    decreases s.len(),
{
    if s.len() == 0 {
        s
    } else {
        let rest = unmatched_tokens(s.drop_last(), identifier, token);
        if token_matches(s.last(), identifier, token) {
            rest
        } else {
            rest.push(s.last())
        }
    }
}

/// The most recently created row that matches the pair.
pub open spec fn last_matching_token(
    s: Seq<TokenView>,
    identifier: Seq<char>,
    token: Seq<char>,
) -> Option<TokenView>
    decreases s.len(),
{
    if s.len() == 0 {
        None
    } else if token_matches(s.last(), identifier, token) {
        Some(s.last())
    } else {
        last_matching_token(s.drop_last(), identifier, token)
    }
}

/// What a redemption reports, given the row it consumed (if any) and the time.
pub open spec fn redemption(consumed: Option<TokenView>, now: i64) -> Result<TokenView, AuthError> {
    match consumed {
        None => Err(AuthError::NotFound),
        Some(t) => if t.expires < now {
            Err(AuthError::Expired)
        } else {
            Ok(t)
        },
    }
}

pub open spec fn token_result_view(r: Result<VerificationToken, AuthError>) -> Result<
    TokenView,
    AuthError,
> {
    match r {
        Ok(t) => Ok(t@),
        Err(e) => Err(e),
    }
}

pub open spec fn token_opt_view(o: Option<VerificationToken>) -> Option<TokenView> {
    match o {
        Some(t) => Some(t@),
        None => None,
    }
}

/// Decides a redemption once storage has deleted and returned the matching
/// row: none is `NotFound`, one past its expiry is `Expired`.
pub fn redeem_outcome(consumed: Option<VerificationToken>, now: i64) -> (r: Result<
    VerificationToken,
    AuthError,
>)
    ensures
        token_result_view(r) == redemption(token_opt_view(consumed), now),
{
    match consumed {
        None => Err(AuthError::NotFound),
        Some(t) => if t.expires < now {
            Err(AuthError::Expired)
        } else {
            Ok(t)
        },
    }
}

/// Outstanding sign-in tokens. Several may exist for one identifier.
pub struct TokenStore {
    rows: Vec<VerificationToken>,
}

impl View for TokenStore {
    type V = Seq<TokenView>;

    closed spec fn view(&self) -> Seq<TokenView> {
        token_views(self.rows@)
    }
}

impl TokenStore {
    /// A store with no tokens.
    pub fn new() -> (r: TokenStore)
        ensures
            r@ == Seq::<TokenView>::empty(),
    {
        let r = TokenStore { rows: Vec::new() };
        proof {
            assert(r@ =~= Seq::<TokenView>::empty());
        }
        r
    }

    /// Number of outstanding tokens.
    pub fn len(&self) -> (r: usize)
        ensures
            r == self@.len(),
    {
        self.rows.len()
    }

    /// Stores a new token for `identifier` with a fresh random secret and
    /// returns it.
    pub fn create(&mut self, identifier: String, expires: i64) -> (r: VerificationToken)
        ensures
            r.identifier@ == identifier@,
            r.expires == expires,
            r.token@.len() == 36,
            final(self)@ == old(self)@.push(r@),
    {
        let t = VerificationToken { identifier, token: fresh_secret(), expires };
        let r = t.copy();
        self.rows.push(t);
        proof {
            assert(token_views(self.rows@) =~= token_views(old(self).rows@).push(t@));
        }
        r
    }

    /// Consumes every token matching the pair in one step and reports on the
    /// most recent of them: `NotFound` if there was none, `Expired` if it was
    /// past its expiry at `now`. The rows are gone in either case.
    pub fn redeem(&mut self, identifier: &str, token: &str, now: i64) -> (r: Result<
        VerificationToken,
        AuthError,
    >)
        ensures
            final(self)@ == unmatched_tokens(old(self)@, identifier@, token@),
            token_result_view(r) == redemption(
                last_matching_token(old(self)@, identifier@, token@),
                now,
            ),
    {
        let ghost all = token_views(self.rows@);
        let n = self.rows.len();
        let mut kept: Vec<VerificationToken> = Vec::new();
        let mut found: Option<VerificationToken> = None;
        let mut i: usize = 0;
        while i < n
            invariant
                n == self.rows@.len(),
                all == token_views(self.rows@),
                i <= n,
                token_views(kept@) == unmatched_tokens(all.subrange(0, i as int), identifier@, token@),
                token_opt_view(found) == last_matching_token(
                    all.subrange(0, i as int),
                    identifier@,
                    token@,
                ),
            decreases n - i,
        {
            let row = &self.rows[i];
            let hit = str_eq(row.identifier.as_str(), identifier) && str_eq(row.token.as_str(), token);
            let ghost before = kept@;
            proof {
                let s = all.subrange(0, i + 1);
                assert(s.drop_last() =~= all.subrange(0, i as int));
                assert(s.last() == row@);
            }
            if hit {
                found = Some(row.copy());
            } else {
                kept.push(row.copy());
                proof {
                    assert(token_views(kept@) =~= token_views(before).push(row@));
                }
            }
            i = i + 1;
        }
        proof {
            assert(all.subrange(0, n as int) =~= all);
        }
        self.rows = kept;
        redeem_outcome(found, now)
    }
}

/// Redeeming leaves no row that matches the pair.
pub proof fn lemma_no_match_after_redeem(s: Seq<TokenView>, identifier: Seq<char>, token: Seq<char>)
    ensures
        last_matching_token(unmatched_tokens(s, identifier, token), identifier, token) is None,
    decreases s.len(),
{
    if s.len() > 0 {
        lemma_no_match_after_redeem(s.drop_last(), identifier, token);
        let rest = unmatched_tokens(s.drop_last(), identifier, token);
        if !token_matches(s.last(), identifier, token) {
            assert(rest.push(s.last()).drop_last() =~= rest);
        }
    }
}

/// A token redeemed with its own pair no later than its expiry succeeds and
/// hands the token back; a second redemption of the same pair is `NotFound`.
pub proof fn lemma_redeem_before_expiry_once(
    rows: Seq<TokenView>,
    identifier: Seq<char>,
    token: Seq<char>,
    expires: i64,
    now: i64,
    later: i64,
)
    requires
        now <= expires,
    ensures
        ({
            let created = TokenView { identifier, token, expires };
            let s1 = rows.push(created);
            let s2 = unmatched_tokens(s1, identifier, token);
            &&& redemption(last_matching_token(s1, identifier, token), now) == Ok::<
                TokenView,
                AuthError,
            >(created)
            &&& redemption(last_matching_token(s2, identifier, token), later) == Err::<
                TokenView,
                AuthError,
            >(AuthError::NotFound)
        }),
{
    let created = TokenView { identifier, token, expires };
    let s1 = rows.push(created);
    assert(s1.last() == created);
    lemma_no_match_after_redeem(s1, identifier, token);
}

/// A token redeemed after its expiry is `Expired`, and is consumed all the
/// same: a second redemption of the same pair is `NotFound`.
pub proof fn lemma_redeem_after_expiry_consumes(
    rows: Seq<TokenView>,
    identifier: Seq<char>,
    token: Seq<char>,
    expires: i64,
    now: i64,
    later: i64,
)
    requires
        now > expires,
    ensures
        ({
            let created = TokenView { identifier, token, expires };
            let s1 = rows.push(created);
            let s2 = unmatched_tokens(s1, identifier, token);
            &&& redemption(last_matching_token(s1, identifier, token), now) == Err::<
                TokenView,
                AuthError,
            >(AuthError::Expired)
            &&& redemption(last_matching_token(s2, identifier, token), later) == Err::<
                TokenView,
                AuthError,
            >(AuthError::NotFound)
        }),
{
    let created = TokenView { identifier, token, expires };
    let s1 = rows.push(created);
    assert(s1.last() == created);
    lemma_no_match_after_redeem(s1, identifier, token);
}

} // verus!
