use vstd::prelude::*;

use crate::auth::AuthError;
use crate::events::copy_opt;
use crate::session::{authentication, first_user, last_session, user_views, SurrealAdapter, User};
use crate::text::{contains_seq, contains_str, int_decimal, opt_view, push_decimal_i64};

verus! {

/// Who a live connection speaks as. `user_id` is the signed-in user's id,
/// absent for anonymous participants.
#[derive(Debug)]
pub struct ClientIdentity {
    pub client_id: String,
    pub display_name: String,
    pub user_id: Option<String>,
}

pub struct IdentityView {
    pub client_id: Seq<char>,
    pub display_name: Seq<char>,
    pub user_id: Option<Seq<char>>,
}

impl View for ClientIdentity {
    type V = IdentityView;

    open spec fn view(&self) -> IdentityView {
        IdentityView {
            client_id: self.client_id@,
            display_name: self.display_name@,
            user_id: opt_view(self.user_id),
        }
    }
}

impl ClientIdentity {
    /// A field-by-field copy.
    pub fn copy(&self) -> (r: ClientIdentity)
        ensures
            r@ == self@,
    {
        ClientIdentity {
            client_id: self.client_id.clone(),
            display_name: self.display_name.clone(),
            user_id: copy_opt(&self.user_id),
        }
    }
}

pub open spec fn anon_prefix() -> Seq<char> {
    seq!['a', 'n', 'o', 'n', '_']
}

pub open spec fn anonymous_word() -> Seq<char> {
    seq!['A', 'n', 'o', 'n', 'y', 'm', 'o', 'u', 's']
}

/// The client id of an anonymous participant who connected at `millis`.
pub open spec fn anon_client_id(millis: i64) -> Seq<char> {
    anon_prefix() + int_decimal(millis as int)
}

/// Its display name: `Anonymous` and the first four characters of the
/// instant's decimal notation (all of them if it is shorter).
pub open spec fn anon_display_name(millis: i64) -> Seq<char> {
    let d = int_decimal(millis as int);
    anonymous_word() + d.subrange(0, if d.len() < 4 { d.len() as int } else { 4 })
}

/// The identity given to a connection, from the outcome of resolving its
/// credential and the instant it connected.
pub open spec fn identity_for(lookup: Result<crate::session::UserView, AuthError>, millis: i64) -> IdentityView {
    match lookup {
        Ok(u) => IdentityView { client_id: u.id, display_name: u.name, user_id: Some(u.id) },
        Err(_) => IdentityView {
            client_id: anon_client_id(millis),
            display_name: anon_display_name(millis),
            user_id: None,
        },
    }
}

pub open spec fn session_cookie_word() -> Seq<char> {
    seq!['s', 'e', 's', 's', 'i', 'o', 'n', '_', 't', 'o', 'k', 'e', 'n']
}

/// The value of the first cookie whose name contains `session_token`.
pub open spec fn session_cookie_spec(cookies: Seq<(Seq<char>, Seq<char>)>) -> Option<Seq<char>>
    decreases cookies.len(),
{
    if cookies.len() == 0 {
        None
    } else if contains_seq(cookies[0].0, session_cookie_word()) {
        Some(cookies[0].1)
    } else {
        session_cookie_spec(cookies.drop_first())
    }
}

pub open spec fn cookie_views(cookies: Seq<(String, String)>) -> Seq<(Seq<char>, Seq<char>)> {
    cookies.map_values(|c: (String, String)| (c.0@, c.1@))
}

/// The session credential among the handshake's cookies, given as
/// `(name, value)` pairs.
pub fn session_cookie(cookies: &Vec<(String, String)>) -> (r: Option<String>)
    ensures
        opt_view(r) == session_cookie_spec(cookie_views(cookies@)),
{
    proof {
        reveal_strlit("session_token");
        assert("session_token"@ =~= session_cookie_word());
    }
    let ghost all = cookie_views(cookies@);
    let mut i: usize = 0;
    proof {
        assert(all.subrange(0, all.len() as int) =~= all);
    }
    while i < cookies.len()
        invariant
            all == cookie_views(cookies@),
            i <= cookies@.len(),
            session_cookie_spec(all) == session_cookie_spec(all.subrange(i as int, all.len() as int)),
        decreases cookies@.len() - i,
    {
        let c = &cookies[i];
        let hit = contains_str(c.0.as_str(), "session_token");
        proof {
            assert(all.len() == cookies@.len());
            let sub = all.subrange(i as int, all.len() as int);
            assert(sub.len() > 0);
            assert(sub.drop_first() =~= all.subrange(i + 1, all.len() as int));
            assert(sub[0] == (c.0@, c.1@));
            reveal_strlit("session_token");
            assert("session_token"@ =~= session_cookie_word());
            assert(hit == contains_seq(sub[0].0, session_cookie_word()));
            assert(session_cookie_spec(sub) == if hit {
                Some(sub[0].1)
            } else {
                session_cookie_spec(sub.drop_first())
            });
        }
        if hit {
            return Some(c.1.clone());
        }
        i = i + 1;
    }
    proof {
        assert(all.subrange(i as int, all.len() as int) =~= Seq::<(Seq<char>, Seq<char>)>::empty());
    }
    None
}

/// The identity of a connection whose credential resolved to `lookup`: the
/// user's own id and name, or an anonymous identity derived from `millis`.
pub fn resolve_identity(lookup: &Result<User, AuthError>, millis: i64) -> (r: ClientIdentity)
    ensures
        r@ == identity_for(crate::session::user_result_view(*lookup), millis),
{
    match lookup {
        Ok(u) => ClientIdentity {
            client_id: u.id.clone(),
            display_name: u.name.clone(),
            user_id: Some(u.id.clone()),
        },
        Err(_) => {
            proof {
                reveal_strlit("anon_");
                reveal_strlit("Anonymous");
            }
            let mut digits = String::new();
            push_decimal_i64(&mut digits, millis);
            let ds = crate::text::chars_of(digits.as_str());
            let mut id = String::new();
            id.append("anon_");
            push_decimal_i64(&mut id, millis);
            let mut name = String::new();
            name.append("Anonymous");
            let k: usize = if ds.len() < 4 {
                ds.len()
            } else {
                4
            };
            let mut j: usize = 0;
            proof {
                lemma_decimal_chars(millis as int);
            }
            while j < k
                invariant
                    ds@ == int_decimal(millis as int),
                    forall|x: int| 0 <= x < ds@.len() ==> is_decimal_char(#[trigger] ds@[x]),
                    k <= ds@.len(),
                    j <= k,
                    name@ == anonymous_word() + ds@.subrange(0, j as int),
                decreases k - j,
            {
                push_char(&mut name, ds[j]);
                proof {
                    assert(ds@.subrange(0, j + 1) =~= ds@.subrange(0, j as int).push(ds@[j as int]));
                }
                j = j + 1;
            }
            proof {
                assert(id@ =~= anon_client_id(millis));
            }
            ClientIdentity { client_id: id, display_name: name, user_id: None }
        },
    }
}

/// Appends a decimal digit or a minus sign to `out`.
fn push_char(out: &mut String, c: char)
    requires
        is_decimal_char(c),
    ensures
        final(out)@ == old(out)@.push(c),
{
    proof {
        reveal_strlit("-");
        reveal_strlit("0");
        reveal_strlit("1");
        reveal_strlit("2");
        reveal_strlit("3");
        reveal_strlit("4");
        reveal_strlit("5");
        reveal_strlit("6");
        reveal_strlit("7");
        reveal_strlit("8");
        reveal_strlit("9");
    }
    if c == '-' {
        out.append("-");
    } else if c == '0' {
        out.append("0");
    } else if c == '1' {
        out.append("1");
    } else if c == '2' {
        out.append("2");
    } else if c == '3' {
        out.append("3");
    } else if c == '4' {
        out.append("4");
    } else if c == '5' {
        out.append("5");
    } else if c == '6' {
        out.append("6");
    } else if c == '7' {
        out.append("7");
    } else if c == '8' {
        out.append("8");
    } else if c == '9' {
        out.append("9");
    }
}

/// Admits a connection: finds its session credential among the cookies,
/// resolves it to a user, and falls back to an anonymous identity when the
/// credential is absent, unknown or lapsed. The second component is the
/// authentication failure, if there was one.
pub fn identify(auth: &SurrealAdapter, cookies: &Vec<(String, String)>, millis: i64) -> (r: (
    ClientIdentity,
    Option<AuthError>,
))
    ensures
        ({
            let lookup = match session_cookie_spec(cookie_views(cookies@)) {
                None => Err(AuthError::Unauthenticated),
                Some(tok) => match authentication(last_session(auth.sessions@, tok), millis) {
                    Err(e) => Err(e),
                    Ok(s) => match first_user(user_views(auth.users@), s.user_id, false) {
                        Some(u) => Ok(u),
                        None => Err(AuthError::Unauthenticated),
                    },
                },
            };
            &&& r.0@ == identity_for(lookup, millis)
            &&& r.1 == match lookup {
                Ok(_) => None,
                Err(e) => Some(e),
            }
        }),
{
    let lookup = match session_cookie(cookies) {
        None => Err(AuthError::Unauthenticated),
        Some(tok) => auth.user_for_session(tok.as_str(), millis),
    };
    let id = resolve_identity(&lookup, millis);
    let status = match lookup {
        Ok(_) => None,
        Err(e) => Some(e),
    };
    (id, status)
}

/// A credential that names no stored session gets `Unauthenticated` and an
/// anonymous identity whose display name is `Anonymous` and a suffix.
pub proof fn lemma_unknown_session_is_anonymous(
    sessions: Seq<crate::session::SessionView>,
    users: Seq<crate::session::UserView>,
    token: Seq<char>,
    millis: i64,
)
    requires
        last_session(sessions, token) is None,
    ensures
        ({
            let lookup: Result<crate::session::UserView, AuthError> = match authentication(
                last_session(sessions, token),
                millis,
            ) {
                Err(e) => Err(e),
                Ok(s) => match first_user(users, s.user_id, false) {
                    Some(u) => Ok(u),
                    None => Err(AuthError::Unauthenticated),
                },
            };
            let id = identity_for(lookup, millis);
            &&& lookup == Err::<crate::session::UserView, AuthError>(AuthError::Unauthenticated)
            &&& id.user_id is None
            &&& id.display_name.len() > 9
            &&& id.display_name.subrange(0, 9) == anonymous_word()
        }),
{
    let d = int_decimal(millis as int);
    lemma_decimal_nonempty(millis as int);
    let id = identity_for(Err(AuthError::Unauthenticated), millis);
    assert(id.display_name.subrange(0, 9) =~= anonymous_word());
}

pub open spec fn is_decimal_char(c: char) -> bool {
    c == '-' || c == '0' || c == '1' || c == '2' || c == '3' || c == '4' || c == '5' || c == '6'
        || c == '7' || c == '8' || c == '9'
}

proof fn lemma_nat_decimal_chars(n: nat)
    ensures
        forall|x: int|
            0 <= x < crate::text::nat_decimal(n).len() ==> is_decimal_char(
                #[trigger] crate::text::nat_decimal(n)[x],
            ),
    decreases n,
{
    let d = crate::text::nat_decimal(n);
    if n >= 10 {
        lemma_nat_decimal_chars(n / 10);
        let p = crate::text::nat_decimal(n / 10);
        assert forall|x: int| 0 <= x < d.len() implies is_decimal_char(#[trigger] d[x]) by {
            if x < p.len() {
                assert(d[x] == p[x]);
            } else {
                assert(d[x] == crate::text::digit_char(n % 10));
            }
        }
    } else {
        assert(d[0] == crate::text::digit_char(n));
    }
}

/// Every character of a decimal notation is a digit or a minus sign.
proof fn lemma_decimal_chars(n: int)
    ensures
        forall|x: int| 0 <= x < int_decimal(n).len() ==> is_decimal_char(#[trigger] int_decimal(n)[x]),
{
    if n < 0 {
        lemma_nat_decimal_chars((-n) as nat);
        let d = crate::text::nat_decimal((-n) as nat);
        assert forall|x: int| 0 <= x < int_decimal(n).len() implies is_decimal_char(
            #[trigger] int_decimal(n)[x],
        ) by {
            if x > 0 {
                assert(int_decimal(n)[x] == d[x - 1]);
            }
        }
    } else {
        lemma_nat_decimal_chars(n as nat);
    }
}

/// Decimal notation is never empty.
pub proof fn lemma_decimal_nonempty(n: int)
    ensures
        int_decimal(n).len() > 0,
{
    if n < 0 {
    } else {
        let m = n as nat;
        if m >= 10 {
            assert(crate::text::nat_decimal(m).len() == crate::text::nat_decimal(m / 10).len() + 1);
        }
    }
}

} // verus!
