use vstd::prelude::*;

use crate::platform::{clock_millis, pattern_matches, regex_matches};
use crate::text::{int_decimal, push_decimal_i64};

verus! {

/// The shape an address must have to pass `validate_email`: a local part,
/// `@`, and a domain holding a dot, none of them with whitespace or `@`.
pub const EMAIL_PATTERN: &'static str = "^[^\\s@]+@[^\\s@]+\\.[^\\s@]+$";

/// An e-mail address, used as the identifier that sign-in tokens are tied to.
#[derive(Debug)]
pub struct EmailAddress(pub String);

/// Text accepted as an address: not empty, and holding an `@`.
pub open spec fn plausible_address(s: Seq<char>) -> bool {
    s.len() > 0 && exists|i: int| 0 <= i < s.len() && s[i] == '@'
}

/// The message of a rejected address.
pub open spec fn invalid_address_message() -> Seq<char> {
    seq![
        'I', 'n', 'v', 'a', 'l', 'i', 'd', ' ', 'e', 'm', 'a', 'i', 'l', ' ', 'a', 'd', 'd', 'r',
        'e', 's', 's',
    ]
}

/// The throwaway address made at a given instant.
pub open spec fn test_address(millis: i64) -> Seq<char> {
    seq!['t', 'e', 's', 't', '_'] + int_decimal(millis as int) + seq![
        '@',
        't',
        'e',
        's',
        't',
        '.',
        'c',
        'o',
        'm',
    ]
}

impl EmailAddress {
    /// The empty address.
    pub fn create_blank() -> (r: EmailAddress)
        ensures
            r.0@ == Seq::<char>::empty(),
    {
        EmailAddress(String::new())
    }

    /// Whether the address has the shape of `EMAIL_PATTERN`.
    pub fn validate_email(&self) -> (r: bool)
        ensures
            r ==> regex_matches(EMAIL_PATTERN@, self.0@),
    {
        match pattern_matches(EMAIL_PATTERN, self.0.as_str()) {
            Some(b) => b,
            None => false,
        }
    }

    /// The throwaway address `test_<millis>@test.com`.
    pub fn test_email_at(millis: i64) -> (r: EmailAddress)
        ensures
            r.0@ == test_address(millis),
    {
        proof {
            reveal_strlit("test_");
            reveal_strlit("@test.com");
        }
        let mut s = String::new();
        s.append("test_");
        push_decimal_i64(&mut s, millis);
        s.append("@test.com");
        proof {
            assert(s@ =~= test_address(millis));
        }
        EmailAddress(s)
    }

    /// A throwaway address made from the current time.
    pub fn create_test_email() -> (r: EmailAddress)
        ensures
            exists|millis: i64| r.0@ == test_address(millis),
    {
        let now = clock_millis();
        EmailAddress::test_email_at(now)
    }

    /// Reads an address: it must be non-empty and hold an `@`.
    pub fn from_str(s: &str) -> (r: Result<EmailAddress, String>)
        ensures
            r is Ok <==> plausible_address(s@),
            r matches Ok(e) ==> e.0@ == s@,
            r matches Err(m) ==> m@ == invalid_address_message(),
    {
        proof {
            reveal_strlit("Invalid email address");
            assert("Invalid email address"@ =~= invalid_address_message());
        }
        let cs = crate::text::chars_of(s);
        let mut i: usize = 0;
        let mut found = false;
        while i < cs.len()
            invariant
                cs@ == s@,
                i <= cs@.len(),
                found == exists|k: int| 0 <= k < i && cs@[k] == '@',
            decreases cs@.len() - i,
        {
            if cs[i] == '@' {
                found = true;
            }
            i = i + 1;
        }
        if cs.len() == 0 || !found {
            Err(String::from_str("Invalid email address"))
        } else {
            Ok(EmailAddress(String::from_str(s)))
        }
    }

    /// The address as text.
    pub fn to_string(&self) -> (r: String)
        ensures
            r@ == self.0@,
    {
        self.0.clone()
    }

    /// A copy of the address.
    pub fn copy(&self) -> (r: EmailAddress)
        ensures
            r.0@ == self.0@,
    {
        EmailAddress(self.0.clone())
    }
}

impl Default for EmailAddress {
    fn default() -> (r: EmailAddress)
        ensures
            r.0@ == Seq::<char>::empty(),
    {
        EmailAddress(String::new())
    }
}

} // verus!
