use vstd::prelude::*;
use vstd::std_specs::iter::IteratorSpec;

verus! {

broadcast use vstd::string::axiom_spec_iter, vstd::string::next_postcondition;

/// The character sequence of an optional string.
pub open spec fn opt_view(o: Option<String>) -> Option<Seq<char>> {
    match o {
        Some(s) => Some(s@),
        None => None,
    }
}

/// `needle` occurs in `hay` as a contiguous run starting at `start`.
pub open spec fn occurs_at(hay: Seq<char>, needle: Seq<char>, start: int) -> bool {
    0 <= start && start + needle.len() <= hay.len() && hay.subrange(start, start + needle.len())
        == needle
}

/// `needle` occurs somewhere in `hay`.
pub open spec fn contains_seq(hay: Seq<char>, needle: Seq<char>) -> bool {
    exists|i: int| occurs_at(hay, needle, i)
}

/// The decimal digit for `d < 10`.
pub open spec fn digit_char(d: nat) -> char {
    if d == 0 {
        '0'
    } else if d == 1 {
        '1'
    } else if d == 2 {
        '2'
    } else if d == 3 {
        '3'
    } else if d == 4 {
        '4'
    } else if d == 5 {
        '5'
    } else if d == 6 {
        '6'
    } else if d == 7 {
        '7'
    } else if d == 8 {
        '8'
    } else {
        '9'
    }
}

/// Decimal notation of a natural number, without leading zeros.
pub open spec fn nat_decimal(n: nat) -> Seq<char>
    decreases n,
{
    if n < 10 {
        seq![digit_char(n)]
    } else {
        nat_decimal(n / 10) + seq![digit_char(n % 10)]
    }
}

/// Decimal notation of an integer, with a leading `-` when it is negative.
pub open spec fn int_decimal(n: int) -> Seq<char> {
    if n < 0 {
        seq!['-'] + nat_decimal((-n) as nat)
    } else {
        nat_decimal(n as nat)
    }
}

/// The characters of `s`, in order.
pub fn chars_of(s: &str) -> (r: Vec<char>)
    ensures
        r@ == s@,
{
    let mut out: Vec<char> = Vec::new();
    let mut it = s.chars();
    let ghost total = s@;
    loop
        invariant
            it.remaining() == total.subrange(out@.len() as int, total.len() as int),
            out@ == total.subrange(0, out@.len() as int),
            out@.len() <= total.len(),
        ensures
            out@ == total,
        decreases total.len() - out@.len(),
    {
        let next = it.next();
        match next {
            Some(c) => {
                out.push(c);
            },
            None => {
                assert(out@ =~= total);
                break ;
            },
        }
    }
    out
}

/// Whether `needle` occurs in `hay` starting at `start`.
fn occurs_at_exec(hay: &Vec<char>, needle: &Vec<char>, start: usize) -> (r: bool)
    requires
        start + needle@.len() <= hay@.len(),
    ensures
        r == occurs_at(hay@, needle@, start as int),
{
    let hlen = hay.len();
    let mut j: usize = 0;
    while j < needle.len()
        invariant
            start + needle@.len() <= hay@.len(),
            hlen == hay@.len(),
            j <= needle@.len(),
            forall|k: int| 0 <= k < j ==> hay@[start + k] == needle@[k],
        decreases needle@.len() - j,
    {
        if hay[start + j] != needle[j] {
            assert(hay@.subrange(start as int, start + needle@.len())[j as int] != needle@[j as int]);
            return false;
        }
        j = j + 1;
    }
    assert(hay@.subrange(start as int, start + needle@.len()) =~= needle@);
    true
}

/// Whether `needle` occurs somewhere in `hay`.
pub fn contains_str(hay: &str, needle: &str) -> (r: bool)
    ensures
        r == contains_seq(hay@, needle@),
{
    let h = chars_of(hay);
    let n = chars_of(needle);
    if n.len() > h.len() {
        assert forall|i: int| !occurs_at(hay@, needle@, i) by {}
        return false;
    }
    let last = h.len() - n.len();
    let mut i: usize = 0;
    while i <= last
        invariant
            last == h@.len() - n@.len(),
            h@ == hay@,
            n@ == needle@,
            n@.len() <= h@.len(),
            i <= last + 1,
            forall|k: int| 0 <= k < i ==> !occurs_at(hay@, needle@, k),
        decreases last + 1 - i,
    {
        if occurs_at_exec(&h, &n, i) {
            return true;
        }
        if i == last {
            assert forall|k: int| !occurs_at(hay@, needle@, k) by {}
            return false;
        }
        i = i + 1;
    }
    assert forall|k: int| !occurs_at(hay@, needle@, k) by {
        if 0 <= k < i {
        } else {
        }
    }
    false
}

/// A one-character string holding the digit `d`.
fn digit_str(d: u64) -> (r: &'static str)
    requires
        d < 10,
    ensures
        r@ == seq![digit_char(d as nat)],
{
    proof {
        reveal_strlit("0");
        reveal_strlit("1");
        reveal_strlit("2");
        reveal_strlit("3");
        reveal_strlit("4");
        reveal_strlit("5");
        reveal_strlit("6");
        reveal_strlit("7");
        reveal_strlit("8");
        reveal_strlit("9");
    }
    if d == 0 {
        "0"
    } else if d == 1 {
        "1"
    } else if d == 2 {
        "2"
    } else if d == 3 {
        "3"
    } else if d == 4 {
        "4"
    } else if d == 5 {
        "5"
    } else if d == 6 {
        "6"
    } else if d == 7 {
        "7"
    } else if d == 8 {
        "8"
    } else {
        "9"
    }
}

/// Appends the decimal notation of `n` to `out`.
pub fn push_decimal_u64(out: &mut String, n: u64)
    ensures
        final(out)@ == old(out)@ + nat_decimal(n as nat),
    decreases n,
{
    if n < 10 {
        out.append(digit_str(n));
    } else {
        push_decimal_u64(out, n / 10);
        out.append(digit_str(n % 10));
        assert(final(out)@ =~= old(out)@ + nat_decimal(n as nat));
    }
}

/// Appends the decimal notation of `n`, signed, to `out`.
pub fn push_decimal_i64(out: &mut String, n: i64)
    ensures
        final(out)@ == old(out)@ + int_decimal(n as int),
{
    proof {
        reveal_strlit("-");
    }
    if n < 0 {
        out.append("-");
        let m: u64 = if n == i64::MIN {
            9223372036854775808u64
        } else {
            (-n) as u64
        };
        push_decimal_u64(out, m);
        assert(final(out)@ =~= old(out)@ + int_decimal(n as int));
    } else {
        push_decimal_u64(out, n as u64);
    }
}

/// Whether `a` and `b` hold the same characters.
pub fn str_eq(a: &str, b: &str) -> (r: bool)
    ensures
        r == (a@ == b@),
{
    let x = chars_of(a);
    let y = chars_of(b);
    if x.len() != y.len() {
        return false;
    }
    let mut i: usize = 0;
    while i < x.len()
        invariant
            x@ == a@,
            y@ == b@,
            x@.len() == y@.len(),
            i <= x@.len(),
            forall|k: int| 0 <= k < i ==> x@[k] == y@[k],
        decreases x@.len() - i,
    {
        if x[i] != y[i] {
            return false;
        }
        i = i + 1;
    }
    assert(x@ =~= y@);
    true
}

} // verus!
