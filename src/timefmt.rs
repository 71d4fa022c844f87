use vstd::prelude::*;

use crate::text::{int_decimal, push_decimal_i64};

verus! {

/// How a timestamp is shown: relative to now, or with a format string.
#[derive(Debug)]
pub enum TimeFormatVariant {
    Ago,
    Format(String),
}

/// The unit words of a relative time label.
pub enum Unit {
    Second,
    Minute,
    Hour,
    Day,
    Month,
    Year,
}

pub open spec fn unit_word(u: Unit, plural: bool) -> Seq<char> {
    let w = match u {
        Unit::Second => seq!['s', 'e', 'c', 'o', 'n', 'd'],
        Unit::Minute => seq!['m', 'i', 'n', 'u', 't', 'e'],
        Unit::Hour => seq!['h', 'o', 'u', 'r'],
        Unit::Day => seq!['d', 'a', 'y'],
        Unit::Month => seq!['m', 'o', 'n', 't', 'h'],
        Unit::Year => seq!['y', 'e', 'a', 'r'],
    };
    if plural {
        w + seq!['s']
    } else {
        w
    }
}

/// `"<n> <unit> ago"`, singular only for one minute, hour, day, month or year.
pub open spec fn ago_text(n: int, u: Unit) -> Seq<char> {
    let plural = match u {
        Unit::Second => true,
        _ => n != 1,
    };
    int_decimal(n) + seq![' '] + unit_word(u, plural) + seq![' ', 'a', 'g', 'o']
}

/// How long ago something happened, from the elapsed whole seconds: seconds
/// under a minute, then minutes, hours, days under 30, months of 30 days
/// under 365 days, and years of 365 days.
pub open spec fn relative_spec(secs: int) -> Seq<char> {
    if secs < 60 {
        ago_text(secs, Unit::Second)
    } else if secs / 60 < 60 {
        ago_text(secs / 60, Unit::Minute)
    } else if secs / 3600 < 24 {
        ago_text(secs / 3600, Unit::Hour)
    } else if secs / 86400 < 30 {
        ago_text(secs / 86400, Unit::Day)
    } else if secs / 86400 < 365 {
        ago_text(secs / 86400 / 30, Unit::Month)
    } else {
        ago_text(secs / 86400 / 365, Unit::Year)
    }
}

fn unit_str(u: &Unit, plural: bool) -> (r: &'static str)
    ensures
        r@ == unit_word(*u, plural) + seq![' ', 'a', 'g', 'o'],
{
    proof {
        reveal_strlit("second ago");
        reveal_strlit("seconds ago");
        reveal_strlit("minute ago");
        reveal_strlit("minutes ago");
        reveal_strlit("hour ago");
        reveal_strlit("hours ago");
        reveal_strlit("day ago");
        reveal_strlit("days ago");
        reveal_strlit("month ago");
        reveal_strlit("months ago");
        reveal_strlit("year ago");
        reveal_strlit("years ago");
    }
    let r = match u {
        Unit::Second => if plural {
            "seconds ago"
        } else {
            "second ago"
        },
        Unit::Minute => if plural {
            "minutes ago"
        } else {
            "minute ago"
        },
        Unit::Hour => if plural {
            "hours ago"
        } else {
            "hour ago"
        },
        Unit::Day => if plural {
            "days ago"
        } else {
            "day ago"
        },
        Unit::Month => if plural {
            "months ago"
        } else {
            "month ago"
        },
        Unit::Year => if plural {
            "years ago"
        } else {
            "year ago"
        },
    };
    proof {
        assert(r@ =~= unit_word(*u, plural) + seq![' ', 'a', 'g', 'o']);
    }
    r
}

fn ago(n: i64, u: Unit) -> (r: String)
    ensures
        r@ == ago_text(n as int, u),
{
    proof {
        reveal_strlit(" ");
    }
    let plural = match u {
        Unit::Second => true,
        _ => n != 1,
    };
    let mut s = String::new();
    push_decimal_i64(&mut s, n);
    s.append(" ");
    s.append(unit_str(&u, plural));
    proof {
        assert(s@ =~= ago_text(n as int, u));
    }
    s
}

/// The relative label for `secs` elapsed seconds, such as `3 minutes ago`.
pub fn relative_label(secs: i64) -> (r: String)
    ensures
        r@ == relative_spec(secs as int),
{
    if secs < 60 {
        ago(secs, Unit::Second)
    } else if secs / 60 < 60 {
        ago(secs / 60, Unit::Minute)
    } else if secs / 3600 < 24 {
        ago(secs / 3600, Unit::Hour)
    } else if secs / 86400 < 30 {
        ago(secs / 86400, Unit::Day)
    } else if secs / 86400 < 365 {
        ago(secs / 86400 / 30, Unit::Month)
    } else {
        ago(secs / 86400 / 365, Unit::Year)
    }
}

} // verus!
