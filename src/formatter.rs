//! Text shown for a decoded name: the date and how far it lies from today.
use vstd::prelude::*;
use crate::date::{day_number, days_between, Date, MAX_YEAR, MIN_YEAR};
use vstd::string::StringExecFns;

verus! {

/// A decoded name with the date and number it stands for and the salt it was made with.
pub struct DecodedName {
    pub name: String,
    pub date: Date,
    pub number: u32,
    pub salt: Option<String>,
}

/// The decimal digit `d` (below 10).
pub open spec fn digit_char(d: nat) -> char {
    if d == 0 {
        '0'
    } else if d == 1 {
        '1'
    } else if d == 2 {
        '2'
    } else if d == 3 {
        '3'
    } else if d == 4 {
        '4'
    } else if d == 5 {
        '5'
    } else if d == 6 {
        '6'
    } else if d == 7 {
        '7'
    } else if d == 8 {
        '8'
    } else {
        '9'
    }
}

/// Decimal notation of `n`, without leading zeros.
pub open spec fn decimal(n: nat) -> Seq<char>
    decreases n,
{
    if n < 10 {
        seq![digit_char(n)]
    } else {
        decimal(n / 10) + seq![digit_char(n % 10)]
    }
}

/// Decimal notation of `i`, with a leading `-` when negative.
pub open spec fn signed_decimal(i: int) -> Seq<char> {
    if i < 0 {
        seq!['-'] + decimal((-i) as nat)
    } else {
        decimal(i as nat)
    }
}

/// The relative part: `(today)`, `(yesterday)`, `(tomorrow)`, `(N days ago)` or
/// `(in N days, yet to come!)`.
pub open spec fn relative_text(days: int) -> Seq<char> {
    if days == 0 {
        "(today)"@
    } else if days == -1 {
        "(yesterday)"@
    } else if days == 1 {
        "(tomorrow)"@
    } else if days < 0 {
        "("@ + decimal((-days) as nat) + " days ago)"@
    } else {
        "(in "@ + decimal(days as nat) + " days, yet to come!)"@
    }
}

/// `day.month.year`, without leading zeros.
pub open spec fn date_text(d: Date) -> Seq<char> {
    decimal(d.day as nat) + seq!['.'] + decimal(d.month as nat) + seq!['.'] + signed_decimal(
        d.year as int,
    )
}

/// The string of one decimal digit.
fn digit_str(d: u64) -> (r: &'static str)
    requires
        d < 10,
    ensures
        r@ == seq![digit_char(d as nat)],
{
    proof {
        reveal_strlit("0");
        reveal_strlit("1");
        reveal_strlit("2");
        reveal_strlit("3");
        reveal_strlit("4");
        reveal_strlit("5");
        reveal_strlit("6");
        reveal_strlit("7");
        reveal_strlit("8");
        reveal_strlit("9");
    }
    if d == 0 {
        "0"
    } else if d == 1 {
        "1"
    } else if d == 2 {
        "2"
    } else if d == 3 {
        "3"
    } else if d == 4 {
        "4"
    } else if d == 5 {
        "5"
    } else if d == 6 {
        "6"
    } else if d == 7 {
        "7"
    } else if d == 8 {
        "8"
    } else {
        "9"
    }
}

/// Decimal notation of `n`.
pub fn to_decimal(n: u64) -> (r: String)
    ensures
        r@ == decimal(n as nat),
    decreases n,
{
    if n < 10 {
        String::from_str(digit_str(n))
    } else {
        let mut r = to_decimal(n / 10);
        r.append(digit_str(n % 10));
        r
    }
}

/// Decimal notation of `i`, signed.
fn to_signed_decimal(i: i64) -> (r: String)
    ensures
        r@ == signed_decimal(i as int),
{
    proof {
        reveal_strlit("-");
    }
    if i < 0 {
        let magnitude: u64 = (-(i + 1)) as u64 + 1;
        let mut r = String::from_str("-");
        r.append(to_decimal(magnitude).as_str());
        r
    } else {
        to_decimal(i as u64)
    }
}

/// The relative part of a date `days` days away from today.
pub fn relative_label(days: i64) -> (r: String)
    ensures
        r@ == relative_text(days as int),
{
    if days == 0 {
        String::from_str("(today)")
    } else if days == -1 {
        String::from_str("(yesterday)")
    } else if days == 1 {
        String::from_str("(tomorrow)")
    } else if days < 0 {
        let magnitude: u64 = (-(days + 1)) as u64 + 1;
        let mut r = String::from_str("(");
        r.append(to_decimal(magnitude).as_str());
        r.append(" days ago)");
        r
    } else {
        let mut r = String::from_str("(in ");
        r.append(to_decimal(days as u64).as_str());
        r.append(" days, yet to come!)");
        r
    }
}

/// `day.month.year` and the relative part, e.g. `4.1.2026 (in 3 days, yet to come!)`.
pub fn format_date_relative(date: Date, today: Date) -> (r: String)
    requires
        date.valid(),
        today.valid(),
        MIN_YEAR <= date.year <= MAX_YEAR,
        MIN_YEAR <= today.year <= MAX_YEAR,
    ensures
        r@ == date_text(date) + seq![' '] + relative_text(day_number(date) - day_number(today)),
{
    proof {
        reveal_strlit(".");
        reveal_strlit(" ");
    }
    let days = days_between(date, today);
    let mut r = to_decimal(date.day as u64);
    r.append(".");
    r.append(to_decimal(date.month as u64).as_str());
    r.append(".");
    r.append(to_signed_decimal(date.year as i64).as_str());
    r.append(" ");
    r.append(relative_label(days).as_str());
    r
}

impl DecodedName {
    /// Bundles a decoded name; an empty salt is recorded as none.
    pub fn new(name: String, date: Date, number: u32, salt: &str) -> (r: Self)
        ensures
            r.name == name,
            r.date == date,
            r.number == number,
            salt@.len() == 0 ==> r.salt is None,
            salt@.len() > 0 ==> (r.salt matches Some(s) && s@ == salt@),
    {
        let salt = if salt.is_empty() {
            None
        } else {
            Some(String::from_str(salt))
        };
        DecodedName { name, date, number, salt }
    }

    /// The line under the name: `[salt] No. N, dated D` with a salt, else
    /// `Op. N, dated D`.
    pub fn header(&self, today: Date) -> (r: String)
        requires
            self.date.valid(),
            today.valid(),
            MIN_YEAR <= self.date.year <= MAX_YEAR,
            MIN_YEAR <= today.year <= MAX_YEAR,
        ensures
            r@ == match self.salt {
                Some(s) => "["@ + s@ + "] No. "@ + decimal(self.number as nat) + ", dated "@
                    + format_spec(self.date, today),
                None => "Op. "@ + decimal(self.number as nat) + ", dated "@ + format_spec(
                    self.date,
                    today,
                ),
            },
    {
        let mut r = match &self.salt {
            Some(s) => {
                let mut r = String::from_str("[");
                r.append(s.as_str());
                r.append("] No. ");
                r
            },
            None => String::from_str("Op. "),
        };
        r.append(to_decimal(self.number as u64).as_str());
        r.append(", dated ");
        r.append(format_date_relative(self.date, today).as_str());
        r
    }
}

/// What `format_date_relative` returns.
pub open spec fn format_spec(date: Date, today: Date) -> Seq<char> {
    date_text(date) + seq![' '] + relative_text(day_number(date) - day_number(today))
}

} // verus!
