//! The archive store's verified half: deriving the timestamped
//! backup filename. Reading the clock and moving the file belong to
//! the caller; the name is computed here, exactly.

use vstd::prelude::*;
use vstd::string::StringExecFns;

verus! {

/// A wall-clock instant, as plain values.
pub struct Timestamp {
    pub year: u16,
    pub month: u8,
    pub day: u8,
    pub hour: u8,
    pub minute: u8,
    pub second: u8,
}

impl Timestamp {
    /// A calendar-plausible instant whose year fits four digits.
    pub open spec fn wf(self) -> bool {
        &&& self.year <= 9999
        &&& 1 <= self.month <= 12
        &&& 1 <= self.day <= 31
        &&& self.hour <= 23
        &&& self.minute <= 59
        &&& self.second <= 59
    }
}

/// The decimal digit character for `d`.
pub open spec fn digit_char(d: int) -> char {
    if d == 0 {
        '0'
    } else if d == 1 {
        '1'
    } else if d == 2 {
        '2'
    } else if d == 3 {
        '3'
    } else if d == 4 {
        '4'
    } else if d == 5 {
        '5'
    } else if d == 6 {
        '6'
    } else if d == 7 {
        '7'
    } else if d == 8 {
        '8'
    } else {
        '9'
    }
}

/// `n` zero-padded to two decimal digits.
pub open spec fn two_digits(n: int) -> Seq<char> {
    seq![digit_char(n / 10), digit_char(n % 10)]
}

/// `n` zero-padded to four decimal digits.
pub open spec fn four_digits(n: int) -> Seq<char> {
    seq![
        digit_char(n / 1000),
        digit_char((n / 100) % 10),
        digit_char((n / 10) % 10),
        digit_char(n % 10),
    ]
}

/// The backup's filename for an instant:
/// `outline-backup-<YYYY-MM-DD-HH-MM-SS>.zip`.
pub open spec fn backup_filename_chars(ts: Timestamp) -> Seq<char> {
    "outline-backup-"@ + four_digits(ts.year as int) + "-"@ + two_digits(ts.month as int) + "-"@
        + two_digits(ts.day as int) + "-"@ + two_digits(ts.hour as int) + "-"@ + two_digits(
        ts.minute as int,
    ) + "-"@ + two_digits(ts.second as int) + ".zip"@
}

/// The decimal digit as text.
fn digit_str(d: u64) -> (r: &'static str)
    requires
        d <= 9,
    ensures
        r@ == seq![digit_char(d as int)],
{
    proof {
        reveal_strlit("0");
        reveal_strlit("1");
        reveal_strlit("2");
        reveal_strlit("3");
        reveal_strlit("4");
        reveal_strlit("5");
        reveal_strlit("6");
        reveal_strlit("7");
        reveal_strlit("8");
        reveal_strlit("9");
        assert("0"@ =~= seq![digit_char(0)]);
        assert("1"@ =~= seq![digit_char(1)]);
        assert("2"@ =~= seq![digit_char(2)]);
        assert("3"@ =~= seq![digit_char(3)]);
        assert("4"@ =~= seq![digit_char(4)]);
        assert("5"@ =~= seq![digit_char(5)]);
        assert("6"@ =~= seq![digit_char(6)]);
        assert("7"@ =~= seq![digit_char(7)]);
        assert("8"@ =~= seq![digit_char(8)]);
        assert("9"@ =~= seq![digit_char(9)]);
    }
    match d {
        0 => "0",
        1 => "1",
        2 => "2",
        3 => "3",
        4 => "4",
        5 => "5",
        6 => "6",
        7 => "7",
        8 => "8",
        _ => "9",
    }
}

/// Appends `n` as two zero-padded decimal digits.
fn push_two_digits(s: String, n: u64) -> (r: String)
    requires
        n <= 99,
    ensures
        r@ == s@ + two_digits(n as int),
{
    let r = s.concat(digit_str(n / 10)).concat(digit_str(n % 10));
    proof {
        assert(r@ =~= s@ + two_digits(n as int));
    }
    r
}

/// The timestamped name the stored archive receives. Deterministic in
/// the instant and nothing else.
pub fn backup_filename(ts: &Timestamp) -> (r: String)
    requires
        ts.wf(),
    ensures
        r@ == backup_filename_chars(*ts),
{
    let year = ts.year as u64;
    let mut name = String::from_str("outline-backup-");
    name = name.concat(digit_str(year / 1000));
    name = name.concat(digit_str((year / 100) % 10));
    name = name.concat(digit_str((year / 10) % 10));
    name = name.concat(digit_str(year % 10));
    name = name.concat("-");
    name = push_two_digits(name, ts.month as u64);
    name = name.concat("-");
    name = push_two_digits(name, ts.day as u64);
    name = name.concat("-");
    name = push_two_digits(name, ts.hour as u64);
    name = name.concat("-");
    name = push_two_digits(name, ts.minute as u64);
    name = name.concat("-");
    name = push_two_digits(name, ts.second as u64);
    name = name.concat(".zip");
    proof {
        assert(name@ =~= backup_filename_chars(*ts));
    }
    name
}

} // verus!
