use vstd::prelude::*;

verus! {

/// A local wall-clock reading at second resolution.
#[derive(Clone, Copy, Debug, PartialEq, Eq, Structural)]
pub struct Timestamp {
    pub year: i32,
    pub month: u32,
    pub day: u32,
    pub hour: u32,
    pub minute: u32,
    pub second: u32,
}

/// The character of a decimal digit.
pub open spec fn digit(d: int) -> char {
    if d == 0 { '0' }
    else if d == 1 { '1' }
    else if d == 2 { '2' }
    else if d == 3 { '3' }
    else if d == 4 { '4' }
    else if d == 5 { '5' }
    else if d == 6 { '6' }
    else if d == 7 { '7' }
    else if d == 8 { '8' }
    else { '9' }
}

/// `n` (below 100) as two zero-padded decimal digits.
pub open spec fn two_digits(n: int) -> Seq<char> {
    seq![digit(n / 10), digit(n % 10)]
}

/// `n` (below 10000) as four zero-padded decimal digits.
pub open spec fn four_digits(n: int) -> Seq<char> {
    two_digits(n / 100) + two_digits(n % 100)
}

impl Timestamp {
    /// The field ranges of a calendar date and time of day.
    pub open spec fn in_clock_range(self) -> bool {
        &&& 1 <= self.month <= 12
        &&& 1 <= self.day <= 31
        &&& self.hour <= 23
        &&& self.minute <= 59
        &&& self.second <= 59
    }

    /// A timestamp that can be written as `YYYYMMDDHHMMSS`.
    pub open spec fn wf(self) -> bool {
        &&& self.in_clock_range()
        &&& 0 <= self.year <= 9999
    }

    /// The fourteen characters `YYYYMMDDHHMMSS`.
    pub open spec fn compact(self) -> Seq<char> {
        four_digits(self.year as int) + two_digits(self.month as int) + two_digits(self.day as int)
            + two_digits(self.hour as int) + two_digits(self.minute as int)
            + two_digits(self.second as int)
    }

    /// The local time now.
    pub fn now() -> (r: Timestamp)
        ensures
            r.in_clock_range(),
    {
        local_now()
    }
}

/// Relies on chrono's `Local::now` and its `Datelike` / `Timelike` accessors, which
/// document month 1..=12, day 1..=31, hour 0..=23, minute 0..=59 and second 0..=59.
#[verifier::external_body]
fn local_now() -> (r: Timestamp)
    ensures
        r.in_clock_range(),
{
    let t = chrono::Local::now();
    Timestamp {
        year: chrono::Datelike::year(&t),
        month: chrono::Datelike::month(&t),
        day: chrono::Datelike::day(&t),
        hour: chrono::Timelike::hour(&t),
        minute: chrono::Timelike::minute(&t),
        second: chrono::Timelike::second(&t),
    }
}

/// A literal holding the one digit `d`.
fn digit_str(d: u32) -> (r: &'static str)
    requires
        d <= 9,
    ensures
        r@ == seq![digit(d as int)],
{
    proof {
        reveal_strlit("0");
        reveal_strlit("1");
        reveal_strlit("2");
        reveal_strlit("3");
        reveal_strlit("4");
        reveal_strlit("5");
        reveal_strlit("6");
        reveal_strlit("7");
        reveal_strlit("8");
        reveal_strlit("9");
    }
    if d == 0 { "0" }
    else if d == 1 { "1" }
    else if d == 2 { "2" }
    else if d == 3 { "3" }
    else if d == 4 { "4" }
    else if d == 5 { "5" }
    else if d == 6 { "6" }
    else if d == 7 { "7" }
    else if d == 8 { "8" }
    else { "9" }
}

/// Appends `n` as two zero-padded digits.
fn push_two(s: &mut String, n: u32)
    requires
        n <= 99,
    ensures
        final(s)@ == old(s)@ + two_digits(n as int),
{
    s.append(digit_str(n / 10));
    s.append(digit_str(n % 10));
}

/// Appends the characters `YYYYMMDDHHMMSS` of a well-formed timestamp.
pub fn push_compact(s: &mut String, t: &Timestamp)
    requires
        t.wf(),
    ensures
        final(s)@ == old(s)@ + t.compact(),
{
    let ghost s0 = s@;
    let y = t.year as u32;
    push_two(s, y / 100);
    push_two(s, y % 100);
    push_two(s, t.month);
    push_two(s, t.day);
    push_two(s, t.hour);
    push_two(s, t.minute);
    push_two(s, t.second);
    assert(s@ =~= s0 + t.compact());
}

} // verus!
