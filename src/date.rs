use vstd::prelude::*;

verus! {

/// Whether `year` is a leap year of the proleptic Gregorian calendar.
pub open spec fn is_leap(year: int) -> bool {
    (year % 4 == 0 && year % 100 != 0) || year % 400 == 0
}

/// Number of days in `month` (1 to 12) of `year`.
pub open spec fn days_in_month(year: int, month: int) -> int {
    if month == 2 {
        if is_leap(year) { 29 } else { 28 }
    } else if month == 4 || month == 6 || month == 9 || month == 11 {
        30
    } else {
        31
    }
}

/// Whether year, month and day name a calendar day with a four-digit year.
pub open spec fn valid_ymd(year: int, month: int, day: int) -> bool {
    0 <= year <= 9999 && 1 <= month <= 12 && 1 <= day <= days_in_month(year, month)
}

/// The decimal digits, in order of value.
pub open spec fn digits() -> Seq<char> {
    seq!['0', '1', '2', '3', '4', '5', '6', '7', '8', '9']
}

/// The decimal digit for `n` (0 to 9).
pub open spec fn digit(n: int) -> char {
    digits()[n]
}

/// The value of a decimal digit character.
pub open spec fn digit_value(c: char) -> int {
    digits().index_of(c)
}

/// The value of a string of decimal digits.
pub open spec fn read_digits(s: Seq<char>) -> int
    decreases s.len(),
{
    if s.len() == 0 {
        0
    } else {
        read_digits(s.drop_last()) * 10 + digit_value(s.last())
    }
}

/// Year, month and day read back from `YYYY-MM-DD`.
pub open spec fn read_ymd(t: Seq<char>) -> (int, int, int) {
    (read_digits(t.subrange(0, 4)), read_digits(t.subrange(5, 7)), read_digits(t.subrange(8, 10)))
}

proof fn lemma_digit_value(n: int)
    requires
        0 <= n < 10,
    ensures
        digit_value(digit(n)) == n,
{
    let d = digits();
    assert(d[n] == digit(n));
    assert forall|i: int, j: int| 0 <= i < j < 10 implies d[i] != d[j] by {}
    d.index_of_first_ensures(digit(n));
    assert(d.contains(digit(n)));
}

proof fn lemma_read_padded(n: int, width: nat)
    requires
        0 <= n,
    ensures
        padded(n, width).len() == width,
        read_digits(padded(n, width)) == n % vstd::arithmetic::power::pow(10, width),
    decreases width,
{
    vstd::arithmetic::power::lemma_pow_positive(10, width);
    if width == 0 {
        vstd::arithmetic::power::lemma_pow0(10);
    } else {
        let w1 = (width - 1) as nat;
        let p = vstd::arithmetic::power::pow(10, w1);
        lemma_read_padded(n / 10, w1);
        lemma_digit_value(n % 10);
        let s = padded(n, width);
        assert(s.drop_last() == padded(n / 10, w1));
        vstd::arithmetic::power::lemma_pow_positive(10, w1);
        vstd::arithmetic::div_mod::lemma_mod_breakdown(n, 10, p);
        vstd::arithmetic::power::lemma_pow1(10);
        vstd::arithmetic::power::lemma_pow_adds(10, 1, w1);
        assert(10 * p == vstd::arithmetic::power::pow(10, width));
    }
}

/// Reading the digits of the text of a valid date gives back its year, month
/// and day.
pub proof fn lemma_ymd_text_reads_back(year: int, month: int, day: int)
    requires
        valid_ymd(year, month, day),
    ensures
        ymd_text(year, month, day).len() == 10,
        read_ymd(ymd_text(year, month, day)) == (year, month, day),
{
    lemma_read_padded(year, 4);
    lemma_read_padded(month, 2);
    lemma_read_padded(day, 2);
    reveal_with_fuel(vstd::arithmetic::power::pow, 5);
    assert(vstd::arithmetic::power::pow(10, 4) == 10000);
    assert(vstd::arithmetic::power::pow(10, 2) == 100);
    let t = ymd_text(year, month, day);
    assert(t.subrange(0, 4) =~= padded(year, 4));
    assert(t.subrange(5, 7) =~= padded(month, 2));
    assert(t.subrange(8, 10) =~= padded(day, 2));
    assert(year % 10000 == year);
    assert(month % 100 == month);
    assert(day % 100 == day);
    assert(read_digits(t.subrange(0, 4)) == year);
    assert(read_digits(t.subrange(5, 7)) == month);
    assert(read_digits(t.subrange(8, 10)) == day);
}

/// `n` written in decimal with exactly `width` digits, zero-padded on the left
/// (the high digits are dropped when `n` has more).
pub open spec fn padded(n: int, width: nat) -> Seq<char>
    decreases width,
{
    if width == 0 {
        Seq::empty()
    } else {
        padded(n / 10, (width - 1) as nat).push(digit(n % 10))
    }
}

/// `YYYY-MM-DD`.
pub open spec fn ymd_text(year: int, month: int, day: int) -> Seq<char> {
    padded(year, 4) + seq!['-'] + padded(month, 2) + seq!['-'] + padded(day, 2)
}

/// A calendar day of the proleptic Gregorian calendar, with a year from 0 to 9999.
#[derive(Clone, Copy, Debug, PartialEq, Eq)]
pub struct Date {
    year: u16,
    month: u8,
    day: u8,
}

impl Date {
    #[verifier::type_invariant]
    spec fn inv(&self) -> bool {
        valid_ymd(self.year as int, self.month as int, self.day as int)
    }

    pub closed spec fn spec_year(&self) -> int {
        self.year as int
    }

    pub closed spec fn spec_month(&self) -> int {
        self.month as int
    }

    pub closed spec fn spec_day(&self) -> int {
        self.day as int
    }

    /// The date in ISO 8601 form, `YYYY-MM-DD`.
    pub open spec fn text(&self) -> Seq<char> {
        ymd_text(self.spec_year(), self.spec_month(), self.spec_day())
    }

    /// The date `year`-`month`-`day`, or `None` where no such day exists or the
    /// year has more than four digits.
    pub fn new(year: u16, month: u8, day: u8) -> (r: Option<Date>)
        ensures
            r is Some <==> valid_ymd(year as int, month as int, day as int),
            r matches Some(d) ==> d.spec_year() == year && d.spec_month() == month
                && d.spec_day() == day,
    {
        if year > 9999 || month < 1 || month > 12 || day < 1 {
            return None;
        }
        let leap = (year % 4 == 0 && year % 100 != 0) || year % 400 == 0;
        let last: u8 = if month == 2 {
            if leap { 29 } else { 28 }
        } else if month == 4 || month == 6 || month == 9 || month == 11 {
            30
        } else {
            31
        };
        if day > last {
            None
        } else {
            Some(Date { year, month, day })
        }
    }

    pub fn year(&self) -> (r: u16)
        ensures
            r == self.spec_year(),
    {
        self.year
    }

    pub fn month(&self) -> (r: u8)
        ensures
            r == self.spec_month(),
    {
        self.month
    }

    pub fn day(&self) -> (r: u8)
        ensures
            r == self.spec_day(),
    {
        self.day
    }
}

/// The one-character text of the digit `n`.
fn digit_str(n: u8) -> (r: &'static str)
    requires
        n < 10,
    ensures
        r@ == seq![digit(n as int)],
{
    match n {
        0 => { proof { reveal_strlit("0"); } "0" },
        1 => { proof { reveal_strlit("1"); } "1" },
        2 => { proof { reveal_strlit("2"); } "2" },
        3 => { proof { reveal_strlit("3"); } "3" },
        4 => { proof { reveal_strlit("4"); } "4" },
        5 => { proof { reveal_strlit("5"); } "5" },
        6 => { proof { reveal_strlit("6"); } "6" },
        7 => { proof { reveal_strlit("7"); } "7" },
        8 => { proof { reveal_strlit("8"); } "8" },
        _ => { proof { reveal_strlit("9"); } "9" },
    }
}

/// Appends `n` with exactly `width` digits, zero-padded on the left.
fn push_padded(out: &mut String, n: u16, width: u8)
    requires
        width <= 4,
    ensures
        final(out)@ == old(out)@ + padded(n as int, width as nat),
    decreases width,
{
    if width > 0 {
        push_padded(out, n / 10, width - 1);
        out.append(digit_str((n % 10) as u8));
    }
}

impl Date {
    /// Appends the date as `YYYY-MM-DD`.
    pub fn write_to(&self, out: &mut String)
        ensures
            final(out)@ == old(out)@ + self.text(),
    {
        proof { reveal_strlit("-"); }
        push_padded(out, self.year, 4);
        out.append("-");
        push_padded(out, self.month as u16, 2);
        out.append("-");
        push_padded(out, self.day as u16, 2);
        assert(final(out)@ =~= old(out)@ + self.text());
    }
}

} // verus!
