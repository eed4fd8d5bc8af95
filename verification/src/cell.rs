//! The cell value model: a typed cell and its two texts, the raw one for
//! copying and the formatted one for display.

use vstd::prelude::*;
use crate::calendar::{date_after, date_text_after};
use crate::text::{
    chars_of, decimal, find_char, first_of, lemma_signed_decimal_reads_back, parse_i64,
    parsed_i64, push_chars, push_decimal, push_signed, push_str, signed_decimal, text_of,
};

verus! {

/// Year of the day that the serial number 0 stands for.
pub const EPOCH_YEAR: i32 = 1899;

/// Month of the day that the serial number 0 stands for.
pub const EPOCH_MONTH: u32 = 12;

/// Day of the month of the day that the serial number 0 stands for.
pub const EPOCH_DAY: u32 = 30;

/// The serial number of the day that the year 1900 is wrongly given. Serial
/// numbers above it are taken one day back on display.
pub const LEAP_DEFECT_DAY: i64 = 60;

/// A number with a fraction, held as the texts that were made of it when the
/// sheet was decoded.
#[derive(Debug)]
pub struct NumberText {
    /// The exact value: the shortest text that reads back as the same number.
    pub raw: String,
    /// The value for display: without a fraction where it has none, else
    /// rounded to two places.
    pub fixed: String,
}

/// A point in time as a spreadsheet counts it, taken apart when the sheet was
/// decoded.
#[derive(Debug)]
pub struct SerialDate {
    /// The serial number rounded down: whole days since the epoch.
    pub days: i64,
    /// For display: the seconds into the day, cut off to a whole number, where
    /// the serial number has a fraction worth showing.
    pub clock: Option<u32>,
    /// For the raw text: the seconds into the day, rounded to the nearest
    /// whole number, where the serial number has a fraction.
    pub raw_clock: Option<i64>,
}

/// The value of one cell.
#[derive(Debug)]
pub enum CellValue {
    Empty,
    String(String),
    Int(i64),
    Float(NumberText),
    Bool(bool),
    Error(String),
    DateTime(SerialDate),
}

/// `digits` with a comma before every group of three, counted from the right.
pub open spec fn group3(digits: Seq<char>) -> Seq<char>
    decreases digits.len(),
{
    if digits.len() <= 3 {
        digits
    } else {
        group3(digits.take(digits.len() - 3)) + seq![','] + digits.skip(digits.len() - 3)
    }
}

/// `s` without the minus signs at its start.
pub open spec fn strip_minus(s: Seq<char>) -> Seq<char>
    decreases s.len(),
{
    if s.len() > 0 && s[0] == '-' {
        strip_minus(s.drop_first())
    } else {
        s
    }
}

/// A number's text with thousands separators: the part before the first point
/// is grouped by three behind its sign, and what stands between the first point
/// and the second follows it unchanged.
pub open spec fn grouped_number(text: Seq<char>) -> Seq<char> {
    let cut = first_of(text, '.');
    let whole = text.take(cut);
    let sign = if whole.len() > 0 && whole[0] == '-' {
        seq!['-']
    } else {
        Seq::<char>::empty()
    };
    let head = sign + group3(strip_minus(whole));
    if cut < text.len() {
        let rest = text.skip(cut + 1);
        head + seq!['.'] + rest.take(first_of(rest, '.'))
    } else {
        head
    }
}

/// `n` in at least two digits.
pub open spec fn two_digits(n: nat) -> Seq<char> {
    if n < 10 {
        seq!['0'] + decimal(n)
    } else {
        decimal(n)
    }
}

/// A count of seconds as hours, minutes and seconds.
pub open spec fn clock_text(total: nat) -> Seq<char> {
    two_digits(total / 3600) + seq![':'] + two_digits((total % 3600) / 60) + seq![':']
        + two_digits(total % 60)
}

/// The quotient of `a` by the positive `b`, rounded toward zero.
pub open spec fn quotient_toward_zero(a: int, b: int) -> int {
    if a >= 0 {
        a / b
    } else {
        -((-a) / b)
    }
}

/// What is left of `a` after the quotient rounded toward zero: it has the sign
/// of `a`.
pub open spec fn remainder_toward_zero(a: int, b: int) -> int {
    a - b * quotient_toward_zero(a, b)
}

/// `n` in at least two characters: a single digit gets a zero before it, a
/// negative number its sign.
pub open spec fn signed_two_digits(n: int) -> Seq<char> {
    if 0 <= n < 10 {
        seq!['0'] + decimal(n as nat)
    } else {
        signed_decimal(n)
    }
}

/// A signed count of seconds as hours, minutes and seconds, each with the sign
/// of the count.
pub open spec fn signed_clock_text(total: int) -> Seq<char> {
    signed_two_digits(quotient_toward_zero(total, 3600)) + seq![':'] + signed_two_digits(
        quotient_toward_zero(remainder_toward_zero(total, 3600), 60),
    ) + seq![':'] + signed_two_digits(remainder_toward_zero(total, 60))
}

/// The text for a day that no calendar date could be found for.
pub open spec fn dateless_text(days: int) -> Seq<char> {
    "Date["@ + signed_decimal(days) + "]"@
}

/// The display text of a point in time, from the text of its date.
pub open spec fn serial_display(date: Option<Seq<char>>, days: int, clock: Option<u32>) -> Seq<
    char,
> {
    match date {
        Some(d) => match clock {
            Some(t) => d + seq![' '] + clock_text(t as nat),
            None => d,
        },
        None => dateless_text(days),
    }
}

/// The raw text of a point in time, from the text of its date.
pub open spec fn serial_raw(date: Option<Seq<char>>, days: int, clock: Option<i64>) -> Seq<char> {
    match date {
        Some(d) => match clock {
            Some(t) => d + seq![' '] + signed_clock_text(t as int),
            None => d,
        },
        None => dateless_text(days),
    }
}

/// The number of days from the epoch to the day that a serial number names on
/// display: from serial 61 on, one less than the serial number, to make up for
/// the day that the year 1900 is wrongly given.
pub open spec fn display_offset(days: int) -> int {
    if days > LEAP_DEFECT_DAY {
        days - 1
    } else {
        days
    }
}

impl CellValue {
    /// The raw text: the exact value, as it is copied and exported.
    pub open spec fn raw_text(self) -> Seq<char> {
        match self {
            CellValue::Empty => Seq::<char>::empty(),
            CellValue::String(s) => s@,
            CellValue::Int(i) => signed_decimal(i as int),
            CellValue::Float(n) => n.raw@,
            CellValue::Bool(b) => if b {
                "true"@
            } else {
                "false"@
            },
            CellValue::Error(e) => seq!['#'] + e@,
            CellValue::DateTime(d) => serial_raw(
                date_text_after(
                    EPOCH_YEAR as int,
                    EPOCH_MONTH as int,
                    EPOCH_DAY as int,
                    d.days as int,
                ),
                d.days as int,
                d.raw_clock,
            ),
        }
    }

    /// The display text: numbers with thousands separators, dates and times in
    /// words a reader knows.
    pub open spec fn display_text(self) -> Seq<char> {
        match self {
            CellValue::Empty => Seq::<char>::empty(),
            CellValue::String(s) => s@,
            CellValue::Int(i) => grouped_number(signed_decimal(i as int)),
            CellValue::Float(n) => grouped_number(n.fixed@),
            CellValue::Bool(b) => if b {
                "true"@
            } else {
                "false"@
            },
            CellValue::Error(e) => "ERROR: "@ + e@,
            CellValue::DateTime(d) => serial_display(
                date_text_after(
                    EPOCH_YEAR as int,
                    EPOCH_MONTH as int,
                    EPOCH_DAY as int,
                    display_offset(d.days as int),
                ),
                d.days as int,
                d.clock,
            ),
        }
    }
}

/// Appends `v[from..to]` to `out` with a comma before every group of three,
/// counted from the right.
pub fn push_grouped(out: &mut String, v: &Vec<char>, from: usize, to: usize)
    requires
        from <= to <= v.len(),
    ensures
        final(out)@ == old(out)@ + group3(v@.subrange(from as int, to as int)),
    decreases to - from,
{
    if to - from <= 3 {
        push_chars(out, v, from, to);
    } else {
        push_grouped(out, v, from, to - 3);
        out.push(',');
        push_chars(out, v, to - 3, to);
        proof {
            let d = v@.subrange(from as int, to as int);
            assert(d.take(d.len() - 3) == v@.subrange(from as int, to - 3));
        }
    }
}

/// A number's text with thousands separators.
pub fn group_number(text: &str) -> (out: String)
    ensures
        out@ == grouped_number(text@),
{
    let v = chars_of(text);
    let mut out = String::new();
    proof {
        assert(v@.skip(0) == v@);
    }
    let cut: usize = find_char(&v, 0, '.');
    let ghost whole = v@.take(cut as int);
    if cut > 0 && v[0] == '-' {
        out.push('-');
    }
    let mut p: usize = 0;
    while p < cut && v[p] == '-'
        invariant
            0 <= p <= cut <= v.len(),
            whole == v@.take(cut as int),
            strip_minus(whole) == strip_minus(v@.subrange(p as int, cut as int)),
        decreases cut - p,
    {
        proof {
            assert(v@.subrange(p as int, cut as int).drop_first() == v@.subrange(
                p + 1,
                cut as int,
            ));
        }
        p += 1;
    }
    push_grouped(&mut out, &v, p, cut);
    if cut < v.len() {
        out.push('.');
        let end: usize = find_char(&v, cut + 1, '.');
        push_chars(&mut out, &v, cut + 1, end);
    }
    out
}

/// Appends `n` in at least two digits.
pub fn push_two_digits(out: &mut String, n: u64)
    ensures
        final(out)@ == old(out)@ + two_digits(n as nat),
{
    if n < 10 {
        out.push('0');
    }
    push_decimal(out, n);
}

/// Appends a count of seconds as hours, minutes and seconds.
pub fn push_clock(out: &mut String, total: u32)
    ensures
        final(out)@ == old(out)@ + clock_text(total as nat),
{
    let t: u64 = total as u64;
    push_two_digits(out, t / 3600);
    out.push(':');
    push_two_digits(out, (t % 3600) / 60);
    out.push(':');
    push_two_digits(out, t % 60);
}

/// Appends `n` in at least two characters.
pub fn push_signed_two_digits(out: &mut String, n: i64)
    ensures
        final(out)@ == old(out)@ + signed_two_digits(n as int),
{
    if 0 <= n && n < 10 {
        out.push('0');
        push_decimal(out, n as u64);
    } else {
        push_signed(out, n);
    }
}

/// The quotient of `a` by the positive `b`, rounded toward zero.
pub fn div_toward_zero(a: i64, b: i64) -> (q: i64)
    requires
        b > 0,
    ensures
        q == quotient_toward_zero(a as int, b as int),
{
    if a >= 0 {
        a / b
    } else {
        let m: i128 = -(a as i128);
        let q: i128 = m / (b as i128);
        proof {
            assert(0 <= (m as int) / (b as int) <= m) by (nonlinear_arith)
                requires
                    m >= 0,
                    b > 0,
            ;
        }
        (-q) as i64
    }
}

/// What is left of `a` after its quotient by the positive `b`, rounded toward
/// zero.
pub fn rem_toward_zero(a: i64, b: i64) -> (r: i64)
    requires
        b > 0,
    ensures
        r == remainder_toward_zero(a as int, b as int),
{
    let q: i64 = div_toward_zero(a, b);
    proof {
        let ai = a as int;
        let bi = b as int;
        assert(-bi < ai - bi * quotient_toward_zero(ai, bi) < bi && (ai >= 0 ==> 0 <= bi
            * quotient_toward_zero(ai, bi) <= ai) && (ai < 0 ==> ai <= bi * quotient_toward_zero(
            ai,
            bi,
        ) <= 0)) by (nonlinear_arith)
            requires
                bi > 0,
        ;
    }
    a - b * q
}

/// Appends a signed count of seconds as hours, minutes and seconds.
pub fn push_signed_clock(out: &mut String, total: i64)
    ensures
        final(out)@ == old(out)@ + signed_clock_text(total as int),
{
    push_signed_two_digits(out, div_toward_zero(total, 3600));
    out.push(':');
    push_signed_two_digits(out, div_toward_zero(rem_toward_zero(total, 3600), 60));
    out.push(':');
    push_signed_two_digits(out, rem_toward_zero(total, 60));
}

/// Appends the text for a day that no calendar date could be found for.
pub fn push_dateless(out: &mut String, days: i64)
    ensures
        final(out)@ == old(out)@ + dateless_text(days as int),
{
    push_str(out, "Date[");
    push_signed(out, days);
    push_str(out, "]");
}

/// The display text of a point in time, from the text of its date: the date,
/// then the time of day where there is one; without a date, the day number in
/// brackets.
pub fn serial_display_text(date: Option<String>, days: i64, clock: Option<u32>) -> (out: String)
    ensures
        out@ == serial_display(text_of(date), days as int, clock),
{
    match date {
        Some(d) => match clock {
            Some(t) => {
                let mut out = d;
                out.push(' ');
                push_clock(&mut out, t);
                out
            },
            None => d,
        },
        None => {
            let mut out = String::new();
            push_dateless(&mut out, days);
            out
        },
    }
}

/// The raw text of a point in time, from the text of its date: the date, then
/// the time of day where there is one; without a date, the day number in
/// brackets.
pub fn serial_raw_text(date: Option<String>, days: i64, clock: Option<i64>) -> (out: String)
    ensures
        out@ == serial_raw(text_of(date), days as int, clock),
{
    match date {
        Some(d) => match clock {
            Some(t) => {
                let mut out = d;
                out.push(' ');
                push_signed_clock(&mut out, t);
                out
            },
            None => d,
        },
        None => {
            let mut out = String::new();
            push_dateless(&mut out, days);
            out
        },
    }
}

impl Clone for NumberText {
    fn clone(&self) -> (r: Self)
        ensures
            r == *self,
    {
        NumberText { raw: self.raw.clone(), fixed: self.fixed.clone() }
    }
}

impl Clone for SerialDate {
    fn clone(&self) -> (r: Self)
        ensures
            r == *self,
    {
        SerialDate { days: self.days, clock: self.clock, raw_clock: self.raw_clock }
    }
}

impl Clone for CellValue {
    fn clone(&self) -> (r: Self)
        ensures
            r == *self,
    {
        match self {
            CellValue::Empty => CellValue::Empty,
            CellValue::String(s) => CellValue::String(s.clone()),
            CellValue::Int(i) => CellValue::Int(*i),
            CellValue::Float(n) => CellValue::Float(n.clone()),
            CellValue::Bool(b) => CellValue::Bool(*b),
            CellValue::Error(e) => CellValue::Error(e.clone()),
            CellValue::DateTime(d) => CellValue::DateTime(d.clone()),
        }
    }
}

impl CellValue {
    /// Whether the cell holds nothing. An empty string is a value.
    pub fn is_empty(&self) -> (r: bool)
        ensures
            r == (*self is Empty),
    {
        match self {
            CellValue::Empty => true,
            _ => false,
        }
    }

    /// Whether the cell holds a number, whole or with a fraction.
    pub fn is_numeric(&self) -> (r: bool)
        ensures
            r == (*self is Int || *self is Float),
    {
        match self {
            CellValue::Int(_) => true,
            CellValue::Float(_) => true,
            _ => false,
        }
    }

    /// The raw text of the cell.
    pub fn to_raw_string(&self) -> (out: String)
        ensures
            out@ == self.raw_text(),
    {
        match self {
            CellValue::Empty => String::new(),
            CellValue::String(s) => s.clone(),
            CellValue::Int(i) => {
                let mut out = String::new();
                push_signed(&mut out, *i);
                out
            },
            CellValue::Float(n) => n.raw.clone(),
            CellValue::Bool(b) => {
                let mut out = String::new();
                if *b {
                    push_str(&mut out, "true");
                } else {
                    push_str(&mut out, "false");
                }
                out
            },
            CellValue::Error(e) => {
                let mut out = String::new();
                out.push('#');
                push_str(&mut out, e.as_str());
                out
            },
            CellValue::DateTime(d) => {
                let date = date_after(EPOCH_YEAR, EPOCH_MONTH, EPOCH_DAY, d.days);
                serial_raw_text(date, d.days, d.raw_clock)
            },
        }
    }

    /// The display text of the cell.
    pub fn to_string(&self) -> (out: String)
        ensures
            out@ == self.display_text(),
    {
        match self {
            CellValue::Empty => String::new(),
            CellValue::String(s) => s.clone(),
            CellValue::Int(i) => {
                let mut plain = String::new();
                push_signed(&mut plain, *i);
                group_number(plain.as_str())
            },
            CellValue::Float(n) => group_number(n.fixed.as_str()),
            CellValue::Bool(b) => {
                let mut out = String::new();
                if *b {
                    push_str(&mut out, "true");
                } else {
                    push_str(&mut out, "false");
                }
                out
            },
            CellValue::Error(e) => {
                let mut out = String::new();
                push_str(&mut out, "ERROR: ");
                push_str(&mut out, e.as_str());
                out
            },
            CellValue::DateTime(d) => {
                let offset: i64 = if d.days > LEAP_DEFECT_DAY {
                    d.days - 1
                } else {
                    d.days
                };
                let date = date_after(EPOCH_YEAR, EPOCH_MONTH, EPOCH_DAY, offset);
                serial_display_text(date, d.days, d.clock)
            },
        }
    }
}

impl CellValue {
    /// The whole number that a raw text writes, as a cell: `None` where the
    /// text writes none that fits.
    pub fn parse_int(text: &str) -> (r: Option<CellValue>)
        ensures
            r == (match parsed_i64(text@) {
                Some(i) => Some(CellValue::Int(i)),
                None => None,
            }),
    {
        match parse_i64(text) {
            Some(i) => Some(CellValue::Int(i)),
            None => None,
        }
    }
}

/// The raw text of a whole number, read back as a whole number, is the number
/// that the cell held.
pub proof fn lemma_raw_integer_round_trip(i: i64)
    ensures
        parsed_i64(CellValue::Int(i).raw_text()) == Some(i),
{
    lemma_signed_decimal_reads_back(i as int);
}

} // verus!
