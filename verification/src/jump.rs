//! The jump resolver: from what the user typed to the cell to go to. The input
//! is read as a row number, as a cell address such as "B3", or as a row and a
//! column with a comma between them, in this order.

use vstd::prelude::*;
use crate::text::{
    all_digits, ascii_upper, ascii_upper_text, chars_of, decimal, digits_value, find_char,
    first_of, is_ascii_letter, is_digit_char, is_letter_char, parse_usize_in, parsed_usize,
    push_chars, push_decimal, push_str, trim_bounds, trimmed, upper_char,
};

verus! {

/// The place of a letter in the alphabet, from 1, whatever its case.
pub open spec fn letter_value(c: char) -> int {
    ascii_upper(c) as int - 64
}

/// The number that letters write as a column: "A" is 1, "Z" is 26, "AA" is 27.
pub open spec fn column_number(letters: Seq<char>) -> nat
    decreases letters.len(),
{
    if letters.len() == 0 {
        0
    } else {
        (column_number(letters.drop_last()) * 26 + letter_value(letters.last())) as nat
    }
}

/// The letters that write the column number `n`, for `n` from 1.
pub open spec fn column_letters(n: nat) -> Seq<char>
    decreases n,
{
    if n == 0 {
        Seq::empty()
    } else {
        column_letters(((n - 1) / 26) as nat).push((65 + (n - 1) % 26) as char)
    }
}

/// How many ASCII letters `s` starts with.
pub open spec fn letters_len(s: Seq<char>) -> int
    decreases s.len(),
{
    if s.len() > 0 && is_ascii_letter(s[0]) {
        1 + letters_len(s.drop_first())
    } else {
        0
    }
}

/// The cell that an address names, as (column, row) counted from 0: one or
/// more ASCII letters for the column, then one or more digits for the row, which
/// counts from 1. `None` for any other text, for row 0, and for numbers that no
/// machine integer holds.
pub open spec fn cell_address(s: Seq<char>) -> Option<(usize, usize)> {
    let k = letters_len(s);
    let letters = s.take(k);
    let digits = s.skip(k);
    if 0 < k <= s.len() && digits.len() > 0 && all_digits(digits) && 1 <= digits_value(digits)
        <= usize::MAX && column_number(letters) <= usize::MAX {
        Some(((column_number(letters) - 1) as usize, (digits_value(digits) - 1) as usize))
    } else {
        None
    }
}

/// The text that rejects an input of no known form.
pub open spec fn invalid_format_text() -> Seq<char> {
    "Invalid format. Use: row number, cell (A5), or row,col"@
}

/// Where a jump leads and what it reports, for the input `input` on a sheet of
/// `height` rows and `width` columns with the cursor at (`row`, `col`): the new
/// row, the new column, and the message. A rejected input leaves the cursor
/// where it is.
pub open spec fn jump_result(
    input: Seq<char>,
    height: usize,
    width: usize,
    row: usize,
    col: usize,
) -> (usize, usize, Seq<char>) {
    let t = trimmed(input);
    match parsed_usize(t) {
        Some(n) => if 0 < n <= height {
            ((n - 1) as usize, col, "Jumped to row "@ + decimal(n as nat))
        } else {
            (
                row,
                col,
                "Invalid row: "@ + decimal(n as nat) + " (max: "@ + decimal(height as nat)
                    + ")"@,
            )
        },
        None => match cell_address(t) {
            Some((c, r)) => if r < height && c < width {
                (r, c, "Jumped to "@ + ascii_upper_text(t))
            } else {
                (row, col, "Cell address out of bounds: "@ + t)
            },
            None => {
                let cut = first_of(t, ',');
                if 0 <= cut < t.len() {
                    match (
                        parsed_usize(trimmed(t.take(cut))),
                        parsed_usize(trimmed(t.skip(cut + 1))),
                    ) {
                        (Some(rn), Some(cn)) => if 0 < rn <= height && 0 < cn <= width {
                            (
                                (rn - 1) as usize,
                                (cn - 1) as usize,
                                "Jumped to row "@ + decimal(rn as nat) + ", col "@ + decimal(
                                    cn as nat,
                                ),
                            )
                        } else {
                            (row, col, "Invalid row/column number"@)
                        },
                        _ => (row, col, invalid_format_text()),
                    }
                } else {
                    (row, col, invalid_format_text())
                }
            },
        },
    }
}

/// Appends the letters that write the column number `n`.
pub fn push_column_letters(out: &mut String, n: u128)
    ensures
        final(out)@ == old(out)@ + column_letters(n as nat),
    decreases n,
{
    if n > 0 {
        push_column_letters(out, (n - 1) / 26);
        let d: u8 = ((n - 1) % 26) as u8;
        out.push((65u8 + d) as char);
    }
}

/// The letters of the column `col`, counted from 0: "A" for 0, "Z" for 25,
/// "AA" for 26.
pub fn col_to_letter(col: usize) -> (out: String)
    ensures
        out@ == column_letters((col + 1) as nat),
{
    let mut out = String::new();
    push_column_letters(&mut out, col as u128 + 1);
    out
}

/// The cell that `v[from..to]` names as an address.
pub fn parse_address_in(v: &Vec<char>, from: usize, to: usize) -> (r: Option<(usize, usize)>)
    requires
        from <= to <= v.len(),
    ensures
        r == cell_address(v@.subrange(from as int, to as int)),
{
    let ghost s = v@.subrange(from as int, to as int);
    let mut k: usize = from;
    let mut col: usize = 0;
    let mut overflow: bool = false;
    while k < to && is_letter_char(v[k])
        invariant
            from <= k <= to <= v.len(),
            s == v@.subrange(from as int, to as int),
            letters_len(s) == (k - from) + letters_len(v@.subrange(k as int, to as int)),
            overflow ==> column_number(v@.subrange(from as int, k as int)) > usize::MAX,
            !overflow ==> col == column_number(v@.subrange(from as int, k as int)),
            k > from ==> column_number(v@.subrange(from as int, k as int)) >= 1,
        decreases to - k,
    {
        let c: char = upper_char(v[k]);
        let d: usize = ((c as u8) - 64) as usize;
        proof {
            let before = v@.subrange(from as int, k as int);
            let after = v@.subrange(from as int, k + 1);
            assert(after.drop_last() == before);
            assert(v@.subrange(k as int, to as int).drop_first() == v@.subrange(k + 1, to as int));
        }
        if !overflow {
            match col.checked_mul(26) {
                Some(m) => match m.checked_add(d) {
                    Some(n) => {
                        col = n;
                    },
                    None => {
                        overflow = true;
                    },
                },
                None => {
                    overflow = true;
                },
            }
        }
        k += 1;
    }
    proof {
        let rest = v@.subrange(k as int, to as int);
        assert(s.take(k - from) == v@.subrange(from as int, k as int));
        assert(s.skip(k - from) == rest);
    }
    if k == from || k == to || overflow {
        return None;
    }
    if !is_digit_char(v[k]) {
        return None;
    }
    match parse_usize_in(v, k, to) {
        Some(row) => {
            if row == 0 {
                None
            } else {
                Some((col - 1, row - 1))
            }
        },
        None => None,
    }
}

/// The cell that an address such as "A5", "b10" or "AA100" names, as (column,
/// row) counted from 0.
pub fn parse_cell_address(addr: &str) -> (r: Option<(usize, usize)>)
    ensures
        r == cell_address(addr@),
{
    let v = chars_of(addr);
    proof {
        assert(v@.subrange(0, v.len() as int) == v@);
    }
    parse_address_in(&v, 0, v.len())
}

/// Appends `v[from..to]` with every ASCII lower-case letter turned into its
/// upper-case form.
pub fn push_upper(out: &mut String, v: &Vec<char>, from: usize, to: usize)
    requires
        from <= to <= v.len(),
    ensures
        final(out)@ == old(out)@ + ascii_upper_text(v@.subrange(from as int, to as int)),
{
    let mut i: usize = from;
    while i < to
        invariant
            from <= i <= to <= v.len(),
            out@ == old(out)@ + ascii_upper_text(v@.subrange(from as int, i as int)),
        decreases to - i,
    {
        out.push(upper_char(v[i]));
        i += 1;
    }
}

/// A copy of `v[from..to]`.
pub fn slice_chars(v: &Vec<char>, from: usize, to: usize) -> (out: Vec<char>)
    requires
        from <= to <= v.len(),
    ensures
        out@ == v@.subrange(from as int, to as int),
{
    let mut out: Vec<char> = Vec::new();
    let mut i: usize = from;
    while i < to
        invariant
            from <= i <= to <= v.len(),
            out@ == v@.subrange(from as int, i as int),
        decreases to - i,
    {
        out.push(v[i]);
        i += 1;
    }
    out
}

/// The text that rejects an input of no known form.
pub fn invalid_format() -> (out: String)
    ensures
        out@ == invalid_format_text(),
{
    let mut out = String::new();
    push_str(&mut out, "Invalid format. Use: row number, cell (A5), or row,col");
    out
}

/// Resolves a jump: where it leads and what it reports, for the input `input`
/// on a sheet of `height` rows and `width` columns with the cursor at (`row`,
/// `col`).
pub fn resolve_jump(input: &str, height: usize, width: usize, row: usize, col: usize) -> (out: (
    usize,
    usize,
    String,
))
    ensures
        (out.0, out.1, out.2@) == jump_result(input@, height, width, row, col),
        out.0 == row || out.0 < height,
        out.1 == col || out.1 < width,
{
    let v = chars_of(input);
    proof {
        assert(v@.subrange(0, v.len() as int) == v@);
    }
    let (a, b) = trim_bounds(&v, 0, v.len());
    let t = slice_chars(&v, a, b);
    let n: usize = t.len();
    proof {
        assert(t@.skip(0) == t@);
    }
    let mut msg = String::new();
    match parse_usize_in(&t, 0, n) {
        Some(row_num) => {
            if row_num > 0 && row_num <= height {
                push_str(&mut msg, "Jumped to row ");
                push_decimal(&mut msg, row_num as u64);
                (row_num - 1, col, msg)
            } else {
                push_str(&mut msg, "Invalid row: ");
                push_decimal(&mut msg, row_num as u64);
                push_str(&mut msg, " (max: ");
                push_decimal(&mut msg, height as u64);
                push_str(&mut msg, ")");
                (row, col, msg)
            }
        },
        None => match parse_address_in(&t, 0, n) {
            Some((c, r)) => {
                if r < height && c < width {
                    push_str(&mut msg, "Jumped to ");
                    push_upper(&mut msg, &t, 0, n);
                    (r, c, msg)
                } else {
                    push_str(&mut msg, "Cell address out of bounds: ");
                    push_chars(&mut msg, &t, 0, n);
                    (row, col, msg)
                }
            },
            None => {
                let cut: usize = find_char(&t, 0, ',');
                if cut < n {
                    let (a1, b1) = trim_bounds(&t, 0, cut);
                    let (a2, b2) = trim_bounds(&t, cut + 1, n);
                    let left = parse_usize_in(&t, a1, b1);
                    let right = parse_usize_in(&t, a2, b2);
                    match (left, right) {
                        (Some(row_num), Some(col_num)) => {
                            if row_num > 0 && row_num <= height && col_num > 0 && col_num
                                <= width {
                                push_str(&mut msg, "Jumped to row ");
                                push_decimal(&mut msg, row_num as u64);
                                push_str(&mut msg, ", col ");
                                push_decimal(&mut msg, col_num as u64);
                                (row_num - 1, col_num - 1, msg)
                            } else {
                                push_str(&mut msg, "Invalid row/column number");
                                (row, col, msg)
                            }
                        },
                        _ => (row, col, invalid_format()),
                    }
                } else {
                    (row, col, invalid_format())
                }
            },
        },
    }
}

/// The letters of a column number are ASCII letters and write that number:
/// what `col_to_letter` writes, `parse_cell_address` reads back.
pub proof fn lemma_column_letters_read_back(n: nat)
    ensures
        column_number(column_letters(n)) == n,
        letters_len(column_letters(n)) == column_letters(n).len(),
        n > 0 ==> column_letters(n).len() > 0,
    decreases n,
{
    if n > 0 {
        let rest = ((n - 1) / 26) as nat;
        let d = (n - 1) % 26;
        let c = (65 + d) as char;
        lemma_column_letters_read_back(rest);
        let s = column_letters(n);
        assert(s.drop_last() == column_letters(rest));
        lemma_letters_len_push(column_letters(rest), c);
    }
}

/// A text of letters with a letter behind it is a text of letters.
pub proof fn lemma_letters_len_push(s: Seq<char>, c: char)
    requires
        letters_len(s) == s.len(),
        is_ascii_letter(c),
    ensures
        letters_len(s.push(c)) == s.len() + 1,
    decreases s.len(),
{
    let t = s.push(c);
    if s.len() == 0 {
        assert(letters_len(t.drop_first()) == 0);
    } else {
        assert(t.drop_first() =~= s.drop_first().push(c));
        lemma_letters_len_push(s.drop_first(), c);
    }
}

} // verus!
