//! Reading unsigned numbers from text.

use crate::text::{from_chars, split_chars, split_on, to_chars, trim_chars, trimmed};
use vstd::prelude::*;

verus! {

/// Whether `c` is one of the digits `0` to `9`.
pub open spec fn is_digit(c: char) -> bool {
    0x30 <= c as u32 <= 0x39
}

/// The value of a digit.
pub open spec fn digit_value(c: char) -> nat {
    (c as u32 - 0x30) as nat
}

/// The value of a sequence of digits, read as a decimal number.
pub open spec fn digits_value(s: Seq<char>) -> nat
    decreases s.len(),
{
    if s.len() == 0 {
        0
    } else {
        digits_value(s.drop_last()) * 10 + digit_value(s.last())
    }
}

/// Whether `s` holds digits only.
pub open spec fn all_digits(s: Seq<char>) -> bool {
    forall|i: int| 0 <= i < s.len() ==> is_digit(#[trigger] s[i])
}

/// `s` without the plus sign that it may start with.
pub open spec fn unsigned_part(s: Seq<char>) -> Seq<char> {
    if s.len() > 0 && s[0] == '+' {
        s.drop_first()
    } else {
        s
    }
}

/// The number that `s` stands for: `s` is an optional plus sign and then one
/// digit or more, and their value is at most `max`. Any other text stands
/// for no number.
pub open spec fn number_of(s: Seq<char>, max: nat) -> Option<nat> {
    let digits = unsigned_part(s);
    if digits.len() > 0 && all_digits(digits) && digits_value(digits) <= max {
        Some(digits_value(digits))
    } else {
        None
    }
}

/// A number is at least the number that its first digits stand for.
pub proof fn lemma_digits_value_grows(s: Seq<char>, i: int)
    requires
        0 <= i <= s.len(),
    ensures
        digits_value(s.take(i)) <= digits_value(s),
    decreases s.len() - i,
{
    if i == s.len() {
        assert(s.take(i) =~= s);
    } else {
        assert(s.take(i + 1).drop_last() =~= s.take(i));
        lemma_digits_value_grows(s, i + 1);
        assert(digits_value(s.take(i)) <= digits_value(s.take(i)) * 10) by (nonlinear_arith);
    }
}

/// The number that `s` stands for, if it stands for one that fits in 64 bits.
pub fn parse_u64(s: &str) -> (number: Option<u64>)
    ensures
        match number_of(s@, u64::MAX as nat) {
            Some(value) => number == Some(value as u64),
            None => number is None,
        },
{
    let chars = to_chars(s);
    let start: usize = if chars.len() > 0 && chars[0] == '+' {
        1
    } else {
        0
    };
    let ghost digits = unsigned_part(s@);
    assert(digits =~= chars@.skip(start as int));
    if start == chars.len() {
        return None;
    }
    let mut i: usize = start;
    let mut value: u64 = 0;
    assert(digits.take(0) =~= Seq::<char>::empty());
    while i < chars.len()
        invariant
            start <= i <= chars.len(),
            start <= 1,
            digits == chars@.skip(start as int),
            digits == unsigned_part(s@),
            all_digits(digits.take(i - start)),
            value == digits_value(digits.take(i - start)),
        decreases chars.len() - i,
    {
        let c = chars[i];
        let code = c as u32;
        assert(digits[i - start] == c);
        if code < 0x30 || code > 0x39 {
            assert(!is_digit(digits[i - start]));
            return None;
        }
        let d: u64 = (code - 0x30) as u64;
        let ghost next = digits.take(i - start + 1);
        assert(next.drop_last() =~= digits.take(i - start));
        assert(next.last() == c);
        assert(digit_value(c) == d);
        assert(digits_value(next) == value * 10 + d);
        assert(all_digits(next)) by {
            assert forall|j: int| 0 <= j < next.len() implies is_digit(#[trigger] next[j]) by {
                if j < next.len() - 1 {
                    assert(digits.take(i - start)[j] == next[j]);
                }
            }
        }
        if value > (u64::MAX - d) / 10 {
            proof {
                lemma_digits_value_grows(digits, i - start + 1);
                assert(value * 10 + d > u64::MAX) by (nonlinear_arith)
                    requires
                        value > (u64::MAX - d) / 10,
                        d < 10,
                ;
            }
            return None;
        }
        assert(value * 10 + d <= u64::MAX) by (nonlinear_arith)
            requires
                value <= (u64::MAX - d) / 10,
                d < 10,
        ;
        value = value * 10 + d;
        i += 1;
    }
    assert(digits.take(digits.len() as int) =~= digits);
    Some(value)
}

/// The number that `s` stands for, if it stands for one that fits in 32 bits.
pub fn parse_u32(s: &str) -> (number: Option<u32>)
    ensures
        match number_of(s@, u32::MAX as nat) {
            Some(value) => number == Some(value as u32),
            None => number is None,
        },
{
    match parse_u64(s) {
        Some(value) => {
            if value <= 0xffff_ffff {
                Some(value as u32)
            } else {
                None
            }
        },
        None => None,
    }
}

/// The number that a sequence of characters stands for, if it stands for one
/// that fits in 64 bits.
pub fn parse_u64_chars(chars: &Vec<char>) -> (number: Option<u64>)
    ensures
        match number_of(chars@, u64::MAX as nat) {
            Some(value) => number == Some(value as u64),
            None => number is None,
        },
{
    parse_u64(from_chars(chars).as_str())
}

/// The ids that a list of pieces stands for, or the first piece that stands
/// for none. Each piece is read without the white space around it.
pub open spec fn ids_of_pieces(pieces: Seq<Seq<char>>) -> Result<Seq<u64>, Seq<char>>
    decreases pieces.len(),
{
    if pieces.len() == 0 {
        Ok(Seq::empty())
    } else {
        match ids_of_pieces(pieces.drop_last()) {
            Err(piece) => Err(piece),
            Ok(ids) => match number_of(trimmed(pieces.last()), u64::MAX as nat) {
                Some(value) => Ok(ids.push(value as u64)),
                None => Err(pieces.last()),
            },
        }
    }
}

/// The item ids that a comma-separated list stands for, or the first piece
/// of the list that is no id.
pub open spec fn item_ids_of(text: Seq<char>) -> Result<Seq<u64>, Seq<char>> {
    ids_of_pieces(split_on(text, ','))
}

/// Reads a comma-separated list of item ids. White space around an id is
/// passed over. The first piece that is no id fails the list and is handed
/// back as it stands.
pub fn parse_item_ids(text: &str) -> (ids: Result<Vec<u64>, String>)
    ensures
        match item_ids_of(text@) {
            Ok(values) => ids is Ok && ids->Ok_0@ == values,
            Err(piece) => ids is Err && ids->Err_0@ == piece,
        },
{
    let pieces = split_chars(text, ',');
    let ghost all = pieces@.map_values(|piece: Vec<char>| piece@);
    let mut ids: Vec<u64> = Vec::new();
    let mut i: usize = 0;
    assert(all.take(0) =~= Seq::<Seq<char>>::empty());
    while i < pieces.len()
        invariant
            i <= pieces.len(),
            all == pieces@.map_values(|piece: Vec<char>| piece@),
            all == split_on(text@, ','),
            ids_of_pieces(all.take(i as int)) == Ok::<Seq<u64>, Seq<char>>(ids@),
        decreases pieces.len() - i,
    {
        assert(all.take(i + 1).drop_last() =~= all.take(i as int));
        assert(all.take(i + 1).last() == pieces@[i as int]@);
        match parse_u64_chars(&trim_chars(&pieces[i])) {
            Some(value) => {
                ids.push(value);
            },
            None => {
                proof {
                    lemma_ids_failure_stays(all, i + 1);
                }
                return Err(from_chars(&pieces[i]));
            },
        }
        i += 1;
    }
    assert(all.take(all.len() as int) =~= all);
    Ok(ids)
}

/// Once a piece is no id, the list fails with the same piece however it goes
/// on.
pub proof fn lemma_ids_failure_stays(pieces: Seq<Seq<char>>, n: int)
    requires
        0 <= n <= pieces.len(),
        ids_of_pieces(pieces.take(n)) is Err,
    ensures
        ids_of_pieces(pieces) == ids_of_pieces(pieces.take(n)),
    decreases pieces.len() - n,
{
    if n == pieces.len() {
        assert(pieces.take(n) =~= pieces);
    } else {
        assert(pieces.take(n + 1).drop_last() =~= pieces.take(n));
        lemma_ids_failure_stays(pieces, n + 1);
    }
}

} // verus!
