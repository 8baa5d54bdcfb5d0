//! Small verified helpers over characters and strings.

use vstd::prelude::*;

verus! {

/// `String::push` appends exactly one character to the end of the string.
pub assume_specification[ String::push ](s: &mut String, c: char)
    ensures
        final(s)@ == old(s)@.push(c),
;

/// The views of a sequence of strings.
pub open spec fn string_views(lines: Seq<String>) -> Seq<Seq<char>> {
    lines.map_values(|line: String| line@)
}

/// Each piece without the white space at either end, in order, with the
/// pieces left out that are empty then.
pub open spec fn kept_pieces(pieces: Seq<Seq<char>>) -> Seq<Seq<char>>
    decreases pieces.len(),
{
    if pieces.len() == 0 {
        pieces
    } else {
        let rest = kept_pieces(pieces.drop_last());
        let piece = trimmed(pieces.last());
        if piece.len() > 0 {
            rest.push(piece)
        } else {
            rest
        }
    }
}

/// The characters of `s`, in order.
pub fn to_chars(s: &str) -> (out: Vec<char>)
    ensures
        out@ == s@,
{
    let mut out: Vec<char> = Vec::new();
    for c in it: s.chars()
        invariant
            it.seq() == s@,
            out@ == s@.take(it.index() as int),
    {
        out.push(c);
        assert(s@.take(it.index() + 1) =~= s@.take(it.index() as int).push(c));
    }
    assert(s@.take(s@.len() as int) =~= s@);
    out
}

/// The string made of the characters of `v`, in order.
pub fn from_chars(v: &Vec<char>) -> (out: String)
    ensures
        out@ == v@,
{
    let mut out = String::new();
    let mut i: usize = 0;
    while i < v.len()
        invariant
            i <= v.len(),
            out@ == v@.take(i as int),
        decreases v.len() - i,
    {
        out.push(v[i]);
        assert(v@.take(i + 1) =~= v@.take(i as int).push(v@[i as int]));
        i += 1;
    }
    assert(v@.take(v@.len() as int) =~= v@);
    out
}

/// Whether two strings hold the same characters.
pub fn str_eq(a: &str, b: &str) -> (same: bool)
    ensures
        same == (a@ == b@),
{
    let left = to_chars(a);
    let right = to_chars(b);
    if left.len() != right.len() {
        return false;
    }
    let mut i: usize = 0;
    while i < left.len()
        invariant
            i <= left.len(),
            left.len() == right.len(),
            left@ == a@,
            right@ == b@,
            forall|j: int| 0 <= j < i ==> left@[j] == right@[j],
        decreases left.len() - i,
    {
        if left[i] != right[i] {
            assert(a@[i as int] != b@[i as int]);
            return false;
        }
        i += 1;
    }
    assert(left@ =~= right@);
    true
}

/// Whether `c` is white space: one of the code points with the Unicode
/// property `White_Space`.
pub open spec fn is_whitespace(c: char) -> bool {
    let code = c as u32;
    ||| 0x09 <= code <= 0x0d
    ||| code == 0x20
    ||| code == 0x85
    ||| code == 0xa0
    ||| code == 0x1680
    ||| 0x2000 <= code <= 0x200a
    ||| code == 0x2028
    ||| code == 0x2029
    ||| code == 0x202f
    ||| code == 0x205f
    ||| code == 0x3000
}

/// `s` without the white space it starts with.
pub open spec fn trim_start(s: Seq<char>) -> Seq<char>
    decreases s.len(),
{
    if s.len() > 0 && is_whitespace(s[0]) {
        trim_start(s.drop_first())
    } else {
        s
    }
}

/// `s` without the white space it ends with.
pub open spec fn trim_end(s: Seq<char>) -> Seq<char>
    decreases s.len(),
{
    if s.len() > 0 && is_whitespace(s.last()) {
        trim_end(s.drop_last())
    } else {
        s
    }
}

/// `s` without the white space at either end.
pub open spec fn trimmed(s: Seq<char>) -> Seq<char> {
    trim_end(trim_start(s))
}

/// The pieces of `s` between occurrences of `separator`: one piece more than
/// there are separators, so the pieces of the empty sequence are one empty
/// piece.
pub open spec fn split_on(s: Seq<char>, separator: char) -> Seq<Seq<char>>
    decreases s.len(),
{
    if s.len() == 0 {
        seq![Seq::<char>::empty()]
    } else {
        let before = split_on(s.drop_last(), separator);
        if s.last() == separator {
            before.push(Seq::<char>::empty())
        } else {
            before.drop_last().push(before.last().push(s.last()))
        }
    }
}

/// The pieces of `s` between occurrences of a comma followed by a space.
pub open spec fn split_on_comma_space(s: Seq<char>) -> Seq<Seq<char>>
    decreases s.len(),
{
    if s.len() == 0 {
        seq![Seq::<char>::empty()]
    } else {
        let before = split_on_comma_space(s.drop_last());
        let piece = before.last();
        if s.last() == ' ' && piece.len() > 0 && piece.last() == ',' {
            before.drop_last().push(piece.drop_last()).push(Seq::<char>::empty())
        } else {
            before.drop_last().push(piece.push(s.last()))
        }
    }
}

/// Whether `c` is white space.
pub fn char_is_whitespace(c: char) -> (white: bool)
    ensures
        white == is_whitespace(c),
{
    let code = c as u32;
    (0x09 <= code && code <= 0x0d) || code == 0x20 || code == 0x85 || code == 0xa0 || code
        == 0x1680 || (0x2000 <= code && code <= 0x200a) || code == 0x2028 || code == 0x2029
        || code == 0x202f || code == 0x205f || code == 0x3000
}

/// `v` without the white space at either end.
pub fn trim_chars(v: &Vec<char>) -> (out: Vec<char>)
    ensures
        out@ == trimmed(v@),
{
    let mut start: usize = 0;
    assert(v@.skip(0) =~= v@);
    while start < v.len() && char_is_whitespace(v[start])
        invariant
            start <= v.len(),
            trim_start(v@) == trim_start(v@.skip(start as int)),
        decreases v.len() - start,
    {
        assert(v@.skip(start as int).drop_first() =~= v@.skip(start + 1));
        start += 1;
    }
    assert(trim_start(v@) == v@.skip(start as int));
    let mut end: usize = v.len();
    assert(v@.subrange(start as int, end as int) =~= v@.skip(start as int));
    while end > start && char_is_whitespace(v[end - 1])
        invariant
            start <= end <= v.len(),
            trimmed(v@) == trim_end(v@.subrange(start as int, end as int)),
        decreases end,
    {
        assert(v@.subrange(start as int, end as int).drop_last() =~= v@.subrange(
            start as int,
            end - 1,
        ));
        end -= 1;
    }
    assert(trimmed(v@) == v@.subrange(start as int, end as int));
    let mut out: Vec<char> = Vec::new();
    let mut i: usize = start;
    while i < end
        invariant
            start <= i <= end <= v.len(),
            out@ == v@.subrange(start as int, i as int),
        decreases end - i,
    {
        out.push(v[i]);
        assert(out@ =~= v@.subrange(start as int, i + 1));
        i += 1;
    }
    out
}

/// `s` without the white space at either end.
pub fn trim(s: &str) -> (out: String)
    ensures
        out@ == trimmed(s@),
{
    from_chars(&trim_chars(&to_chars(s)))
}

/// The pieces of `s` between occurrences of `separator`.
pub fn split_chars(s: &str, separator: char) -> (pieces: Vec<Vec<char>>)
    ensures
        pieces@.map_values(|piece: Vec<char>| piece@) == split_on(s@, separator),
{
    let chars = to_chars(s);
    let mut pieces: Vec<Vec<char>> = Vec::new();
    let mut piece: Vec<char> = Vec::new();
    let mut i: usize = 0;
    assert(pieces@.map_values(|piece: Vec<char>| piece@).push(piece@) =~= split_on(
        chars@.take(0),
        separator,
    ));
    while i < chars.len()
        invariant
            i <= chars.len(),
            pieces@.map_values(|piece: Vec<char>| piece@).push(piece@) == split_on(
                chars@.take(i as int),
                separator,
            ),
        decreases chars.len() - i,
    {
        let ghost before = split_on(chars@.take(i as int), separator);
        let ghost done = pieces@.map_values(|piece: Vec<char>| piece@);
        assert(chars@.take(i + 1).drop_last() =~= chars@.take(i as int));
        assert(before.drop_last() =~= done);
        if chars[i] == separator {
            let mut next: Vec<char> = Vec::new();
            core::mem::swap(&mut piece, &mut next);
            pieces.push(next);
            assert(pieces@.map_values(|piece: Vec<char>| piece@) =~= before);
        } else {
            piece.push(chars[i]);
        }
        i += 1;
    }
    assert(chars@.take(chars@.len() as int) =~= chars@);
    let ghost done = pieces@.map_values(|piece: Vec<char>| piece@);
    let ghost last = piece@;
    pieces.push(piece);
    assert(pieces@.map_values(|piece: Vec<char>| piece@) =~= done.push(last));
    pieces
}

/// The pieces of `s` between occurrences of a comma followed by a space.
pub fn split_chars_on_comma_space(s: &str) -> (pieces: Vec<Vec<char>>)
    ensures
        pieces@.map_values(|piece: Vec<char>| piece@) == split_on_comma_space(s@),
{
    let chars = to_chars(s);
    let mut pieces: Vec<Vec<char>> = Vec::new();
    let mut piece: Vec<char> = Vec::new();
    let mut i: usize = 0;
    assert(pieces@.map_values(|piece: Vec<char>| piece@).push(piece@) =~= split_on_comma_space(
        chars@.take(0),
    ));
    while i < chars.len()
        invariant
            i <= chars.len(),
            pieces@.map_values(|piece: Vec<char>| piece@).push(piece@) == split_on_comma_space(
                chars@.take(i as int),
            ),
        decreases chars.len() - i,
    {
        let ghost before = split_on_comma_space(chars@.take(i as int));
        let ghost done = pieces@.map_values(|piece: Vec<char>| piece@);
        let ghost current = piece@;
        assert(chars@.take(i + 1).drop_last() =~= chars@.take(i as int));
        assert(before.drop_last() =~= done);
        assert(before.last() == current);
        if chars[i] == ' ' && piece.len() > 0 && piece[piece.len() - 1] == ',' {
            piece.pop();
            let mut next: Vec<char> = Vec::new();
            core::mem::swap(&mut piece, &mut next);
            pieces.push(next);
            assert(pieces@.map_values(|piece: Vec<char>| piece@) =~= done.push(
                current.drop_last(),
            ));
        } else {
            piece.push(chars[i]);
        }
        i += 1;
    }
    assert(chars@.take(chars@.len() as int) =~= chars@);
    let ghost done = pieces@.map_values(|piece: Vec<char>| piece@);
    let ghost last = piece@;
    pieces.push(piece);
    assert(pieces@.map_values(|piece: Vec<char>| piece@) =~= done.push(last));
    pieces
}

/// Trims each piece and keeps those that are not empty then, in order.
pub fn keep_pieces(pieces: &Vec<Vec<char>>) -> (kept: Vec<String>)
    ensures
        string_views(kept@) == kept_pieces(pieces@.map_values(|piece: Vec<char>| piece@)),
{
    let ghost all = pieces@.map_values(|piece: Vec<char>| piece@);
    let mut kept: Vec<String> = Vec::new();
    let mut i: usize = 0;
    assert(string_views(kept@) =~= kept_pieces(all.take(0)));
    while i < pieces.len()
        invariant
            i <= pieces.len(),
            all == pieces@.map_values(|piece: Vec<char>| piece@),
            string_views(kept@) == kept_pieces(all.take(i as int)),
        decreases pieces.len() - i,
    {
        assert(all.take(i + 1).drop_last() =~= all.take(i as int));
        assert(all.take(i + 1).last() == pieces@[i as int]@);
        let piece = trim_chars(&pieces[i]);
        if piece.len() > 0 {
            let ghost before = string_views(kept@);
            kept.push(from_chars(&piece));
            assert(string_views(kept@) =~= before.push(piece@));
        }
        i += 1;
    }
    assert(all.take(all.len() as int) =~= all);
    kept
}

/// The character of one decimal digit.
pub open spec fn digit_of(d: nat) -> char {
    if d == 0 {
        '0'
    } else if d == 1 {
        '1'
    } else if d == 2 {
        '2'
    } else if d == 3 {
        '3'
    } else if d == 4 {
        '4'
    } else if d == 5 {
        '5'
    } else if d == 6 {
        '6'
    } else if d == 7 {
        '7'
    } else if d == 8 {
        '8'
    } else {
        '9'
    }
}

/// `n` written in decimal, without leading zeros.
pub open spec fn decimal(n: nat) -> Seq<char>
    decreases n,
{
    if n < 10 {
        seq![digit_of(n)]
    } else {
        decimal(n / 10).push(digit_of(n % 10))
    }
}

/// The character of one decimal digit.
fn digit_char(d: u64) -> (c: char)
    requires
        d < 10,
    ensures
        c == digit_of(d as nat),
{
    if d == 0 {
        '0'
    } else if d == 1 {
        '1'
    } else if d == 2 {
        '2'
    } else if d == 3 {
        '3'
    } else if d == 4 {
        '4'
    } else if d == 5 {
        '5'
    } else if d == 6 {
        '6'
    } else if d == 7 {
        '7'
    } else if d == 8 {
        '8'
    } else {
        '9'
    }
}

/// `n` written in decimal.
pub fn decimal_string(n: u64) -> (out: String)
    ensures
        out@ == decimal(n as nat),
{
    let mut low: Vec<char> = Vec::new();
    let mut rest: u64 = n;
    while rest >= 10
        invariant
            decimal(n as nat) == decimal(rest as nat) + low@.reverse(),
        decreases rest,
    {
        let ghost before = low@;
        low.push(digit_char(rest % 10));
        assert(low@.reverse() =~= seq![digit_of((rest % 10) as nat)] + before.reverse());
        assert(decimal(rest as nat) + before.reverse() =~= decimal((rest / 10) as nat)
            + low@.reverse());
        rest = rest / 10;
    }
    let mut out: Vec<char> = Vec::new();
    out.push(digit_char(rest));
    let mut i: usize = low.len();
    assert(low@.reverse().take(0) =~= Seq::<char>::empty());
    while i > 0
        invariant
            i <= low.len(),
            out@ == decimal(rest as nat) + low@.reverse().take(low.len() - i),
        decreases i,
    {
        i -= 1;
        out.push(low[i]);
        assert(low@.reverse().take(low.len() - i) =~= low@.reverse().take(low.len() - i - 1).push(
            low@[i as int],
        ));
    }
    assert(low@.reverse().take(low.len() as int) =~= low@.reverse());
    from_chars(&out)
}

} // verus!
