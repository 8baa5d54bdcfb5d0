//! Reading the quoted strings out of a text, such as the file that lists an
//! installation's library folders.

use crate::text::{from_chars, string_views, to_chars};
use vstd::prelude::*;

verus! {

/// What a backslash and the character after it stand for inside quotes: the
/// quote, the backslash, a line feed, a tab or a carriage return for the
/// escapes `\"`, `\\`, `\n`, `\t` and `\r`; for any other character, the
/// backslash and the character as they are.
pub open spec fn unescaped(c: char) -> Seq<char> {
    if c == '"' {
        seq!['"']
    } else if c == '\\' {
        seq!['\\']
    } else if c == 'n' {
        seq!['\n']
    } else if c == 't' {
        seq!['\t']
    } else if c == 'r' {
        seq!['\r']
    } else {
        seq!['\\', c]
    }
}

/// The quoted strings of `s`, read from outside any quotes: everything up to
/// the next quote is passed over.
pub open spec fn quoted_outside(s: Seq<char>) -> Seq<Seq<char>>
    decreases s.len(), 0nat,
{
    if s.len() == 0 {
        Seq::empty()
    } else if s[0] == '"' {
        quoted_inside(s.drop_first(), Seq::empty())
    } else {
        quoted_outside(s.drop_first())
    }
}

/// The quoted strings of `s`, read from inside quotes with `open` read so
/// far of the string that is open. A string that the text ends in before
/// its closing quote is not among them.
pub open spec fn quoted_inside(s: Seq<char>, open: Seq<char>) -> Seq<Seq<char>>
    decreases s.len(), 1nat,
{
    if s.len() == 0 {
        Seq::empty()
    } else if s[0] == '"' {
        seq![open] + quoted_outside(s.drop_first())
    } else if s[0] == '\\' {
        if s.len() == 1 {
            Seq::empty()
        } else {
            quoted_inside(s.skip(2), open + unescaped(s[1]))
        }
    } else {
        quoted_inside(s.drop_first(), open.push(s[0]))
    }
}

/// The strings that stand between double quotes in `content`, in order, with
/// the escapes inside them resolved.
pub fn extract_quoted_strings(content: &str) -> (quoted_strings: Vec<String>)
    ensures
        string_views(quoted_strings@) == quoted_outside(content@),
{
    let chars = to_chars(content);
    let mut quoted_strings: Vec<String> = Vec::new();
    let mut quoted_content: Vec<char> = Vec::new();
    let mut inside = false;
    let mut i: usize = 0;
    assert(chars@.skip(0) =~= chars@);
    assert(string_views(quoted_strings@) + quoted_outside(chars@) =~= quoted_outside(chars@));
    while i < chars.len()
        invariant
            i <= chars.len(),
            chars@ == content@,
            inside ==> string_views(quoted_strings@) + quoted_inside(
                chars@.skip(i as int),
                quoted_content@,
            ) == quoted_outside(content@),
            !inside ==> string_views(quoted_strings@) + quoted_outside(chars@.skip(i as int))
                == quoted_outside(content@),
        decreases chars.len() - i,
    {
        let ch = chars[i];
        let ghost rest = chars@.skip(i as int);
        assert(rest[0] == ch);
        assert(rest.drop_first() =~= chars@.skip(i + 1));
        if !inside {
            if ch == '"' {
                inside = true;
                quoted_content = Vec::new();
            }
            i += 1;
        } else if ch == '"' {
            let ghost done = string_views(quoted_strings@);
            let ghost closed = quoted_content@;
            quoted_strings.push(from_chars(&quoted_content));
            assert(string_views(quoted_strings@) =~= done.push(closed));
            assert(done + (seq![closed] + quoted_outside(chars@.skip(i + 1))) =~= done.push(closed)
                + quoted_outside(chars@.skip(i + 1)));
            inside = false;
            i += 1;
        } else if ch == '\\' {
            if i + 1 < chars.len() {
                let escaped = chars[i + 1];
                let ghost open = quoted_content@;
                assert(rest[1] == escaped);
                assert(rest.skip(2) =~= chars@.skip(i + 2));
                if escaped == '"' {
                    quoted_content.push('"');
                } else if escaped == '\\' {
                    quoted_content.push('\\');
                } else if escaped == 'n' {
                    quoted_content.push('\n');
                } else if escaped == 't' {
                    quoted_content.push('\t');
                } else if escaped == 'r' {
                    quoted_content.push('\r');
                } else {
                    quoted_content.push('\\');
                    quoted_content.push(escaped);
                }
                assert(quoted_content@ =~= open + unescaped(escaped));
                i += 2;
            } else {
                assert(rest.len() == 1);
                assert(chars@.skip(i + 1).len() == 0);
                quoted_content.push('\\');
                i += 1;
            }
        } else {
            quoted_content.push(ch);
            i += 1;
        }
    }
    assert(chars@.skip(chars@.len() as int).len() == 0);
    assert(string_views(quoted_strings@) + Seq::<Seq<char>>::empty() =~= string_views(
        quoted_strings@,
    ));
    quoted_strings
}

} // verus!
