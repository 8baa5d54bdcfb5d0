//! The order in which strings sort: character by character, by code point,
//! a proper prefix before what it is a prefix of.

use vstd::prelude::*;

verus! {

/// Whether `a` sorts strictly before `b`.
pub open spec fn lex_less(a: Seq<char>, b: Seq<char>) -> bool
    decreases a.len(),
{
    if b.len() == 0 {
        false
    } else if a.len() == 0 {
        true
    } else if a[0] != b[0] {
        (a[0] as u32) < (b[0] as u32)
    } else {
        lex_less(a.drop_first(), b.drop_first())
    }
}

/// Whether each element sorts strictly before every later one.
pub open spec fn strictly_sorted(s: Seq<Seq<char>>) -> bool {
    forall|i: int, j: int| 0 <= i < j < s.len() ==> lex_less(#[trigger] s[i], #[trigger] s[j])
}

/// Nothing sorts before itself.
pub proof fn lemma_lex_irreflexive(a: Seq<char>)
    ensures
        !lex_less(a, a),
    decreases a.len(),
{
    if a.len() > 0 {
        lemma_lex_irreflexive(a.drop_first());
    }
}

/// Of two different sequences one sorts before the other.
pub proof fn lemma_lex_total(a: Seq<char>, b: Seq<char>)
    ensures
        a == b || lex_less(a, b) || lex_less(b, a),
    decreases a.len(),
{
    if a.len() > 0 && b.len() > 0 {
        if a[0] == b[0] {
            lemma_lex_total(a.drop_first(), b.drop_first());
            if a.drop_first() == b.drop_first() {
                assert(a =~= seq![a[0]] + a.drop_first());
                assert(b =~= seq![b[0]] + b.drop_first());
            }
        } else {
            vstd::utf8::char_u32_cast(a[0], a[0] as u32);
            vstd::utf8::char_u32_cast(b[0], b[0] as u32);
        }
    } else if a.len() == 0 && b.len() == 0 {
        assert(a =~= b);
    }
}

/// What sorts before something that sorts before a third sorts before the
/// third.
pub proof fn lemma_lex_transitive(a: Seq<char>, b: Seq<char>, c: Seq<char>)
    requires
        lex_less(a, b),
        lex_less(b, c),
    ensures
        lex_less(a, c),
    decreases a.len(),
{
    if a.len() > 0 {
        if a[0] == b[0] && b[0] == c[0] {
            lemma_lex_transitive(a.drop_first(), b.drop_first(), c.drop_first());
        }
    }
}

/// A strictly sorted list holds nothing twice.
pub proof fn lemma_sorted_holds_nothing_twice(s: Seq<Seq<char>>)
    requires
        strictly_sorted(s),
    ensures
        s.no_duplicates(),
{
    assert forall|i: int, j: int| 0 <= i < s.len() && 0 <= j < s.len() && i != j implies s[i]
        != s[j] by {
        lemma_lex_irreflexive(s[i]);
        if i < j {
            assert(lex_less(s[i], s[j]));
        } else {
            assert(lex_less(s[j], s[i]));
        }
    }
}

/// Whether `a` sorts strictly before `b`.
pub fn chars_less(a: &Vec<char>, b: &Vec<char>) -> (less: bool)
    ensures
        less == lex_less(a@, b@),
{
    let mut i: usize = 0;
    assert(a@.skip(0) =~= a@);
    assert(b@.skip(0) =~= b@);
    while i < a.len() && i < b.len()
        invariant
            i <= a.len(),
            i <= b.len(),
            lex_less(a@, b@) == lex_less(a@.skip(i as int), b@.skip(i as int)),
        decreases a.len() - i,
    {
        assert(a@.skip(i as int).drop_first() =~= a@.skip(i + 1));
        assert(b@.skip(i as int).drop_first() =~= b@.skip(i + 1));
        let left: char = a[i];
        let right: char = b[i];
        if left != right {
            return (left as u32) < (right as u32);
        }
        i += 1;
    }
    i < b.len()
}

/// Whether `a` and `b` hold the same characters.
pub fn chars_equal(a: &Vec<char>, b: &Vec<char>) -> (same: bool)
    ensures
        same == (a@ == b@),
{
    if a.len() != b.len() {
        return false;
    }
    let mut i: usize = 0;
    while i < a.len()
        invariant
            i <= a.len(),
            a.len() == b.len(),
            forall|j: int| 0 <= j < i ==> a@[j] == b@[j],
        decreases a.len() - i,
    {
        if a[i] != b[i] {
            return false;
        }
        i += 1;
    }
    assert(a@ =~= b@);
    true
}

/// Puts `item` into a sorted list at its place, unless the list holds it
/// already.
pub fn insert_sorted(list: &mut Vec<Vec<char>>, item: Vec<char>)
    requires
        strictly_sorted(old(list)@.map_values(|entry: Vec<char>| entry@)),
    ensures
        strictly_sorted(final(list)@.map_values(|entry: Vec<char>| entry@)),
        final(list)@.map_values(|entry: Vec<char>| entry@).to_set() == old(list)@.map_values(
            |entry: Vec<char>| entry@,
        ).to_set().insert(item@),
{
    let ghost before = list@.map_values(|entry: Vec<char>| entry@);
    let mut place: usize = 0;
    while place < list.len() && chars_less(&list[place], &item)
        invariant
            place <= list.len(),
            before == list@.map_values(|entry: Vec<char>| entry@),
            forall|i: int| 0 <= i < place ==> lex_less(#[trigger] before[i], item@),
        decreases list.len() - place,
    {
        place += 1;
    }
    if place < list.len() && chars_equal(&list[place], &item) {
        assert(before[place as int] == item@);
        assert(before.to_set().insert(item@) =~= before.to_set());
        return ;
    }
    proof {
        assert forall|j: int| place <= j < before.len() implies lex_less(
            item@,
            #[trigger] before[j],
        ) by {
            lemma_lex_total(item@, before[place as int]);
            if j > place {
                lemma_lex_transitive(item@, before[place as int], before[j]);
            }
        }
    }
    let ghost added = item@;
    list.insert(place, item);
    proof {
        let after = list@.map_values(|entry: Vec<char>| entry@);
        assert(after =~= before.insert(place as int, added));
        assert forall|i: int, j: int| 0 <= i < j < after.len() implies lex_less(
            #[trigger] after[i],
            #[trigger] after[j],
        ) by {
            if j < place {
                assert(after[i] == before[i] && after[j] == before[j]);
            } else if j == place {
                assert(after[i] == before[i]);
            } else if i < place {
                assert(after[i] == before[i] && after[j] == before[j - 1]);
                lemma_lex_transitive(before[i], added, before[j - 1]);
            } else if i == place {
                assert(after[j] == before[j - 1]);
            } else {
                assert(after[i] == before[i - 1] && after[j] == before[j - 1]);
            }
        }
        assert forall|entry: Seq<char>| after.to_set().contains(entry) <==> before.to_set().insert(
            added,
        ).contains(entry) by {
            if after.contains(entry) {
                let k = choose|k: int| 0 <= k < after.len() && after[k] == entry;
                if k < place {
                    assert(before[k] == entry);
                } else if k > place {
                    assert(before[k - 1] == entry);
                }
            }
            if before.contains(entry) {
                let k = choose|k: int| 0 <= k < before.len() && before[k] == entry;
                if k < place {
                    assert(after[k] == entry);
                } else {
                    assert(after[k + 1] == entry);
                }
            }
            if entry == added {
                assert(after[place as int] == entry);
            }
        }
        assert(after.to_set() =~= before.to_set().insert(added));
    }
}

} // verus!
