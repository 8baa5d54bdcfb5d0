//! Finding the folder that holds a game's downloaded workshop content.

use crate::extract_quoted_strings::quoted_outside;
use crate::steam_library_paths::{folders_of, library_folders};
use crate::text::{decimal, decimal_string, from_chars, string_views, to_chars};
use vstd::prelude::*;

verus! {

/// `s` with each pair of backslashes made one, pairs taken from the left.
pub open spec fn collapsed(s: Seq<char>) -> Seq<char>
    decreases s.len(),
{
    if s.len() == 0 {
        s
    } else if s.len() >= 2 && s[0] == '\\' && s[1] == '\\' {
        seq!['\\'] + collapsed(s.skip(2))
    } else {
        seq![s[0]] + collapsed(s.drop_first())
    }
}

/// The names of the folders that lead from a library folder to the content
/// of the game `app_id`.
pub open spec fn content_steps(app_id: u32) -> Seq<Seq<char>> {
    seq!["steamapps"@, "workshop"@, "content"@, decimal(app_id as nat)]
}

/// The position of the first candidate that exists, or the number of
/// candidates where none does.
pub open spec fn first_existing(candidates: Seq<(String, bool)>) -> int
    decreases candidates.len(),
{
    if candidates.len() == 0 {
        0
    } else if first_existing(candidates.drop_last()) < candidates.len() - 1 {
        first_existing(candidates.drop_last())
    } else if candidates.last().1 {
        candidates.len() - 1
    } else {
        candidates.len() as int
    }
}

/// `s` with each pair of backslashes made one.
pub fn collapse_backslashes(s: &str) -> (out: String)
    ensures
        out@ == collapsed(s@),
{
    let chars = to_chars(s);
    let mut out: Vec<char> = Vec::new();
    let mut i: usize = 0;
    assert(chars@.skip(0) =~= chars@);
    while i < chars.len()
        invariant
            i <= chars.len(),
            chars@ == s@,
            out@ + collapsed(chars@.skip(i as int)) == collapsed(s@),
        decreases chars.len() - i,
    {
        let ghost rest = chars@.skip(i as int);
        let ghost before = out@;
        assert(rest[0] == chars@[i as int]);
        if chars[i] == '\\' && i + 1 < chars.len() && chars[i + 1] == '\\' {
            assert(rest[1] == chars@[i + 1]);
            assert(rest.skip(2) =~= chars@.skip(i + 2));
            out.push('\\');
            assert(out@ + collapsed(chars@.skip(i + 2)) =~= before + collapsed(rest));
            i += 2;
        } else {
            assert(rest.drop_first() =~= chars@.skip(i + 1));
            out.push(chars[i]);
            assert(out@ + collapsed(chars@.skip(i + 1)) =~= before + collapsed(rest));
            i += 1;
        }
    }
    assert(out@ + Seq::<char>::empty() =~= out@);
    from_chars(&out)
}

/// The library folders that one file lists, each with its pairs of
/// backslashes made one.
pub fn workshop_library_folders(file_data: &str) -> (folders: Vec<String>)
    ensures
        string_views(folders@) == folders_of(file_data@).map_values(
            |folder: Seq<char>| collapsed(folder),
        ),
{
    let listed = library_folders(file_data);
    let mut folders: Vec<String> = Vec::new();
    let mut i: usize = 0;
    while i < listed.len()
        invariant
            i <= listed.len(),
            folders@.len() == i,
            forall|k: int| 0 <= k < i ==> (#[trigger] folders@[k])@ == collapsed(listed@[k]@),
        decreases listed.len() - i,
    {
        folders.push(collapse_backslashes(listed[i].as_str()));
        i += 1;
    }
    assert(string_views(folders@) =~= string_views(listed@).map_values(
        |folder: Seq<char>| collapsed(folder),
    ));
    folders
}

/// The names of the folders that lead from a library folder to the content
/// of the game `app_id`.
pub fn content_folders(app_id: u32) -> (steps: Vec<String>)
    ensures
        string_views(steps@) == content_steps(app_id),
{
    let mut steps: Vec<String> = Vec::new();
    steps.push("steamapps".to_string());
    steps.push("workshop".to_string());
    steps.push("content".to_string());
    steps.push(decimal_string(app_id as u64));
    assert(string_views(steps@) =~= content_steps(app_id));
    steps
}

/// The workshop folder of a game: the first of the candidate folders that
/// exists. Each candidate comes with whether it exists.
pub fn workshop_path(candidates: &Vec<(String, bool)>) -> (path: Option<String>)
    ensures
        first_existing(candidates@) == candidates@.len() ==> path is None,
        first_existing(candidates@) < candidates@.len() ==> {
            &&& path is Some
            &&& path->0@ == candidates@[first_existing(candidates@)].0@
        },
{
    let mut i: usize = 0;
    while i < candidates.len()
        invariant
            i <= candidates.len(),
            first_existing(candidates@.take(i as int)) == i,
        decreases candidates.len() - i,
    {
        assert(candidates@.take(i + 1).drop_last() =~= candidates@.take(i as int));
        if candidates[i].1 {
            proof {
                lemma_first_existing_stays(candidates@, i as int);
            }
            return Some(candidates[i].0.clone());
        }
        i += 1;
    }
    assert(candidates@.take(candidates@.len() as int) =~= candidates@);
    None
}

/// Once a candidate exists, it is the first such candidate of every longer
/// list.
pub proof fn lemma_first_existing_stays(candidates: Seq<(String, bool)>, i: int)
    requires
        0 <= i < candidates.len(),
        first_existing(candidates.take(i + 1)) == i,
    ensures
        first_existing(candidates) == i,
    decreases candidates.len(),
{
    if candidates.len() == i + 1 {
        assert(candidates.take(i + 1) =~= candidates);
    } else {
        assert(candidates.drop_last().take(i + 1) =~= candidates.take(i + 1));
        lemma_first_existing_stays(candidates.drop_last(), i);
    }
}

} // verus!
