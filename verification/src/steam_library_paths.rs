//! Reading library folders out of the files that list them.

use crate::error::Error;
use crate::extract_quoted_strings::{extract_quoted_strings, quoted_outside};
use crate::text::{str_eq, string_views};
use vstd::prelude::*;
use vstd::string::StringExecFns;

verus! {

/// The strings that follow the word `path` among the first `n` of a list of
/// quoted strings, in order.
pub open spec fn paths_up_to(quoted: Seq<Seq<char>>, n: nat) -> Seq<Seq<char>>
    decreases n,
{
    if n == 0 {
        Seq::empty()
    } else {
        let rest = paths_up_to(quoted, (n - 1) as nat);
        if n < quoted.len() && quoted[n - 1] == "path"@ {
            rest.push(quoted[n as int])
        } else {
            rest
        }
    }
}

/// The library folders that one file lists: each quoted string that follows
/// the quoted word `path`.
pub open spec fn folders_of(file_data: Seq<char>) -> Seq<Seq<char>> {
    paths_up_to(quoted_outside(file_data), quoted_outside(file_data).len())
}

/// The library folders of the files read, in order, up to the first file
/// that could not be read.
pub open spec fn folders_of_all(files: Seq<Result<String, String>>) -> Seq<Seq<char>>
    decreases files.len(),
{
    if files.len() == 0 {
        Seq::empty()
    } else {
        folders_of_all(files.drop_last()) + match files.last() {
            Ok(file_data) => folders_of(file_data@),
            Err(_) => Seq::empty(),
        }
    }
}

/// The position of the first file that could not be read, or the number of
/// files where all were read.
pub open spec fn first_unread(files: Seq<Result<String, String>>) -> int
    decreases files.len(),
{
    if files.len() == 0 {
        0
    } else if first_unread(files.drop_last()) < files.len() - 1 {
        first_unread(files.drop_last())
    } else if files.last() is Err {
        files.len() - 1
    } else {
        files.len() as int
    }
}

/// The library folders that one file lists.
pub fn library_folders(file_data: &str) -> (folders: Vec<String>)
    ensures
        string_views(folders@) == folders_of(file_data@),
{
    let quoted_strings = extract_quoted_strings(file_data);
    let ghost quoted = string_views(quoted_strings@);
    let mut folders: Vec<String> = Vec::new();
    let mut i: usize = 0;
    assert(string_views(folders@) =~= paths_up_to(quoted, 0));
    while i < quoted_strings.len()
        invariant
            i <= quoted_strings.len(),
            quoted == string_views(quoted_strings@),
            quoted == quoted_outside(file_data@),
            string_views(folders@) == paths_up_to(quoted, i as nat),
        decreases quoted_strings.len() - i,
    {
        assert(quoted[i as int] == quoted_strings@[i as int]@);
        if str_eq(quoted_strings[i].as_str(), "path") && i + 1 < quoted_strings.len() {
            let ghost before = string_views(folders@);
            assert(quoted[i + 1] == quoted_strings@[i + 1]@);
            folders.push(quoted_strings[i + 1].clone());
            assert(string_views(folders@) =~= before.push(quoted[i + 1]));
        }
        i += 1;
    }
    folders
}

/// The library folders of every installation. `files` holds, for each
/// installation that has a file that lists its folders, what reading that
/// file gave: its text, or the reason why it could not be read. One file
/// that could not be read fails the whole listing.
pub fn steam_library_paths(files: &Vec<Result<String, String>>) -> (folders: Result<
    Vec<String>,
    Error,
>)
    ensures
        first_unread(files@) == files@.len() ==> {
            &&& folders is Ok
            &&& string_views(folders->Ok_0@) == folders_of_all(files@)
        },
        first_unread(files@) < files@.len() ==> {
            &&& folders matches Err(Error::Io(text))
            &&& files@[first_unread(files@)] matches Err(reason)
            &&& text@ == "Failed to read library metadata file: "@ + reason@
        },
{
    let mut folders: Vec<String> = Vec::new();
    let mut i: usize = 0;
    assert(string_views(folders@) =~= folders_of_all(files@.take(0)));
    while i < files.len()
        invariant
            i <= files.len(),
            first_unread(files@.take(i as int)) == i,
            string_views(folders@) == folders_of_all(files@.take(i as int)),
        decreases files.len() - i,
    {
        assert(files@.take(i + 1).drop_last() =~= files@.take(i as int));
        match &files[i] {
            Ok(file_data) => {
                let mut found = library_folders(file_data.as_str());
                let ghost before = string_views(folders@);
                let ghost added = string_views(found@);
                folders.append(&mut found);
                assert(string_views(folders@) =~= before + added);
            },
            Err(reason) => {
                proof {
                    lemma_first_unread_stays(files@, i as int);
                }
                return Err(
                    Error::Io(
                        "Failed to read library metadata file: ".to_string().concat(
                            reason.as_str(),
                        ),
                    ),
                );
            },
        }
        i += 1;
    }
    assert(files@.take(files@.len() as int) =~= files@);
    Ok(folders)
}

/// Once a file could not be read, that file is the first such file of every
/// longer list.
pub proof fn lemma_first_unread_stays(files: Seq<Result<String, String>>, i: int)
    requires
        0 <= i < files.len(),
        first_unread(files.take(i + 1)) == i,
    ensures
        first_unread(files) == i,
    decreases files.len(),
{
    if files.len() == i + 1 {
        assert(files.take(i + 1) =~= files);
    } else {
        assert(files.drop_last().take(i + 1) =~= files.take(i + 1));
        lemma_first_unread_stays(files.drop_last(), i);
    }
}

} // verus!
