//! Clearing the cache directory: what is reported once every file in it was
//! tried.

use crate::error::Error;
use crate::text::{decimal, decimal_string, string_views};
use vstd::prelude::*;
use vstd::string::StringExecFns;

verus! {

/// The report of a clear that went through.
#[derive(Debug)]
pub struct ClearCacheResult {
    pub success: bool,
    pub message: String,
    pub files_cleared: usize,
    pub files: Vec<String>,
}

/// What a [`ClearCacheResult`] holds.
pub ghost struct ClearCacheResultView {
    pub success: bool,
    pub message: Seq<char>,
    pub files_cleared: usize,
    pub files: Seq<Seq<char>>,
}

impl View for ClearCacheResult {
    type V = ClearCacheResultView;

    open spec fn view(&self) -> ClearCacheResultView {
        ClearCacheResultView {
            success: self.success,
            message: self.message@,
            files_cleared: self.files_cleared,
            files: string_views(self.files@),
        }
    }
}

/// What became of one entry of the cache directory.
#[derive(Debug)]
pub enum Removal {
    /// A file was removed; holds its name, or nothing where it has none.
    Removed(Option<String>),
    /// A file could not be removed; holds its path and the reason.
    Failed(String, String),
    /// The entry could not be read; holds the reason.
    Unreadable(String),
    /// The entry is no file and was left alone.
    Skipped,
}

/// The names of the files that were removed, in order.
pub open spec fn removed_names(removals: Seq<Removal>) -> Seq<Seq<char>>
    decreases removals.len(),
{
    if removals.len() == 0 {
        Seq::empty()
    } else {
        let rest = removed_names(removals.drop_last());
        match removals.last() {
            Removal::Removed(Some(name)) => rest.push(name@),
            _ => rest,
        }
    }
}

/// One line per entry that failed, in order.
pub open spec fn failure_lines(removals: Seq<Removal>) -> Seq<Seq<char>>
    decreases removals.len(),
{
    if removals.len() == 0 {
        Seq::empty()
    } else {
        let rest = failure_lines(removals.drop_last());
        match removals.last() {
            Removal::Failed(path, reason) => rest.push(
                "Failed to remove "@ + path@ + ": "@ + reason@,
            ),
            Removal::Unreadable(reason) => rest.push("Failed to read directory entry: "@ + reason@),
            _ => rest,
        }
    }
}

/// The report of a clear without failures.
pub open spec fn report_of(directory_exists: bool, names: Seq<Seq<char>>) -> ClearCacheResultView {
    if !directory_exists {
        ClearCacheResultView {
            success: true,
            message: "Cache directory does not exist, nothing to clear"@,
            files_cleared: 0,
            files: Seq::empty(),
        }
    } else if names.len() == 0 {
        ClearCacheResultView {
            success: true,
            message: "Cache directory was already empty"@,
            files_cleared: 0,
            files: Seq::empty(),
        }
    } else {
        ClearCacheResultView {
            success: true,
            message: "Successfully cleared "@ + decimal(names.len()) + " cache files"@,
            files_cleared: names.len() as usize,
            files: names,
        }
    }
}

/// Sorts the outcomes into the names of the removed files and the lines of
/// the failures.
fn sort_removals(removals: Vec<Removal>) -> (sorted: (Vec<String>, Vec<String>))
    ensures
        string_views(sorted.0@) == removed_names(removals@),
        string_views(sorted.1@) == failure_lines(removals@),
{
    let mut cleared_files: Vec<String> = Vec::new();
    let mut errors: Vec<String> = Vec::new();
    assert(string_views(cleared_files@) =~= removed_names(removals@.take(0)));
    assert(string_views(errors@) =~= failure_lines(removals@.take(0)));
    for removal in it: removals
        invariant
            it.seq() == removals@,
            string_views(cleared_files@) == removed_names(removals@.take(it.index() as int)),
            string_views(errors@) == failure_lines(removals@.take(it.index() as int)),
    {
        assert(removals@.take(it.index() + 1).drop_last() =~= removals@.take(it.index() as int));
        let ghost names = string_views(cleared_files@);
        let ghost lines = string_views(errors@);
        match removal {
            Removal::Removed(Some(name)) => {
                cleared_files.push(name);
                assert(string_views(cleared_files@) =~= names.push(name@));
            },
            Removal::Removed(None) => {},
            Removal::Failed(path, reason) => {
                let mut line = "Failed to remove ".to_string();
                line.append(path.as_str());
                line.append(": ");
                line.append(reason.as_str());
                errors.push(line);
                assert(string_views(errors@) =~= lines.push(line@));
            },
            Removal::Unreadable(reason) => {
                let mut line = "Failed to read directory entry: ".to_string();
                line.append(reason.as_str());
                errors.push(line);
                assert(string_views(errors@) =~= lines.push(line@));
            },
            Removal::Skipped => {},
        }
    }
    assert(removals@.take(removals@.len() as int) =~= removals@);
    (cleared_files, errors)
}

/// What a clear reports. Without a cache directory there is nothing to
/// clear, and that is a success. Otherwise one failure fails the whole
/// clear, with an error that lists every failure; without failures the report
/// names the files that were removed and counts them.
pub fn clear_cache(directory_exists: bool, removals: Vec<Removal>) -> (report: Result<
    ClearCacheResult,
    Error,
>)
    ensures
        directory_exists && failure_lines(removals@).len() > 0 ==> {
            &&& report matches Err(Error::CacheIo(lines))
            &&& string_views(lines@) == failure_lines(removals@)
        },
        !(directory_exists && failure_lines(removals@).len() > 0) ==> {
            &&& report is Ok
            &&& report->Ok_0@ == report_of(directory_exists, removed_names(removals@))
        },
{
    if !directory_exists {
        let files: Vec<String> = Vec::new();
        assert(string_views(files@) =~= Seq::<Seq<char>>::empty());
        return Ok(
            ClearCacheResult {
                success: true,
                message: "Cache directory does not exist, nothing to clear".to_string(),
                files_cleared: 0,
                files,
            },
        );
    }
    let (cleared_files, errors) = sort_removals(removals);
    assert(string_views(errors@).len() == errors@.len());
    assert(string_views(cleared_files@).len() == cleared_files@.len());
    if errors.len() > 0 {
        return Err(Error::CacheIo(errors));
    }
    if cleared_files.len() == 0 {
        let files: Vec<String> = Vec::new();
        assert(string_views(files@) =~= Seq::<Seq<char>>::empty());
        Ok(
            ClearCacheResult {
                success: true,
                message: "Cache directory was already empty".to_string(),
                files_cleared: 0,
                files,
            },
        )
    } else {
        let mut message = "Successfully cleared ".to_string();
        message.append(decimal_string(cleared_files.len() as u64).as_str());
        message.append(" cache files");
        Ok(
            ClearCacheResult {
                success: true,
                message,
                files_cleared: cleared_files.len(),
                files: cleared_files,
            },
        )
    }
}

/// Clearing a directory that holds no file succeeds and reports that nothing
/// was cleared; so a second clear right after a first reports zero files.
pub proof fn lemma_clearing_empty_directory(names: Seq<Seq<char>>)
    requires
        names.len() == 0,
    ensures
        report_of(true, names).success,
        report_of(true, names).files_cleared == 0,
        report_of(true, names).files.len() == 0,
        report_of(false, names).success,
        report_of(false, names).files_cleared == 0,
{
}

} // verus!
