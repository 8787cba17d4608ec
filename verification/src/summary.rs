//! Summarising the subdirectories of the audio root.

use vstd::prelude::*;
use vstd::string::*;
use crate::collect::{collect, lemma_collect_push, lemma_collect_sound};
use crate::error::{ScanError, ScanErrorView};
use crate::model::{
    directory_views, optional_directory, AudioDirectory, AudioDirectoryView, RootListed, Subdirectory,
};
use crate::resolve::{join, join_path};
use crate::scan::{audio_entries, count_audio_files};
use crate::text::joined;

verus! {

/// The audio root below a project root: its `public/audio`.
pub open spec fn audio_root_of(project_root: Seq<char>) -> Seq<char> {
    join_path(join_path(project_root, "public"@), "audio"@)
}

/// The number of audio files directly in a subdirectory; 0 where its listing
/// could not be read.
pub open spec fn direct_count(sub: Subdirectory) -> nat {
    match sub.entries {
        Some(entries) => audio_entries(entries@).len(),
        None => 0,
    }
}

/// The name under which a subdirectory is reported.
pub open spec fn reported_name(sub: Subdirectory) -> Seq<char> {
    match sub.name {
        Some(name) => name@,
        None => "unknown"@,
    }
}

/// The summary that a record of the root's listing gives: one for each
/// directory that directly holds at least one audio file.
pub open spec fn summary_of(e: RootListed) -> Option<AudioDirectoryView> {
    match e {
        RootListed::Directory(sub) => if direct_count(sub) > 0 {
            Some(
                AudioDirectoryView {
                    name: reported_name(sub),
                    path: "/audio/"@ + sub.display_name@,
                    file_count: direct_count(sub),
                },
            )
        } else {
            None
        },
        _ => None,
    }
}

/// The summaries of the root's listing, in the listing's order.
pub open spec fn summaries(entries: Seq<RootListed>) -> Seq<AudioDirectoryView> {
    collect(entries, |e: RootListed| summary_of(e))
}

/// What the summary scan returns: `RootNotFound` for a missing root,
/// `RootReadFailed` where the root could not be listed, and otherwise the
/// summaries of its listing.
pub open spec fn summary_outcome(
    root_exists: bool,
    listing: Result<Vec<RootListed>, String>,
) -> Result<Seq<AudioDirectoryView>, ScanErrorView> {
    if !root_exists {
        Err(ScanErrorView::RootNotFound)
    } else {
        match listing {
            Err(reason) => Err(ScanErrorView::RootReadFailed { reason: reason@ }),
            Ok(entries) => Ok(summaries(entries@)),
        }
    }
}

/// The view of a summary scan's result.
pub open spec fn summary_view(r: Result<Vec<AudioDirectory>, ScanError>) -> Result<
    Seq<AudioDirectoryView>,
    ScanErrorView,
> {
    match r {
        Ok(dirs) => Ok(directory_views(dirs@)),
        Err(e) => Err(e@),
    }
}

/// The audio root below `project_root`.
pub fn audio_root(project_root: &str) -> (r: String)
    ensures
        r@ == audio_root_of(project_root@),
{
    let public = join(project_root, "public");
    join(public.as_str(), "audio")
}

/// The summary for one record of the root's listing, if it gives one.
pub fn summarize(e: &RootListed) -> (r: Option<AudioDirectory>)
    ensures
        optional_directory(r) == summary_of(*e),
{
    match e {
        RootListed::Directory(sub) => {
            let file_count: usize = match &sub.entries {
                Some(entries) => count_audio_files(entries),
                None => 0,
            };
            if file_count > 0 {
                let name = match &sub.name {
                    Some(name) => name.clone(),
                    None => String::from_str("unknown"),
                };
                let path = joined("/audio/", sub.display_name.as_str());
                Some(AudioDirectory { name, path, file_count })
            } else {
                None
            }
        },
        _ => None,
    }
}

/// Summarises the audio root: one entry, in the order of the listing, for
/// each subdirectory that directly holds at least one audio file, with the
/// number of those files. A subdirectory that could not be listed counts as
/// holding none.
pub fn scan_audio_directories(root_exists: bool, listing: Result<Vec<RootListed>, String>) -> (r:
    Result<Vec<AudioDirectory>, ScanError>)
    ensures
        summary_view(r) == summary_outcome(root_exists, listing),
{
    if !root_exists {
        return Err(ScanError::RootNotFound);
    }
    match listing {
        Err(reason) => Err(ScanError::RootReadFailed { reason }),
        Ok(entries) => {
            let mut out: Vec<AudioDirectory> = Vec::new();
            let mut i: usize = 0;
            assert(entries@.take(0) =~= Seq::empty());
            assert(directory_views(out@) =~= summaries(entries@.take(0)));
            while i < entries.len()
                invariant
                    i <= entries@.len(),
                    directory_views(out@) == summaries(entries@.take(i as int)),
                decreases entries@.len() - i,
            {
                proof {
                    lemma_collect_push(
                        entries@.take(i as int),
                        entries@[i as int],
                        |e: RootListed| summary_of(e),
                    );
                    assert(entries@.take(i + 1) =~= entries@.take(i as int).push(
                        entries@[i as int],
                    ));
                }
                let ghost before = out@;
                match summarize(&entries[i]) {
                    Some(d) => {
                        out.push(d);
                        assert(directory_views(out@) =~= directory_views(before).push(d@));
                    },
                    None => {},
                }
                i += 1;
            }
            assert(entries@.take(i as int) =~= entries@);
            Ok(out)
        },
    }
}

/// Every summary stands for a directory of the listing that could be listed
/// and directly holds as many audio files as the summary says, at least one.
pub proof fn lemma_summary_nonempty(entries: Seq<RootListed>, j: int) -> (i: int)
    requires
        0 <= j < summaries(entries).len(),
    ensures
        0 <= i < entries.len(),
        summary_of(entries[i]) == Some(summaries(entries)[j]),
        entries[i] is Directory,
        summaries(entries)[j].file_count > 0,
        summaries(entries)[j].file_count == direct_count(entries[i]->Directory_0),
{
    let i = lemma_collect_sound(entries, |e: RootListed| summary_of(e), j);
    i
}

} // verus!
