//! Scanning one directory listing for audio files.

use vstd::prelude::*;
use vstd::string::*;
use crate::collect::{
    collect, lemma_collect_complete, lemma_collect_len, lemma_collect_none, lemma_collect_ordered,
    lemma_collect_push, lemma_collect_skip, lemma_collect_sound,
};
use crate::error::{ScanError, ScanErrorView};
use crate::formats::{
    audio_extension, audio_extension_of, dot_free, extension_of, is_supported,
    lemma_audio_extension_case_insensitive, lemma_named_audio_extension,
    lemma_named_other_extension,
};
use crate::model::{
    file_views, optional_file, AudioFile, AudioFileView, DirectoryContents, DirectoryContentsView, Listed, PathKind,
};
use crate::text::{is_lower, lower_seq};

verus! {

/// The size reported for a file: what its metadata gave, or 0 where the
/// metadata could not be read.
pub open spec fn reported_size(size: Option<u64>) -> u64 {
    match size {
        Some(n) => n,
        None => 0,
    }
}

/// The audio file that a listing record stands for, if any: the record was
/// read, is a regular file, has a Unicode name, and that name's extension is
/// a recognised one in any casing.
pub open spec fn entry_audio(e: Listed) -> Option<AudioFileView> {
    match e {
        Listed::Unreadable => None,
        Listed::Entry(d) => if d.is_file && d.name.is_some() && audio_extension_of(
            d.name.unwrap()@,
        ).is_some() {
            Some(
                AudioFileView {
                    name: d.name.unwrap()@,
                    path: d.path@,
                    size: reported_size(d.size),
                    extension: audio_extension_of(d.name.unwrap()@).unwrap(),
                },
            )
        } else {
            None
        },
    }
}

/// The audio files of a listing, in the listing's order.
pub open spec fn audio_entries(entries: Seq<Listed>) -> Seq<AudioFileView> {
    collect(entries, |e: Listed| entry_audio(e))
}

/// What a scan returns: the error for a path that is missing, is no
/// directory or cannot be listed, and otherwise the audio files of the listing.
pub open spec fn scan_outcome(
    directory_path: Seq<char>,
    resolved: Seq<char>,
    kind: PathKind,
    listing: Result<Vec<Listed>, String>,
) -> Result<DirectoryContentsView, ScanErrorView> {
    match kind {
        PathKind::Missing => Err(
            ScanErrorView::DirectoryNotFound { requested: directory_path, resolved },
        ),
        PathKind::NotDirectory => Err(
            ScanErrorView::NotADirectory { requested: directory_path, resolved },
        ),
        PathKind::Directory => match listing {
            Err(reason) => Err(ScanErrorView::DirectoryReadFailed { reason: reason@ }),
            Ok(entries) => Ok(
                DirectoryContentsView {
                    directory: directory_path,
                    files: audio_entries(entries@),
                    count: audio_entries(entries@).len(),
                },
            ),
        },
    }
}

/// The view of a scan's result.
pub open spec fn outcome_view(r: Result<DirectoryContents, ScanError>) -> Result<
    DirectoryContentsView,
    ScanErrorView,
> {
    match r {
        Ok(c) => Ok(c@),
        Err(e) => Err(e@),
    }
}

/// Appending one record to a listing appends its audio file, where it is one.
pub proof fn lemma_audio_entries_push(entries: Seq<Listed>, e: Listed)
    ensures
        audio_entries(entries.push(e)) == match entry_audio(e) {
            Some(f) => audio_entries(entries).push(f),
            None => audio_entries(entries),
        },
{
    lemma_collect_push(entries, e, |e: Listed| entry_audio(e));
}

/// The audio file for one listing record, if it stands for one.
pub fn audio_file_of(e: &Listed) -> (r: Option<AudioFile>)
    ensures
        optional_file(r) == entry_audio(*e),
{
    match e {
        Listed::Unreadable => None,
        Listed::Entry(d) => {
            if !d.is_file {
                return None;
            }
            match &d.name {
                None => None,
                Some(name) => match audio_extension(name.as_str()) {
                    None => None,
                    Some(extension) => {
                        let size: u64 = match d.size {
                            Some(n) => n,
                            None => 0,
                        };
                        Some(
                            AudioFile { name: name.clone(), path: d.path.clone(), size, extension },
                        )
                    },
                },
            }
        },
    }
}

/// The audio files of a listing, in the listing's order.
pub fn collect_audio_files(entries: &Vec<Listed>) -> (r: Vec<AudioFile>)
    ensures
        file_views(r@) == audio_entries(entries@),
{
    let mut out: Vec<AudioFile> = Vec::new();
    let mut i: usize = 0;
    assert(entries@.take(0) =~= Seq::empty());
    assert(file_views(out@) =~= audio_entries(entries@.take(0)));
    while i < entries.len()
        invariant
            i <= entries@.len(),
            file_views(out@) == audio_entries(entries@.take(i as int)),
        decreases entries@.len() - i,
    {
        proof {
            lemma_audio_entries_push(entries@.take(i as int), entries@[i as int]);
            assert(entries@.take(i + 1) =~= entries@.take(i as int).push(entries@[i as int]));
        }
        let ghost before = out@;
        match audio_file_of(&entries[i]) {
            Some(f) => {
                out.push(f);
                assert(file_views(out@) =~= file_views(before).push(f@));
            },
            None => {},
        }
        i += 1;
    }
    assert(entries@.take(i as int) =~= entries@);
    out
}

/// Scans one directory. `directory_path` is the request as given and
/// `resolved` the path that was tried for it; `kind` says what was found
/// there and `listing` what listing it gave. The files come in the order of
/// the listing; records that could not be read, that are no regular files or
/// that carry no recognised extension are passed over, and a file whose
/// metadata could not be read is reported with size 0.
pub fn scan_audio_directory(
    directory_path: String,
    resolved: &str,
    kind: PathKind,
    listing: Result<Vec<Listed>, String>,
) -> (r: Result<DirectoryContents, ScanError>)
    ensures
        outcome_view(r) == scan_outcome(directory_path@, resolved@, kind, listing),
        r.is_ok() ==> r.unwrap()@.count == r.unwrap()@.files.len(),
{
    match kind {
        PathKind::Missing => Err(
            ScanError::DirectoryNotFound {
                requested: directory_path,
                resolved: String::from_str(resolved),
            },
        ),
        PathKind::NotDirectory => Err(
            ScanError::NotADirectory {
                requested: directory_path,
                resolved: String::from_str(resolved),
            },
        ),
        PathKind::Directory => match listing {
            Err(reason) => Err(ScanError::DirectoryReadFailed { reason }),
            Ok(entries) => {
                let files = collect_audio_files(&entries);
                Ok(DirectoryContents::new(directory_path, files))
            },
        },
    }
}

/// The number of audio files in a listing.
pub fn count_audio_files(entries: &Vec<Listed>) -> (r: usize)
    ensures
        r == audio_entries(entries@).len(),
{
    let mut count: usize = 0;
    let mut i: usize = 0;
    assert(entries@.take(0) =~= Seq::empty());
    while i < entries.len()
        invariant
            i <= entries@.len(),
            count <= i,
            count == audio_entries(entries@.take(i as int)).len(),
        decreases entries@.len() - i,
    {
        proof {
            lemma_audio_entries_push(entries@.take(i as int), entries@[i as int]);
            assert(entries@.take(i + 1) =~= entries@.take(i as int).push(entries@[i as int]));
        }
        if audio_file_of(&entries[i]).is_some() {
            count += 1;
        }
        i += 1;
    }
    assert(entries@.take(i as int) =~= entries@);
    count
}

/// Whether a directory exists at a path of this kind.
pub fn check_directory_exists(kind: PathKind) -> (r: bool)
    ensures
        r == (kind == PathKind::Directory),
{
    match kind {
        PathKind::Directory => true,
        _ => false,
    }
}

/// A regular file whose extension is a recognised one, in whatever casing,
/// is among the files of the scan, with its extension in lower case.
pub proof fn lemma_supported_file_included(entries: Seq<Listed>, i: int)
    requires
        0 <= i < entries.len(),
        entries[i] is Entry,
        entries[i]->Entry_0.is_file,
        entries[i]->Entry_0.name.is_some(),
        extension_of(entries[i]->Entry_0.name.unwrap()@).is_some(),
        is_supported(lower_seq(extension_of(entries[i]->Entry_0.name.unwrap()@).unwrap())),
    ensures
        audio_entries(entries).contains(
            AudioFileView {
                name: entries[i]->Entry_0.name.unwrap()@,
                path: entries[i]->Entry_0.path@,
                size: reported_size(entries[i]->Entry_0.size),
                extension: lower_seq(extension_of(entries[i]->Entry_0.name.unwrap()@).unwrap()),
            },
        ),
{
    lemma_audio_extension_case_insensitive(entries[i]->Entry_0.name.unwrap()@);
    lemma_collect_complete(entries, |e: Listed| entry_audio(e), i);
}

/// A regular file named by a non-empty stem, a dot and a recognised
/// extension in any casing is among the files of the scan, with that
/// extension in lower case.
pub proof fn lemma_named_file_included(
    entries: Seq<Listed>,
    i: int,
    stem: Seq<char>,
    ext: Seq<char>,
)
    requires
        0 <= i < entries.len(),
        entries[i] is Entry,
        entries[i]->Entry_0.is_file,
        entries[i]->Entry_0.name.is_some(),
        entries[i]->Entry_0.name.unwrap()@ == stem + seq!['.'] + ext,
        stem.len() > 0,
        is_supported(lower_seq(ext)),
    ensures
        audio_entries(entries).contains(
            AudioFileView {
                name: stem + seq!['.'] + ext,
                path: entries[i]->Entry_0.path@,
                size: reported_size(entries[i]->Entry_0.size),
                extension: lower_seq(ext),
            },
        ),
{
    lemma_named_audio_extension(stem, ext);
    lemma_supported_file_included(entries, i);
}

/// A file named by a non-empty stem, a dot and an extension that is not a
/// recognised one in any casing takes no part in the scan: the files are
/// those of the listing without that record.
pub proof fn lemma_named_file_excluded(
    entries: Seq<Listed>,
    i: int,
    stem: Seq<char>,
    ext: Seq<char>,
)
    requires
        0 <= i < entries.len(),
        entries[i] is Entry,
        entries[i]->Entry_0.name.is_some(),
        entries[i]->Entry_0.name.unwrap()@ == stem + seq!['.'] + ext,
        stem.len() > 0,
        dot_free(ext),
        !is_supported(lower_seq(ext)),
    ensures
        entry_audio(entries[i]).is_none(),
        audio_entries(entries) == audio_entries(entries.remove(i)),
{
    lemma_named_other_extension(stem, ext);
    lemma_collect_skip(entries, |e: Listed| entry_audio(e), i);
}

/// The name of a record, where it was read and has a Unicode name.
pub open spec fn record_name(e: Listed) -> Option<Seq<char>> {
    match e {
        Listed::Unreadable => None,
        Listed::Entry(d) => match d.name {
            Some(name) => Some(name@),
            None => None,
        },
    }
}

/// Whether no two records of a listing carry the same name, as in the
/// listing of one directory.
pub open spec fn distinct_names(entries: Seq<Listed>) -> bool {
    forall|a: int, b: int|
        0 <= a < b < entries.len() && record_name(entries[a]).is_some() ==> record_name(
            entries[a],
        ) != record_name(entries[b])
}

/// In a listing without repeated names, a named record that stands for no
/// audio file has its name on none of the files of the scan.
pub proof fn lemma_excluded_name_absent(entries: Seq<Listed>, i: int)
    requires
        0 <= i < entries.len(),
        distinct_names(entries),
        record_name(entries[i]).is_some(),
        entry_audio(entries[i]).is_none(),
    ensures
        forall|j: int|
            0 <= j < audio_entries(entries).len() ==> (#[trigger] audio_entries(entries)[j]).name
                != record_name(entries[i]).unwrap(),
{
    assert forall|j: int| 0 <= j < audio_entries(entries).len() implies (#[trigger] audio_entries(
        entries,
    )[j]).name != record_name(entries[i]).unwrap() by {
        let k = lemma_collect_sound(entries, |e: Listed| entry_audio(e), j);
        assert(record_name(entries[k]) == Some(audio_entries(entries)[j].name));
        if k < i {
            assert(record_name(entries[k]) != record_name(entries[i]));
        } else {
            assert(record_name(entries[i]) != record_name(entries[k]));
        }
    }
}

/// A record that stands for no audio file takes no part in the scan.
pub proof fn lemma_record_excluded(entries: Seq<Listed>, i: int)
    requires
        0 <= i < entries.len(),
        entry_audio(entries[i]).is_none(),
    ensures
        audio_entries(entries) == audio_entries(entries.remove(i)),
{
    lemma_collect_skip(entries, |e: Listed| entry_audio(e), i);
}

/// Every file of the scan stands for a record of the listing that is a
/// regular file with a recognised extension; its extension is on the
/// allow-list and in lower case. So a record with any other extension, or
/// none, is not among the files.
pub proof fn lemma_scanned_file_supported(entries: Seq<Listed>, j: int) -> (i: int)
    requires
        0 <= j < audio_entries(entries).len(),
    ensures
        0 <= i < entries.len(),
        entry_audio(entries[i]) == Some(audio_entries(entries)[j]),
        entries[i] is Entry,
        entries[i]->Entry_0.is_file,
        entries[i]->Entry_0.name.is_some(),
        extension_of(entries[i]->Entry_0.name.unwrap()@).is_some(),
        audio_entries(entries)[j].extension == lower_seq(
            extension_of(entries[i]->Entry_0.name.unwrap()@).unwrap(),
        ),
        is_supported(audio_entries(entries)[j].extension),
        is_lower(audio_entries(entries)[j].extension),
{
    let i = lemma_collect_sound(entries, |e: Listed| entry_audio(e), j);
    lemma_audio_extension_case_insensitive(entries[i]->Entry_0.name.unwrap()@);
    i
}

/// A record that is no regular file, that has no Unicode name, or whose name
/// carries no recognised extension stands for no audio file; a listing of
/// such records alone gives no files.
pub proof fn lemma_unsupported_excluded(entries: Seq<Listed>)
    requires
        forall|i: int|
            0 <= i < entries.len() ==> match #[trigger] entries[i] {
                Listed::Unreadable => true,
                Listed::Entry(d) => !d.is_file || d.name.is_none() || extension_of(
                    d.name.unwrap()@,
                ).is_none() || !is_supported(lower_seq(extension_of(d.name.unwrap()@).unwrap())),
            },
    ensures
        audio_entries(entries).len() == 0,
{
    assert forall|i: int| 0 <= i < entries.len() implies entry_audio(#[trigger] entries[i]).is_none() by {}
    lemma_collect_none(entries, |e: Listed| entry_audio(e));
}

/// The files of a scan come in the order of the records that they stand for.
pub proof fn lemma_scan_keeps_order(entries: Seq<Listed>, j1: int, j2: int) -> (r: (int, int))
    requires
        0 <= j1 < j2 < audio_entries(entries).len(),
    ensures
        0 <= r.0 < r.1 < entries.len(),
        entry_audio(entries[r.0]) == Some(audio_entries(entries)[j1]),
        entry_audio(entries[r.1]) == Some(audio_entries(entries)[j2]),
{
    lemma_collect_ordered(entries, |e: Listed| entry_audio(e), j1, j2)
}

/// A scan reports no more files than the listing has records.
pub proof fn lemma_scan_bounded(entries: Seq<Listed>)
    ensures
        audio_entries(entries).len() <= entries.len(),
{
    lemma_collect_len(entries, |e: Listed| entry_audio(e));
}

} // verus!
