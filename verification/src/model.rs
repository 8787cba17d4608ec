//! The values that a scan takes in and hands out, with their mathematical views.

use vstd::prelude::*;

verus! {

/// One audio file found by a scan.
#[derive(Debug, Clone)]
pub struct AudioFile {
    pub name: String,
    pub path: String,
    pub size: u64,
    pub extension: String,
}

/// What an `AudioFile` holds, as plain sequences.
pub ghost struct AudioFileView {
    pub name: Seq<char>,
    pub path: Seq<char>,
    pub size: u64,
    pub extension: Seq<char>,
}

impl View for AudioFile {
    type V = AudioFileView;

    open spec fn view(&self) -> AudioFileView {
        AudioFileView {
            name: self.name@,
            path: self.path@,
            size: self.size,
            extension: self.extension@,
        }
    }
}

/// The view of an optional file.
pub open spec fn optional_file(f: Option<AudioFile>) -> Option<AudioFileView> {
    match f {
        Some(f) => Some(f@),
        None => None,
    }
}

/// The views of a sequence of files, in the same order.
pub open spec fn file_views(files: Seq<AudioFile>) -> Seq<AudioFileView> {
    Seq::new(files.len(), |i: int| files[i]@)
}

/// The result of scanning one directory. `count` is the number of `files`;
/// the fields are private so that no value can break this.
#[derive(Debug)]
pub struct DirectoryContents {
    directory: String,
    files: Vec<AudioFile>,
    count: usize,
}

/// What a `DirectoryContents` holds.
pub ghost struct DirectoryContentsView {
    pub directory: Seq<char>,
    pub files: Seq<AudioFileView>,
    pub count: nat,
}

impl View for DirectoryContents {
    type V = DirectoryContentsView;

    closed spec fn view(&self) -> DirectoryContentsView {
        DirectoryContentsView {
            directory: self.directory@,
            files: file_views(self.files@),
            count: self.count as nat,
        }
    }
}

impl DirectoryContents {
    #[verifier::type_invariant]
    spec fn counted(&self) -> bool {
        self.count == self.files@.len()
    }

    /// The result for the request `directory` in which `files` were found.
    pub fn new(directory: String, files: Vec<AudioFile>) -> (r: DirectoryContents)
        ensures
            r@.directory == directory@,
            r@.files == file_views(files@),
            r@.count == files@.len(),
    {
        let count: usize = files.len();
        DirectoryContents { directory, files, count }
    }

    /// The request string, as it was given.
    pub fn directory(&self) -> (r: &String)
        ensures
            r@ == self@.directory,
    {
        &self.directory
    }

    /// The files found, in the order of the listing.
    pub fn files(&self) -> (r: &Vec<AudioFile>)
        ensures
            file_views(r@) == self@.files,
            r@.len() == self@.count,
    {
        proof {
            use_type_invariant(self);
        }
        &self.files
    }

    /// The number of files found.
    pub fn count(&self) -> (r: usize)
        ensures
            r == self@.count,
            r == self@.files.len(),
    {
        proof {
            use_type_invariant(self);
        }
        self.count
    }
}

/// One subdirectory of the audio root that directly holds audio files.
#[derive(Debug, Clone)]
pub struct AudioDirectory {
    pub name: String,
    pub path: String,
    pub file_count: usize,
}

/// What an `AudioDirectory` holds, as plain sequences.
pub ghost struct AudioDirectoryView {
    pub name: Seq<char>,
    pub path: Seq<char>,
    pub file_count: nat,
}

impl View for AudioDirectory {
    type V = AudioDirectoryView;

    open spec fn view(&self) -> AudioDirectoryView {
        AudioDirectoryView {
            name: self.name@,
            path: self.path@,
            file_count: self.file_count as nat,
        }
    }
}

/// The view of an optional summary.
pub open spec fn optional_directory(d: Option<AudioDirectory>) -> Option<AudioDirectoryView> {
    match d {
        Some(d) => Some(d@),
        None => None,
    }
}

/// The views of a sequence of summaries, in the same order.
pub open spec fn directory_views(dirs: Seq<AudioDirectory>) -> Seq<AudioDirectoryView> {
    Seq::new(dirs.len(), |i: int| dirs[i]@)
}

/// What was found at a path.
#[derive(Debug, Clone, Copy, PartialEq, Eq, Structural)]
pub enum PathKind {
    /// Nothing exists there.
    Missing,
    /// Something exists there that is not a directory.
    NotDirectory,
    /// A directory.
    Directory,
}

/// What the caller read of one directory entry.
#[derive(Debug, Clone)]
pub struct DirEntry {
    /// The entry's file name, where it is valid Unicode.
    pub name: Option<String>,
    /// The entry's full path.
    pub path: String,
    /// Whether the entry is a regular file.
    pub is_file: bool,
    /// The byte size from the entry's metadata, where that could be read.
    pub size: Option<u64>,
}

/// One record of a directory listing.
#[derive(Debug, Clone)]
pub enum Listed {
    /// The record could not be read.
    Unreadable,
    /// The record was read.
    Entry(DirEntry),
}

/// What the caller read of one entry of the audio root.
#[derive(Debug, Clone)]
pub struct Subdirectory {
    /// The directory's name, where it is valid Unicode.
    pub name: Option<String>,
    /// The directory's name with every invalid sequence replaced.
    pub display_name: String,
    /// The directory's own listing, where it could be read.
    pub entries: Option<Vec<Listed>>,
}

/// One record of the audio root's listing.
#[derive(Debug, Clone)]
pub enum RootListed {
    /// The record could not be read.
    Unreadable,
    /// The record is not a directory.
    Other,
    /// The record is a directory.
    Directory(Subdirectory),
}

} // verus!
