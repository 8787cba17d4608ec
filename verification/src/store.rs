//! Keeping small JSON documents in the application's data directory.

use vstd::prelude::*;
use vstd::string::*;
use crate::json::{displayed_error, error_text, parse_text, parsed_json, printed_json, to_pretty_text};
use crate::resolve::{join, join_path};
use crate::text::{borrowed_text, joined};

verus! {

/// A failed read or write of a document.
#[derive(Debug)]
pub enum StoreError {
    /// The data directory could not be created.
    CreateDirFailed { reason: String },
    /// The value could not be turned into JSON text.
    SerializationFailed { reason: String },
    /// The document could not be written.
    WriteFailed { reason: String },
    /// No document of that name exists.
    FileNotFound { filename: String },
    /// The document exists and could not be read.
    ReadFailed { reason: String },
    /// The document's text is not valid JSON.
    ParseFailed { reason: String },
}

/// What a `StoreError` holds, as plain sequences.
pub ghost enum StoreErrorView {
    CreateDirFailed { reason: Seq<char> },
    SerializationFailed { reason: Seq<char> },
    WriteFailed { reason: Seq<char> },
    FileNotFound { filename: Seq<char> },
    ReadFailed { reason: Seq<char> },
    ParseFailed { reason: Seq<char> },
}

impl View for StoreError {
    type V = StoreErrorView;

    open spec fn view(&self) -> StoreErrorView {
        match self {
            StoreError::CreateDirFailed { reason } => StoreErrorView::CreateDirFailed {
                reason: reason@,
            },
            StoreError::SerializationFailed { reason } => StoreErrorView::SerializationFailed {
                reason: reason@,
            },
            StoreError::WriteFailed { reason } => StoreErrorView::WriteFailed { reason: reason@ },
            StoreError::FileNotFound { filename } => StoreErrorView::FileNotFound {
                filename: filename@,
            },
            StoreError::ReadFailed { reason } => StoreErrorView::ReadFailed { reason: reason@ },
            StoreError::ParseFailed { reason } => StoreErrorView::ParseFailed { reason: reason@ },
        }
    }
}

impl StoreErrorView {
    /// The text shown for the error.
    pub open spec fn message_text(self) -> Seq<char> {
        match self {
            StoreErrorView::CreateDirFailed { reason } => "Failed to create app directory: "@
                + reason,
            StoreErrorView::SerializationFailed { reason } => "Failed to serialize JSON: "@
                + reason,
            StoreErrorView::WriteFailed { reason } => "Failed to write file: "@ + reason,
            StoreErrorView::FileNotFound { filename } => "File does not exist: "@ + filename,
            StoreErrorView::ReadFailed { reason } => "Failed to read file: "@ + reason,
            StoreErrorView::ParseFailed { reason } => "Failed to parse JSON: "@ + reason,
        }
    }
}

impl StoreError {
    /// The human-readable message for the error.
    pub fn message(&self) -> (r: String)
        ensures
            r@ == self@.message_text(),
    {
        match self {
            StoreError::CreateDirFailed { reason } => joined(
                "Failed to create app directory: ",
                reason.as_str(),
            ),
            StoreError::SerializationFailed { reason } => joined(
                "Failed to serialize JSON: ",
                reason.as_str(),
            ),
            StoreError::WriteFailed { reason } => joined("Failed to write file: ", reason.as_str()),
            StoreError::FileNotFound { filename } => joined(
                "File does not exist: ",
                filename.as_str(),
            ),
            StoreError::ReadFailed { reason } => joined("Failed to read file: ", reason.as_str()),
            StoreError::ParseFailed { reason } => joined("Failed to parse JSON: ", reason.as_str()),
        }
    }
}

/// What was found under a document's path.
#[derive(Debug, Clone)]
pub enum Fetched {
    /// Nothing exists there.
    Missing,
    /// The file exists and could not be read; the system's reason.
    Unreadable(String),
    /// The file's text.
    Contents(String),
}

/// The data directory: `ucanduit` below the roaming application data where
/// that is set, else `.ucanduit` below the home directory where that is set,
/// else `data` below the working directory, and the relative `data` where
/// not even that is known.
pub open spec fn app_data_dir_of(
    appdata: Option<Seq<char>>,
    home: Option<Seq<char>>,
    cwd: Option<Seq<char>>,
) -> Seq<char> {
    match appdata {
        Some(dir) => join_path(dir, "ucanduit"@),
        None => match home {
            Some(dir) => join_path(dir, ".ucanduit"@),
            None => match cwd {
                Some(dir) => join_path(dir, "data"@),
                None => "data"@,
            },
        },
    }
}

/// The outcome of turning a value into text: the text as the codec gave it,
/// or `SerializationFailed` with the text of the codec's error.
pub open spec fn serialized_view(encoded: Result<Seq<char>, serde_json::Error>) -> Result<
    Seq<char>,
    StoreErrorView,
> {
    match encoded {
        Ok(text) => Ok(text),
        Err(e) => Err(StoreErrorView::SerializationFailed { reason: displayed_error(e) }),
    }
}

/// The outcome of parsing a document's text: the value as the codec gave it,
/// or `ParseFailed` with the text of the codec's error.
pub open spec fn parsed_view(parsed: Result<serde_json::Value, serde_json::Error>) -> Result<
    serde_json::Value,
    StoreErrorView,
> {
    match parsed {
        Ok(value) => Ok(value),
        Err(e) => Err(StoreErrorView::ParseFailed { reason: displayed_error(e) }),
    }
}

/// What the first half of a write gives: `CreateDirFailed` where the data
/// directory could not be made, and otherwise the pretty-printed text of the
/// value or the codec's failure.
pub open spec fn write_outcome(created: Result<(), String>, data: serde_json::Value) -> Result<
    Seq<char>,
    StoreErrorView,
> {
    match created {
        Err(reason) => Err(StoreErrorView::CreateDirFailed { reason: reason@ }),
        Ok(_) => serialized_view(printed_json(data)),
    }
}

/// What a read gives: `FileNotFound` for a missing file, `ReadFailed` for an
/// unreadable one, and for a text the value that it parses to or the
/// codec's failure.
pub open spec fn read_outcome(filename: Seq<char>, fetched: Fetched) -> Result<
    serde_json::Value,
    StoreErrorView,
> {
    match fetched {
        Fetched::Missing => Err(StoreErrorView::FileNotFound { filename }),
        Fetched::Unreadable(reason) => Err(StoreErrorView::ReadFailed { reason: reason@ }),
        Fetched::Contents(text) => parsed_view(parsed_json(text@)),
    }
}

/// The view of a result that holds a text.
pub open spec fn text_result_view(r: Result<String, StoreError>) -> Result<
    Seq<char>,
    StoreErrorView,
> {
    match r {
        Ok(text) => Ok(text@),
        Err(e) => Err(e@),
    }
}

/// The view of a result that holds a JSON value.
pub open spec fn value_result_view(r: Result<serde_json::Value, StoreError>) -> Result<
    serde_json::Value,
    StoreErrorView,
> {
    match r {
        Ok(value) => Ok(value),
        Err(e) => Err(e@),
    }
}

/// The view of a codec result that holds a text.
pub open spec fn encoded_view(encoded: Result<String, serde_json::Error>) -> Result<
    Seq<char>,
    serde_json::Error,
> {
    match encoded {
        Ok(text) => Ok(text@),
        Err(e) => Err(e),
    }
}

/// The data directory for the given settings of the environment.
pub fn app_data_dir(appdata: Option<&str>, home: Option<&str>, cwd: Option<&str>) -> (r: String)
    ensures
        r@ == app_data_dir_of(borrowed_text(appdata), borrowed_text(home), borrowed_text(cwd)),
{
    match appdata {
        Some(dir) => join(dir, "ucanduit"),
        None => match home {
            Some(dir) => join(dir, ".ucanduit"),
            None => match cwd {
                Some(dir) => join(dir, "data"),
                None => String::from_str("data"),
            },
        },
    }
}

/// The path of the document `filename` in the data directory `app_dir`.
pub fn document_path(app_dir: &str, filename: &str) -> (r: String)
    ensures
        r@ == join_path(app_dir@, filename@),
{
    join(app_dir, filename)
}

/// The outcome of turning a value into text, from what the codec gave.
pub fn serialized_outcome(encoded: Result<String, serde_json::Error>) -> (r: Result<
    String,
    StoreError,
>)
    ensures
        text_result_view(r) == serialized_view(encoded_view(encoded)),
{
    match encoded {
        Ok(text) => Ok(text),
        Err(e) => Err(StoreError::SerializationFailed { reason: error_text(&e) }),
    }
}

/// The first half of writing a document. `created` is the outcome of making
/// sure that the data directory exists: where that failed, the write fails
/// with `CreateDirFailed` and the system's reason. Otherwise the result is
/// the pretty-printed JSON text of `data`, to be written under the
/// document's path in place of whatever is there, or `SerializationFailed`
/// where the codec failed.
pub fn write_json_file(created: Result<(), String>, data: &serde_json::Value) -> (r: Result<
    String,
    StoreError,
>)
    ensures
        text_result_view(r) == write_outcome(created, *data),
{
    match created {
        Err(reason) => Err(StoreError::CreateDirFailed { reason }),
        Ok(_) => serialized_outcome(to_pretty_text(data)),
    }
}

/// The second half of writing a document: `written` is the outcome of
/// writing the text, and a failure there is `WriteFailed` with the system's
/// reason.
pub fn written_outcome(written: Result<(), String>) -> (r: Result<(), StoreError>)
    ensures
        match written {
            Ok(_) => r.is_ok(),
            Err(reason) => r.is_err() && r.unwrap_err()@ == (StoreErrorView::WriteFailed {
                reason: reason@,
            }),
        },
{
    match written {
        Ok(_) => Ok(()),
        Err(reason) => Err(StoreError::WriteFailed { reason }),
    }
}

/// The outcome of parsing a document's text, from what the codec gave.
pub fn parsed_outcome(parsed: Result<serde_json::Value, serde_json::Error>) -> (r: Result<
    serde_json::Value,
    StoreError,
>)
    ensures
        value_result_view(r) == parsed_view(parsed),
{
    match parsed {
        Ok(value) => Ok(value),
        Err(e) => Err(StoreError::ParseFailed { reason: error_text(&e) }),
    }
}

/// Reads the document `filename` from what was found under its path: a
/// missing file gives `FileNotFound` with the name, an unreadable one
/// `ReadFailed` with the system's reason, and a text gives the value that it
/// parses to, or `ParseFailed` with the codec's reason where it is not valid
/// JSON.
pub fn read_json_file(filename: &str, fetched: Fetched) -> (r: Result<
    serde_json::Value,
    StoreError,
>)
    ensures
        value_result_view(r) == read_outcome(filename@, fetched),
{
    match fetched {
        Fetched::Missing => Err(StoreError::FileNotFound { filename: String::from_str(filename) }),
        Fetched::Unreadable(reason) => Err(StoreError::ReadFailed { reason }),
        Fetched::Contents(text) => parsed_outcome(parse_text(text.as_str())),
    }
}

/// Reading a document back gives the value that was written, for every
/// value whose printed text the codec parses back to it: the write gives
/// that text, and a read of that text gives the value.
pub proof fn lemma_read_after_write(filename: Seq<char>, data: serde_json::Value, text: String)
    ensures
        (printed_json(data) == Ok::<Seq<char>, serde_json::Error>(text@) && parsed_json(text@)
            == Ok::<serde_json::Value, serde_json::Error>(data)) ==> (write_outcome(Ok(()), data)
            == Ok::<Seq<char>, StoreErrorView>(text@) && read_outcome(
            filename,
            Fetched::Contents(text),
        ) == Ok::<serde_json::Value, StoreErrorView>(data)),
{
}

} // verus!
