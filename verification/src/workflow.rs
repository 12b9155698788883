//! The decisions of the three backend operations: metadata assembly with its
//! fallback fields, the error taxonomy, and the degrade-gracefully policy for
//! persisting a cover.
//!
//! Every function here is pure decision logic: callers observe the world
//! (does the file exist, what did the parser yield, how did the save go) and
//! hand those observations in as plain values.

use vstd::prelude::*;
use vstd::string::StringExecFns;

use crate::encoding::b64_encoded_len;
use crate::encoding::cover_data_uri;
use crate::encoding::data_uri_spec;
use crate::paths::books_dir;
use crate::paths::books_dir_spec;
use crate::paths::cover_path_in;
use crate::paths::cover_path_spec;

verus! {

/// Bibliographic metadata extracted from one book file.
#[derive(Debug)]
pub struct EpubMetadata {
    pub title: String,
    pub author: String,
    pub cover: Option<String>,
}

/// Why an operation failed.
#[derive(Debug, PartialEq, Eq)]
pub enum BookError {
    /// A referenced file or directory does not exist at call time.
    NotFound,
    /// The parsing library rejected the container; carries its diagnostic.
    ParseError(String),
    /// Directory creation or a file read/write failed at the operating-system
    /// level; carries the system's diagnostic.
    IoError(String),
    /// The hosting environment could not supply an application data root.
    ConfigError,
}

/// The fields read from an opened book container, each absent when the
/// container does not carry it.
pub struct ParsedBook {
    pub title: Option<String>,
    pub author: Option<String>,
    pub cover: Option<Vec<u8>>,
}

/// Gate shared by every operation that takes a file path: a missing file is
/// `NotFound` before anything else is tried.
pub fn require_file_exists(file_exists: bool) -> (r: Result<(), BookError>)
    ensures
        r is Ok <==> file_exists,
        !file_exists ==> r == Err::<(), BookError>(BookError::NotFound),
{
    if file_exists {
        Ok(())
    } else {
        Err(BookError::NotFound)
    }
}

/// The open step: the fields read from the container pass through; a parser
/// rejection fails the operation with the parser's diagnostic.
pub fn parsed_or_error(parsed: Result<ParsedBook, String>) -> (r: Result<ParsedBook, BookError>)
    ensures
        parsed matches Ok(p) ==> r == Ok::<ParsedBook, BookError>(p),
        parsed matches Err(m) ==> r == Err::<ParsedBook, BookError>(BookError::ParseError(m)),
{
    match parsed {
        Ok(p) => Ok(p),
        Err(m) => Err(BookError::ParseError(m)),
    }
}

/// Substitutes the documented fallback when the book carries no title field.
pub fn title_or_default(title: Option<String>) -> (r: String)
    ensures
        title matches Some(t) ==> r@ == t@,
        title is None ==> r@ == "Unknown Title"@,
{
    match title {
        Some(t) => t,
        None => String::from_str("Unknown Title"),
    }
}

/// Substitutes the documented fallback when the book carries no creator
/// field.
pub fn author_or_default(author: Option<String>) -> (r: String)
    ensures
        author matches Some(a) ==> r@ == a@,
        author is None ==> r@ == "Unknown Author"@,
{
    match author {
        Some(a) => a,
        None => String::from_str("Unknown Author"),
    }
}

/// Assembles the returned metadata: absent title or author fields take the
/// documented fallbacks; the decided cover field passes through unchanged.
pub fn build_metadata(title: Option<String>, author: Option<String>, cover: Option<String>) -> (r:
    EpubMetadata)
    ensures
        title matches Some(t) ==> r.title@ == t@,
        title is None ==> r.title@ == "Unknown Title"@,
        author matches Some(a) ==> r.author@ == a@,
        author is None ==> r.author@ == "Unknown Author"@,
        r.cover == cover,
{
    EpubMetadata { title: title_or_default(title), author: author_or_default(author), cover }
}

/// Resolves the covers directory from the environment's application data
/// root; an environment that cannot supply one is a configuration failure.
pub fn resolve_books_dir(app_data_root: Option<String>) -> (r: Result<String, BookError>)
    ensures
        app_data_root matches Some(root) ==> (r matches Ok(d) && d@ == books_dir_spec(root@)),
        app_data_root is None ==> r == Err::<String, BookError>(BookError::ConfigError),
{
    match app_data_root {
        Some(root) => Ok(books_dir(root.as_str())),
        None => Err(BookError::ConfigError),
    }
}

/// Pre-flight check of the storage directory: the resolved path is returned
/// only when the directory already exists; this decision never creates it.
pub fn storage_check(path: String, dir_exists: bool) -> (r: Result<String, BookError>)
    ensures
        dir_exists ==> r == Ok::<String, BookError>(path),
        !dir_exists ==> r == Err::<String, BookError>(BookError::NotFound),
{
    if dir_exists {
        Ok(path)
    } else {
        Err(BookError::NotFound)
    }
}

/// What an extraction must do about the cover of the container: nothing, or
/// persist it at the planned location.
pub enum CoverPlan {
    /// The container carries no cover; nothing is written.
    NoCover,
    /// Persist the cover bytes: make sure `dir` exists, then write them to
    /// the file at `path`.
    Save { dir: String, path: String },
}

/// A successful plan for a present cover: save it under the covers directory
/// of `root`, at the path the book id determines.
pub open spec fn planned_save(
    r: Result<CoverPlan, BookError>,
    root: Seq<char>,
    file_path: Seq<char>,
) -> bool {
    r matches Ok(p) && p matches CoverPlan::Save { dir, path } && dir@ == books_dir_spec(root)
        && path@ == cover_path_spec(books_dir_spec(root), file_path)
}

/// Plans the cover save. The environment is consulted only when the container
/// carries a cover, so a missing application data root fails only extractions
/// that found one.
pub fn plan_cover_save(has_cover: bool, app_data_root: Option<String>, file_path: &str) -> (r:
    Result<CoverPlan, BookError>)
    ensures
        !has_cover ==> r == Ok::<CoverPlan, BookError>(CoverPlan::NoCover),
        has_cover && app_data_root is None ==> r == Err::<CoverPlan, BookError>(
            BookError::ConfigError,
        ),
        app_data_root matches Some(root) ==> (has_cover ==> planned_save(r, root@, file_path@)),
{
    if !has_cover {
        return Ok(CoverPlan::NoCover);
    }
    match app_data_root {
        None => Err(BookError::ConfigError),
        Some(root) => {
            let dir = books_dir(root.as_str());
            let path = cover_path_in(dir.as_str(), file_path);
            Ok(CoverPlan::Save { dir, path })
        },
    }
}

/// How the attempt to persist a cover ended.
pub enum CoverSaveOutcome {
    /// The `books` directory could not be created; carries the operating
    /// system's diagnostic.
    DirCreateFailed(String),
    /// The cover file could not be created.
    FileCreateFailed,
    /// The cover file was created, but writing the bytes into it failed.
    WriteFailed,
    /// The bytes were written.
    Written,
}

/// The documented policy for a cover that was found in the container: a
/// directory-creation failure is fatal; a failure to create or write the
/// cover file silently drops the cover (metadata stays useful without it);
/// after a successful write the cover is returned inline, encoded from the
/// in-memory bytes.
pub fn cover_field_after_save(bytes: &Vec<u8>, outcome: CoverSaveOutcome) -> (r: Result<
    Option<String>,
    BookError,
>)
    requires
        b64_encoded_len(bytes@.len()) <= usize::MAX,
    ensures
        outcome matches CoverSaveOutcome::DirCreateFailed(m) ==> r == Err::<
            Option<String>,
            BookError,
        >(BookError::IoError(m)),
        outcome is FileCreateFailed ==> r == Ok::<Option<String>, BookError>(None),
        outcome is WriteFailed ==> r == Ok::<Option<String>, BookError>(None),
        outcome is Written ==> (r matches Ok(c) && c matches Some(u) && u@ == data_uri_spec(
            bytes@,
        )),
{
    match outcome {
        CoverSaveOutcome::DirCreateFailed(m) => Err(BookError::IoError(m)),
        CoverSaveOutcome::FileCreateFailed => Ok(None),
        CoverSaveOutcome::WriteFailed => Ok(None),
        CoverSaveOutcome::Written => Ok(Some(cover_data_uri(bytes))),
    }
}

/// The read-cover step: bytes read from an existing cover file become the
/// inline data URI; a failed read is an I/O failure with the system's
/// diagnostic.
pub fn cover_uri_from_read(read: Result<Vec<u8>, String>) -> (r: Result<String, BookError>)
    requires
        read matches Ok(b) ==> b64_encoded_len(b@.len()) <= usize::MAX,
    ensures
        read matches Ok(b) ==> (r matches Ok(u) && u@ == data_uri_spec(b@)),
        read matches Err(m) ==> r == Err::<String, BookError>(BookError::IoError(m)),
{
    match read {
        Ok(bytes) => Ok(cover_data_uri(&bytes)),
        Err(m) => Err(BookError::IoError(m)),
    }
}

/// The read-content step: the file's bytes are handed back unmodified; a
/// failed read is an I/O failure with the system's diagnostic.
pub fn content_from_read(read: Result<Vec<u8>, String>) -> (r: Result<Vec<u8>, BookError>)
    ensures
        read matches Ok(b) ==> r == Ok::<Vec<u8>, BookError>(b),
        read matches Err(m) ==> r == Err::<Vec<u8>, BookError>(BookError::IoError(m)),
{
    match read {
        Ok(bytes) => Ok(bytes),
        Err(m) => Err(BookError::IoError(m)),
    }
}

} // verus!
