//! The checks and errors of reading and writing `.bpmn` files; the file
//! system itself is reached only by the application.
use vstd::prelude::*;
use super::xml_io::{XmlError, xml_error_text};
use crate::text::{concat2, concat3, opt_view, owned, str_eq};

verus! {

/// Errors of BPMN file operations.
#[derive(Debug, Clone)]
pub enum FileError {
    /// The file does not exist.
    NotFound(String),
    /// The directory does not exist.
    DirectoryNotFound(String),
    /// The file does not have the `.bpmn` extension.
    InvalidExtension { path: String, expected: &'static str, found: String },
    /// Reading or writing failed.
    Io(String),
    /// The XML could not be read or written.
    Xml(String),
    /// The file exists and may not be replaced.
    AlreadyExists(String),
    /// Access was refused.
    PermissionDenied(String),
}

/// The message of a file error.
pub open spec fn file_error_text(e: FileError) -> Seq<char> {
    match e {
        FileError::NotFound(p) => "File not found: "@ + p@,
        FileError::DirectoryNotFound(p) => "Directory not found: "@ + p@,
        FileError::InvalidExtension { path, expected, found } => "Invalid file extension for "@ + path@
            + ": expected "@ + expected@ + ", found "@ + found@,
        FileError::Io(m) => "IO error: "@ + m@,
        FileError::Xml(m) => "XML error: "@ + m@,
        FileError::AlreadyExists(p) => "File already exists: "@ + p@,
        FileError::PermissionDenied(p) => "Permission denied: "@ + p@,
    }
}

impl FileError {
    /// The message of this error.
    pub fn to_string(&self) -> (s: String)
        ensures
            s@ == file_error_text(*self),
    {
        match self {
            FileError::NotFound(p) => concat2("File not found: ", p.as_str()),
            FileError::DirectoryNotFound(p) => concat2("Directory not found: ", p.as_str()),
            FileError::InvalidExtension { path, expected, found } => {
                let mut s = concat3("Invalid file extension for ", path.as_str(), ": expected ");
                s.append(expected);
                s.append(", found ");
                s.append(found.as_str());
                s
            },
            FileError::Io(m) => concat2("IO error: ", m.as_str()),
            FileError::Xml(m) => concat2("XML error: ", m.as_str()),
            FileError::AlreadyExists(p) => concat2("File already exists: ", p.as_str()),
            FileError::PermissionDenied(p) => concat2("Permission denied: ", p.as_str()),
        }
    }

    /// The file error that stands for an XML error: its message, as an XML error.
    pub fn from_xml(err: XmlError) -> (r: Self)
        ensures
            r matches FileError::Xml(m) && m@ == xml_error_text(err),
    {
        FileError::Xml(err.to_string())
    }
}

/// The result of a file operation.
pub type FileResult<T> = Result<T, FileError>;

/// How files are written.
#[derive(Debug, Clone)]
pub struct FileOptions {
    /// Copy an existing file aside before replacing it.
    pub create_backup: bool,
    /// Appended to `.bpmn` to name the copy.
    pub backup_extension: String,
    /// Refuse to replace an existing file.
    pub fail_if_exists: bool,
    pub pretty_print: bool,
}

impl Default for FileOptions {
    fn default() -> (r: Self)
        ensures
            r.create_backup,
            r.backup_extension@ == ".bak"@,
            !r.fail_if_exists,
            r.pretty_print,
    {
        FileOptions { create_backup: true, backup_extension: owned(".bak"), fail_if_exists: false, pretty_print: true }
    }
}

/// The extension of the last component of `path`, as `std::path::Path::extension`
/// finds it (read lossily as text).
pub uninterp spec fn path_extension_name(path: Seq<char>) -> Option<Seq<char>>;

/// The extension of `path`, from `std::path::Path::extension` and
/// `OsStr::to_string_lossy`. Its value is named, not described.
#[verifier::external_body]
fn path_extension(path: &str) -> (r: Option<String>)
    ensures
        opt_view(r) == path_extension_name(path@),
{
    match std::path::Path::new(path).extension() {
        Some(e) => Some(e.to_string_lossy().into_owned()),
        None => None,
    }
}

/// BPMN file operations that need no file system.
pub struct BpmnFileIo;

impl BpmnFileIo {
    /// Check that `path` has the `.bpmn` extension.
    pub fn validate_extension(path: &str) -> (r: FileResult<()>)
        ensures
            ext_verdict_ok(path@, path_extension_name(path@), r),
    {
        let ext = path_extension(path);
        Self::extension_verdict(path, ext)
    }

    /// The verdict on `path` given its extension `ext`: fine when it is
    /// `bpmn`, else an invalid-extension error naming what was found.
    pub fn extension_verdict(path: &str, ext: Option<String>) -> (r: FileResult<()>)
        ensures
            ext_verdict_ok(path@, opt_view(ext), r),
    {
        match ext {
            Some(e) => {
                if str_eq(e.as_str(), "bpmn") {
                    Ok(())
                } else {
                    Err(FileError::InvalidExtension { path: owned(path), expected: ".bpmn", found: concat2(".", e.as_str()) })
                }
            },
            None => Err(
                FileError::InvalidExtension { path: owned(path), expected: ".bpmn", found: owned("(no extension)") },
            ),
        }
    }
}

/// `r` is the verdict on `path` with extension `ext`: `Ok` exactly for the
/// extension `bpmn`, else an invalid-extension error with the path, the
/// expected `.bpmn` and `.` and the extension found, or `(no extension)`.
pub open spec fn ext_verdict_ok(path: Seq<char>, ext: Option<Seq<char>>, r: FileResult<()>) -> bool {
    match ext {
        Some(e) => if e == "bpmn"@ {
            r is Ok
        } else {
            r matches Err(FileError::InvalidExtension { path: p, expected, found }) && p@ == path && expected@
                == ".bpmn"@ && found@ == "."@ + e
        },
        None => r matches Err(FileError::InvalidExtension { path: p, expected, found }) && p@ == path && expected@
            == ".bpmn"@ && found@ == "(no extension)"@,
    }
}

/// What saving a diagram to a file does, as decided from what the file
/// system shows.
#[derive(Debug, Clone)]
pub enum SavePlan {
    /// Write nothing and fail with this error.
    Refuse(FileError),
    /// Copy the existing file aside, then write.
    BackUpThenWrite,
    /// Write the file.
    Write,
}

/// The plan for saving to the file shown as `path` when the file does or
/// does not exist and its directory, shown as `missing_dir`, is missing:
/// refuse when the directory is missing, or when the file exists and may
/// not be replaced; back it up first when it exists and backups are made;
/// else write.
pub fn save_plan(path: &str, missing_dir: Option<&str>, file_exists: bool, options: &FileOptions) -> (r: SavePlan)
    ensures
        missing_dir matches Some(d) ==> (r matches SavePlan::Refuse(FileError::DirectoryNotFound(q)) && q@ == d@),
        missing_dir is None && file_exists && options.fail_if_exists ==> (r matches SavePlan::Refuse(
            FileError::AlreadyExists(q),
        ) && q@ == path@),
        missing_dir is None && file_exists && !options.fail_if_exists && options.create_backup
            ==> r is BackUpThenWrite,
        missing_dir is None && !(file_exists && (options.fail_if_exists || options.create_backup)) ==> r is Write,
{
    match missing_dir {
        Some(d) => SavePlan::Refuse(FileError::DirectoryNotFound(owned(d))),
        None => {
            if file_exists && options.fail_if_exists {
                SavePlan::Refuse(FileError::AlreadyExists(owned(path)))
            } else if file_exists && options.create_backup {
                SavePlan::BackUpThenWrite
            } else {
                SavePlan::Write
            }
        },
    }
}

} // verus!
