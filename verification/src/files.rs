//! The file probe: what kind of entry a path names, and the reasons a file
//! operation can fail for.

use std::collections::hash_map::DefaultHasher;
use std::hash::Hasher;
use std::path::PathBuf;
use vstd::prelude::*;
use vstd::std_specs::hash::DefaultHasherAdditionalSpecFns;
use vstd::string::*;

verus! {

/// `std::path::PathBuf`, carried through without looking inside.
#[verifier::external_type_specification]
#[verifier::external_body]
pub struct ExPathBuf(PathBuf);

/// What `lstat` says about a directory entry, as far as the probe cares.
#[derive(Clone, Copy, Debug, PartialEq, Eq)]
pub struct FileType {
    pub is_symlink: bool,
    pub is_dir: bool,
}

/// A file on the native file system, tagged with its kind.
#[derive(Debug, PartialEq, Eq)]
pub enum NativeFile {
    Symlink(PathBuf),
    Directory(PathBuf),
    Regular(PathBuf),
}

/// The kind of the entry at `path`, given the outcome of a stat that does not
/// follow symlinks. A symlink is reported as a symlink even when the flags
/// also call it a directory; no metadata means there is no such file.
pub open spec fn file_type_of(path: PathBuf, metadata: Option<FileType>) -> Option<NativeFile> {
    match metadata {
        None => None,
        Some(file_type) => Some(
            if file_type.is_symlink {
                NativeFile::Symlink(path)
            } else if file_type.is_dir {
                NativeFile::Directory(path)
            } else {
                NativeFile::Regular(path)
            },
        ),
    }
}

/// Get the type of a file, if it exists. `metadata` is `None` when the entry
/// could not be examined, for whatever reason.
pub fn get_file_type(path: PathBuf, metadata: Option<FileType>) -> (file: Option<NativeFile>)
    ensures
        file == file_type_of(path, metadata),
{
    match metadata {
        None => None,
        Some(file_type) => {
            if file_type.is_symlink {
                Some(NativeFile::Symlink(path))
            } else if file_type.is_dir {
                Some(NativeFile::Directory(path))
            } else {
                Some(NativeFile::Regular(path))
            }
        },
    }
}

/// A 64-bit hash read as a signed number in two's complement. The
/// configuration file has no unsigned 64-bit numbers, so the hash is stored
/// this way.
pub open spec fn as_signed(hash: u64) -> i64 {
    if hash <= i64::MAX {
        hash as i64
    } else {
        (hash - 0x1_0000_0000_0000_0000) as i64
    }
}

/// The fingerprint of a file with the given contents: the hash that the
/// standard library's default hasher gives to the contents written to it in
/// one piece, read as a signed number.
pub open spec fn fingerprint_of(contents: Seq<u8>) -> i64 {
    as_signed(DefaultHasher::spec_finish(seq![contents]))
}

/// Reading a hash as a signed number loses nothing: different hashes stay
/// different.
pub proof fn lemma_as_signed_is_injective(a: u64, b: u64)
    requires
        as_signed(a) == as_signed(b),
    ensures
        a == b,
{
}

/// The fingerprint depends on the contents alone: files that hold the same
/// bytes in the same order have the same fingerprint.
pub proof fn lemma_fingerprint_is_deterministic(a: Seq<u8>, b: Seq<u8>)
    requires
        a.len() == b.len(),
        forall|i: int| 0 <= i < a.len() ==> a[i] == b[i],
    ensures
        fingerprint_of(a) == fingerprint_of(b),
{
    assert(a =~= b);
}

/// Hashes `contents`. Collisions do no harm here: the fingerprint only serves
/// to notice that a file has changed.
pub fn fingerprint(contents: &[u8]) -> (hash: i64)
    ensures
        hash == fingerprint_of(contents@),
{
    let mut hasher = DefaultHasher::new();
    hasher.write(contents);
    let hash = hasher.finish();
    assert(hash as i64 == as_signed(hash)) by (bit_vector);
    hash as i64
}

/// A file operation, with the paths it was given as they are shown to the
/// user.
#[derive(Debug, PartialEq, Eq)]
pub enum FileOperation {
    Copy { from: String, to: String },
    CreateDirAll { path: String },
    RemoveDirAll { path: String },
    RemoveFile { path: String },
    Symlink { src: String, dst: String },
    Read { path: String },
}

/// A `FileOperation` as plain values.
pub enum FileOperationView {
    Copy { from: Seq<char>, to: Seq<char> },
    CreateDirAll { path: Seq<char> },
    RemoveDirAll { path: Seq<char> },
    RemoveFile { path: Seq<char> },
    Symlink { src: Seq<char>, dst: Seq<char> },
    Read { path: Seq<char> },
}

impl View for FileOperation {
    type V = FileOperationView;

    open spec fn view(&self) -> FileOperationView {
        match self {
            FileOperation::Copy { from, to } => FileOperationView::Copy { from: from@, to: to@ },
            FileOperation::CreateDirAll { path } => FileOperationView::CreateDirAll {
                path: path@,
            },
            FileOperation::RemoveDirAll { path } => FileOperationView::RemoveDirAll {
                path: path@,
            },
            FileOperation::RemoveFile { path } => FileOperationView::RemoveFile { path: path@ },
            FileOperation::Symlink { src, dst } => FileOperationView::Symlink {
                src: src@,
                dst: dst@,
            },
            FileOperation::Read { path } => FileOperationView::Read { path: path@ },
        }
    }
}

/// What the user reads when `operation` has failed: what was attempted, and
/// on which files.
pub open spec fn failure_message(operation: FileOperationView) -> Seq<char> {
    match operation {
        FileOperationView::Copy { from, to } => "Error copying '"@ + from + "' to '"@ + to + "'"@,
        FileOperationView::CreateDirAll { path } => "Error creating directories for '"@ + path
            + "'"@,
        FileOperationView::RemoveDirAll { path } => "Could not remove directory '"@ + path + "'"@,
        FileOperationView::RemoveFile { path } => "Could not remove '"@ + path + "'"@,
        FileOperationView::Symlink { src, dst } => "Error symlinking '"@ + src + "' to '"@ + dst
            + "'"@,
        FileOperationView::Read { path } => "Could not read contents of '"@ + path + "'"@,
    }
}

impl FileOperation {
    /// The message for a failure of this operation.
    pub fn failure_message(&self) -> (message: String)
        ensures
            message@ == failure_message(self@),
    {
        match self {
            FileOperation::Copy { from, to } => "Error copying '".to_owned().concat(
                from.as_str(),
            ).concat("' to '").concat(to.as_str()).concat("'"),
            FileOperation::CreateDirAll { path } => "Error creating directories for '".to_owned()
                .concat(path.as_str()).concat("'"),
            FileOperation::RemoveDirAll { path } => "Could not remove directory '".to_owned()
                .concat(path.as_str()).concat("'"),
            FileOperation::RemoveFile { path } => "Could not remove '".to_owned().concat(
                path.as_str(),
            ).concat("'"),
            FileOperation::Symlink { src, dst } => "Error symlinking '".to_owned().concat(
                src.as_str(),
            ).concat("' to '").concat(dst.as_str()).concat("'"),
            FileOperation::Read { path } => "Could not read contents of '".to_owned().concat(
                path.as_str(),
            ).concat("'"),
        }
    }
}

/// A file operation that failed, and what the system gave as the reason:
/// its error as it came, or the text of it.
#[derive(Debug, PartialEq, Eq)]
pub struct FileError<E> {
    pub operation: FileOperation,
    pub cause: E,
}

/// A `FileError` with the reason in words, as plain values.
pub struct FileErrorView {
    pub operation: FileOperationView,
    pub cause: Seq<char>,
}

impl View for FileError<String> {
    type V = FileErrorView;

    open spec fn view(&self) -> FileErrorView {
        FileErrorView { operation: self.operation@, cause: self.cause@ }
    }
}

/// Names the operation in the error of `outcome`. A failure is never
/// swallowed here, and a success is handed on as it is.
pub fn in_context<T, E>(operation: FileOperation, outcome: Result<T, E>) -> (result: Result<
    T,
    FileError<E>,
>)
    ensures
        match outcome {
            Ok(value) => result == Ok::<T, FileError<E>>(value),
            Err(cause) => result == Err::<T, FileError<E>>(FileError { operation, cause }),
        },
{
    match outcome {
        Ok(value) => Ok(value),
        Err(cause) => Err(FileError { operation, cause }),
    }
}

/// Hash the contents of a file as an `i64`. `contents` is what reading all of
/// the file at `path` gave: its bytes, or the reason it could not be read.
pub fn hash_file<E>(path: &str, contents: Result<Vec<u8>, E>) -> (hash: Result<i64, FileError<E>>)
    ensures
        match hash {
            Ok(hash) => contents is Ok && hash == fingerprint_of(contents->Ok_0@),
            Err(error) => {
                &&& contents is Err
                &&& error.operation@ == (FileOperationView::Read { path: path@ })
                &&& error.cause == contents->Err_0
            },
        },
{
    match contents {
        Ok(bytes) => Ok(fingerprint(bytes.as_slice())),
        Err(cause) => Err(FileError { operation: FileOperation::Read { path: path.to_owned() }, cause }),
    }
}

} // verus!
