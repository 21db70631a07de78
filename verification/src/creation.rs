//! Why the creation of the FIFO was refused, told from the error number that
//! the system gave.

use vstd::prelude::*;

verus! {

/// The refusals that are told apart.
#[derive(Debug, Clone, Copy, PartialEq, Eq)]
pub enum CreateErrorKind {
    /// A directory in the path did not allow search.
    PermissionDenied,
    /// The user's quota of disk blocks or inodes is exhausted.
    QuotaExceeded,
    /// The path exists already.
    AlreadyExists,
    /// The path or one of its components is too long.
    NameTooLong,
    /// A directory in the path does not exist.
    MissingParent,
    /// The directory or file system has no room for the new file.
    NoSpace,
    /// A component used as a directory in the path is no directory.
    NotADirectory,
    /// The path is on a read-only file system.
    ReadOnlyFilesystem,
    /// Any other error.
    Unknown,
}

/// The error numbers that stand for each refusal on a platform.
#[derive(Debug, Clone, Copy, PartialEq, Eq)]
pub struct ErrnoCodes {
    pub permission_denied: i32,
    pub quota_exceeded: i32,
    pub already_exists: i32,
    pub name_too_long: i32,
    pub missing_parent: i32,
    pub no_space: i32,
    pub not_a_directory: i32,
    pub read_only_filesystem: i32,
}

/// The refusal that `errno` stands for under `codes`: the first in the order
/// of the kinds whose number it is, and `Unknown` where it is none of them.
pub open spec fn classify_spec(errno: i32, codes: ErrnoCodes) -> CreateErrorKind {
    if errno == codes.permission_denied {
        CreateErrorKind::PermissionDenied
    } else if errno == codes.quota_exceeded {
        CreateErrorKind::QuotaExceeded
    } else if errno == codes.already_exists {
        CreateErrorKind::AlreadyExists
    } else if errno == codes.name_too_long {
        CreateErrorKind::NameTooLong
    } else if errno == codes.missing_parent {
        CreateErrorKind::MissingParent
    } else if errno == codes.no_space {
        CreateErrorKind::NoSpace
    } else if errno == codes.not_a_directory {
        CreateErrorKind::NotADirectory
    } else if errno == codes.read_only_filesystem {
        CreateErrorKind::ReadOnlyFilesystem
    } else {
        CreateErrorKind::Unknown
    }
}

/// The constants `EACCES`, `EDQUOT`, `EEXIST`, `ENAMETOOLONG`, `ENOENT`,
/// `ENOSPC`, `ENOTDIR` and `EROFS` of the `libc` crate. Their values differ
/// from platform to platform, so nothing is claimed of them.
#[verifier::external_body]
fn platform_codes() -> (codes: ErrnoCodes) {
    ErrnoCodes {
        permission_denied: libc::EACCES,
        quota_exceeded: libc::EDQUOT,
        already_exists: libc::EEXIST,
        name_too_long: libc::ENAMETOOLONG,
        missing_parent: libc::ENOENT,
        no_space: libc::ENOSPC,
        not_a_directory: libc::ENOTDIR,
        read_only_filesystem: libc::EROFS,
    }
}

/// Tells the refusal that `errno` stands for under the given error numbers.
pub fn classify_errno(errno: i32, codes: &ErrnoCodes) -> (kind: CreateErrorKind)
    ensures
        kind == classify_spec(errno, *codes),
{
    if errno == codes.permission_denied {
        CreateErrorKind::PermissionDenied
    } else if errno == codes.quota_exceeded {
        CreateErrorKind::QuotaExceeded
    } else if errno == codes.already_exists {
        CreateErrorKind::AlreadyExists
    } else if errno == codes.name_too_long {
        CreateErrorKind::NameTooLong
    } else if errno == codes.missing_parent {
        CreateErrorKind::MissingParent
    } else if errno == codes.no_space {
        CreateErrorKind::NoSpace
    } else if errno == codes.not_a_directory {
        CreateErrorKind::NotADirectory
    } else if errno == codes.read_only_filesystem {
        CreateErrorKind::ReadOnlyFilesystem
    } else {
        CreateErrorKind::Unknown
    }
}

/// Tells the refusal that `errno` stands for on this platform.
pub fn classify_create_error(errno: i32) -> (kind: CreateErrorKind)
    ensures
        exists|codes: ErrnoCodes| kind == classify_spec(errno, codes),
{
    let codes = platform_codes();
    classify_errno(errno, &codes)
}

} // verus!
