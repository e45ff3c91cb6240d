//! Decides whether a filesystem path names a hidden file.
//!
//! Three platform conventions are covered: the POSIX leading-dot naming
//! convention, the Windows per-file "hidden" attribute bit, and the Apple
//! per-file "user hidden" status flag. The decision logic itself is pure:
//! it works on the path's bytes and on metadata values that the caller
//! obtained from the operating system, so every rule in this crate is
//! stated and checked. Callers that sit next to the operating system
//! perform the metadata queries and hand the raw results in.

use vstd::prelude::*;

pub mod encoding;
pub mod laws;
pub mod pathname;

verus! {

use crate::encoding::{valid_utf8, is_valid_utf8};
use crate::pathname::{DOT, FsPath, spec_file_name};

/// The family of hidden-file rules in force on the host.
#[derive(Clone, Copy, Debug, PartialEq, Eq)]
pub enum Platform {
    /// Windows: a per-file attribute bitmask carries a "hidden" bit.
    Windows,
    /// Apple systems (macOS and its mobile and BSD relatives): a status
    /// flags field carries a "user hidden" bit, on top of the dot rule.
    Apple,
    /// Linux and other POSIX systems: the leading-dot rule alone decides.
    Posix,
    /// A platform with no defined hidden-file rule.
    Unknown,
}

/// Why a hidden-file check could not produce an answer.
#[derive(Clone, Copy, Debug, PartialEq, Eq)]
pub enum HiddenError {
    /// The path has no final component (a root or empty path).
    NoFileName,
    /// The path cannot be represented as the C string the OS call needs.
    Encoding,
    /// The OS metadata query failed; carries the native error code.
    Os(i32),
    /// The host platform has no defined hidden-file rule.
    UnsupportedPlatform,
}

/// What a check decided from the name alone, or which metadata query the
/// caller must still run against the operating system.
#[derive(Clone, Copy, Debug, PartialEq, Eq)]
pub enum Check {
    /// The answer is settled without touching the filesystem.
    Decided(bool),
    /// Windows only: fetch the file's attribute bitmask, then finish with
    /// `hidden_from_attributes`.
    NeedsAttributes,
    /// Apple only: fetch the file's status flags, then finish with
    /// `hidden_from_flags`.
    NeedsFlags,
}

/// The "hidden" bit in a Windows file-attribute bitmask
/// (`FILE_ATTRIBUTE_HIDDEN`).
pub const WINDOWS_HIDDEN_BIT: u32 = 0x2;

/// The sentinel a Windows attribute query returns on failure
/// (`INVALID_FILE_ATTRIBUTES`).
pub const ATTRIBUTES_UNAVAILABLE: u32 = 0xFFFF_FFFF;

/// The "user hidden" bit in an Apple `st_flags` field (`UF_HIDDEN`).
pub const APPLE_HIDDEN_BIT: u32 = 0x8000;

/// A file name marked hidden by the naming convention: it decodes as
/// text and its first character is `.`. A name that does not decode as
/// text never counts as dot-prefixed.
pub open spec fn dot_prefixed(name: Seq<u8>) -> bool {
    valid_utf8(name) && name.len() > 0 && name[0] == DOT
}

/// The bytes of `s` are free of NUL, so `s` can end a C string.
pub open spec fn has_no_nul(s: Seq<u8>) -> bool {
    forall|i: int| 0 <= i < s.len() ==> s[i] != 0
}

/// `s` can be handed to an OS call that takes a NUL-terminated text
/// path: it decodes as text and holds no NUL byte.
pub open spec fn c_representable(s: Seq<u8>) -> bool {
    valid_utf8(s) && has_no_nul(s)
}

/// What a check settles from the path and the platform alone, before
/// any metadata query: no final component is an input error; a
/// dot-prefixed final component is hidden on every platform; otherwise
/// the platform decides whether the answer is settled, a metadata query
/// is still owed, or no rule exists.
pub open spec fn spec_check(path: Seq<u8>, platform: Platform) -> Result<Check, HiddenError> {
    match spec_file_name(path, platform) {
        None => Err(HiddenError::NoFileName),
        Some(name) => if dot_prefixed(name) {
            Ok(Check::Decided(true))
        } else {
            match platform {
                Platform::Posix => Ok(Check::Decided(false)),
                Platform::Windows => if c_representable(path) {
                    Ok(Check::NeedsAttributes)
                } else {
                    Err(HiddenError::Encoding)
                },
                Platform::Apple => if c_representable(path) {
                    Ok(Check::NeedsFlags)
                } else {
                    Err(HiddenError::Encoding)
                },
                Platform::Unknown => Err(HiddenError::UnsupportedPlatform),
            }
        },
    }
}

/// Checks whether `name` is hidden by the naming convention: it decodes
/// as text and starts with `.`.
pub fn name_is_dot_prefixed(name: &[u8]) -> (r: bool)
    ensures
        r == dot_prefixed(name@),
{
    name.len() > 0 && name[0] == DOT && is_valid_utf8(name)
}

/// Checks that `bytes` holds no NUL byte.
fn no_nul(bytes: &[u8]) -> (r: bool)
    ensures
        r == has_no_nul(bytes@),
{
    let mut i: usize = 0;
    while i < bytes.len()
        invariant
            i <= bytes@.len(),
            forall|k: int| 0 <= k < i ==> bytes@[k] != 0,
        decreases bytes@.len() - i,
    {
        if bytes[i] == 0 {
            return false;
        }
        i = i + 1;
    }
    true
}

/// Checks that `bytes` can be handed to an OS call that takes a
/// NUL-terminated text path.
pub fn path_is_c_representable(bytes: &[u8]) -> (r: bool)
    ensures
        r == c_representable(bytes@),
{
    is_valid_utf8(bytes) && no_nul(bytes)
}

/// Runs the part of the hidden-file check that needs no filesystem
/// access: validates that the path has a final component, applies the
/// naming convention on every platform, and then either settles the
/// answer or names the metadata query the caller must still run.
pub fn hidden_check(path: &FsPath, platform: Platform) -> (r: Result<Check, HiddenError>)
    ensures
        r == spec_check(path@, platform),
{
    match path.file_name(platform) {
        None => Err(HiddenError::NoFileName),
        Some(name) => {
            if name_is_dot_prefixed(name.as_slice()) {
                Ok(Check::Decided(true))
            } else {
                match platform {
                    Platform::Posix => Ok(Check::Decided(false)),
                    Platform::Windows => {
                        if path_is_c_representable(path.as_bytes()) {
                            Ok(Check::NeedsAttributes)
                        } else {
                            Err(HiddenError::Encoding)
                        }
                    },
                    Platform::Apple => {
                        if path_is_c_representable(path.as_bytes()) {
                            Ok(Check::NeedsFlags)
                        } else {
                            Err(HiddenError::Encoding)
                        }
                    },
                    Platform::Unknown => Err(HiddenError::UnsupportedPlatform),
                }
            }
        },
    }
}

/// The verdict owed once a Windows attribute query has run: the query's
/// sentinel means failure with the accompanying native error code, and
/// otherwise the hidden bit of the bitmask decides.
pub open spec fn spec_hidden_from_attributes(attributes: u32, error_code: i32) -> Result<
    bool,
    HiddenError,
> {
    if attributes == ATTRIBUTES_UNAVAILABLE {
        Err(HiddenError::Os(error_code))
    } else {
        Ok(attributes & WINDOWS_HIDDEN_BIT != 0)
    }
}

/// The verdict owed once an Apple status query has run: a nonzero return
/// code means failure with the accompanying native error code, and
/// otherwise the hidden bit of the flags field decides.
pub open spec fn spec_hidden_from_flags(return_code: i32, flags: u32, error_code: i32) -> Result<
    bool,
    HiddenError,
> {
    if return_code != 0 {
        Err(HiddenError::Os(error_code))
    } else {
        Ok(flags & APPLE_HIDDEN_BIT != 0)
    }
}

/// Finishes a Windows check from the queried attribute bitmask.
///
/// `attributes` is the bitmask the OS returned, or the sentinel
/// `ATTRIBUTES_UNAVAILABLE` if the query failed; `error_code` is the
/// native error code that accompanied a failure.
pub fn hidden_from_attributes(attributes: u32, error_code: i32) -> (r: Result<bool, HiddenError>)
    ensures
        r == spec_hidden_from_attributes(attributes, error_code),
{
    if attributes == ATTRIBUTES_UNAVAILABLE {
        Err(HiddenError::Os(error_code))
    } else {
        Ok(attributes & WINDOWS_HIDDEN_BIT != 0)
    }
}

/// Finishes an Apple check from the queried status flags.
///
/// `return_code` is the status call's return value (zero on success),
/// `flags` the file's status flags field, and `error_code` the native
/// error code that accompanied a failure.
pub fn hidden_from_flags(return_code: i32, flags: u32, error_code: i32) -> (r: Result<
    bool,
    HiddenError,
>)
    ensures
        r == spec_hidden_from_flags(return_code, flags, error_code),
{
    if return_code != 0 {
        Err(HiddenError::Os(error_code))
    } else {
        Ok(flags & APPLE_HIDDEN_BIT != 0)
    }
}

} // verus!
