//! The guarantees of the hidden-file check, stated on their own.
//!
//! Each lemma here states one rule of the check over the same
//! specification functions that the executable functions' contracts use,
//! so the rules can be read without following the dispatch case by case.

use vstd::prelude::*;

use crate::{
    c_representable,
    dot_prefixed,
    spec_check,
    spec_hidden_from_attributes,
    spec_hidden_from_flags,
    Check,
    HiddenError,
    Platform,
    APPLE_HIDDEN_BIT,
    ATTRIBUTES_UNAVAILABLE,
    WINDOWS_HIDDEN_BIT,
};
use crate::pathname::spec_file_name;

verus! {

/// A path whose final component is dot-prefixed is hidden on every
/// platform, settled from the name alone: no metadata query is asked
/// for, so the path need not exist on disk.
pub proof fn lemma_dot_prefix_is_hidden(path: Seq<u8>, platform: Platform)
    requires
        spec_file_name(path, platform) matches Some(name) && dot_prefixed(name),
    ensures
        spec_check(path, platform) == Ok::<Check, HiddenError>(Check::Decided(true)),
{
}

/// A path with no final component is rejected as invalid input on every
/// platform, never with an OS error: no metadata query is asked for.
pub proof fn lemma_no_file_name_is_input_error(path: Seq<u8>, platform: Platform)
    requires
        spec_file_name(path, platform) is None,
    ensures
        spec_check(path, platform) == Err::<Check, HiddenError>(HiddenError::NoFileName),
{
}

/// The Windows rule: for a path whose final component is not
/// dot-prefixed, the check asks for the attribute query, and once that
/// query has succeeded the hidden attribute bit alone decides.
pub proof fn lemma_windows_attribute_rule(path: Seq<u8>, attributes: u32, error_code: i32)
    requires
        spec_file_name(path, Platform::Windows) matches Some(name) && !dot_prefixed(name),
        c_representable(path),
        attributes != ATTRIBUTES_UNAVAILABLE,
    ensures
        spec_check(path, Platform::Windows) == Ok::<Check, HiddenError>(Check::NeedsAttributes),
        attributes & WINDOWS_HIDDEN_BIT != 0 ==> spec_hidden_from_attributes(
            attributes,
            error_code,
        ) == Ok::<bool, HiddenError>(true),
        attributes & WINDOWS_HIDDEN_BIT == 0 ==> spec_hidden_from_attributes(
            attributes,
            error_code,
        ) == Ok::<bool, HiddenError>(false),
{
}

/// The Apple rule: a dot-prefixed name is hidden before any status query
/// runs; for a name that is not dot-prefixed the check asks for the
/// status query, and once that query has succeeded the hidden flag bit
/// alone decides.
pub proof fn lemma_apple_flag_rule(path: Seq<u8>, flags: u32, error_code: i32)
    ensures
        spec_file_name(path, Platform::Apple) matches Some(name) && dot_prefixed(name)
            ==> spec_check(
            path,
            Platform::Apple,
        ) == Ok::<Check, HiddenError>(Check::Decided(true)),
        (spec_file_name(path, Platform::Apple) matches Some(name) && !dot_prefixed(name)
            && c_representable(path))
            ==> spec_check(path, Platform::Apple) == Ok::<Check, HiddenError>(Check::NeedsFlags),
        flags & APPLE_HIDDEN_BIT != 0 ==> spec_hidden_from_flags(0, flags, error_code) == Ok::<
            bool,
            HiddenError,
        >(true),
        flags & APPLE_HIDDEN_BIT == 0 ==> spec_hidden_from_flags(0, flags, error_code) == Ok::<
            bool,
            HiddenError,
        >(false),
{
}

/// The POSIX rule is complete without the filesystem: for every path the
/// check either rejects the input or settles the answer by the naming
/// convention alone, and the answer is exactly whether the final
/// component is dot-prefixed.
pub proof fn lemma_posix_needs_no_metadata(path: Seq<u8>)
    ensures
        spec_check(path, Platform::Posix) == (match spec_file_name(path, Platform::Posix) {
            None => Err::<Check, HiddenError>(HiddenError::NoFileName),
            Some(name) => Ok::<Check, HiddenError>(Check::Decided(dot_prefixed(name))),
        }),
{
}

/// The check is deterministic, so running it twice on the same
/// unchanged path gives the same result: `hidden_check` promises its
/// result equals `spec_check` on its inputs, so any two results that
/// meet that contract on the same inputs are the same. The finishing
/// steps `hidden_from_attributes` and `hidden_from_flags` are pinned to
/// their own specification functions in the same way.
pub proof fn lemma_check_deterministic(
    path: Seq<u8>,
    platform: Platform,
    first: Result<Check, HiddenError>,
    second: Result<Check, HiddenError>,
)
    requires
        first == spec_check(path, platform),
        second == spec_check(path, platform),
    ensures
        first == second,
{
}

/// Only the Windows and Apple rules ever ask for a metadata query, and
/// only for a path that the OS call can take; on the other platforms the
/// check is settled or rejected from the path alone.
pub proof fn lemma_query_only_when_owed(path: Seq<u8>, platform: Platform)
    ensures
        spec_check(path, platform) == Ok::<Check, HiddenError>(Check::NeedsAttributes) ==> (
        platform == Platform::Windows && c_representable(path)),
        spec_check(path, platform) == Ok::<Check, HiddenError>(Check::NeedsFlags) ==> (platform
            == Platform::Apple && c_representable(path)),
{
}

} // verus!
