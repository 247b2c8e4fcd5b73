//! Decisions of the platform clipboard-history policy toggle.
//!
//! The registry reads and writes, and the process-token elevation query,
//! are the host's; the rules they follow stand here: the toggle demands
//! elevation, disabling writes the policy value 0 and enabling writes 1,
//! and the shortcut counts as disabled exactly when the stored value is
//! 0, with a missing key or value meaning not disabled.

use vstd::prelude::*;

verus! {

/// The policy toggle was refused.
#[derive(Clone, Copy, Debug, PartialEq, Eq, Structural)]
pub enum PolicyError {
    NotElevated,
}

/// Combines the elevation query's outcome: the process is elevated
/// exactly when the token query succeeded and reported a nonzero
/// elevation flag.
pub fn elevation_from(query_ok: bool, token_is_elevated: u32) -> (r: bool)
    ensures
        r == (query_ok && token_is_elevated != 0),
{
    query_ok && token_is_elevated != 0
}

/// The registry value that a policy update writes: 0 disables the
/// clipboard-history shortcut, 1 allows it.
pub fn policy_value_for(disable: bool) -> (r: u32)
    ensures
        r == (if disable {
            0u32
        } else {
            1u32
        }),
{
    if disable {
        0
    } else {
        1
    }
}

/// Gates a policy update on elevation: without administrator privileges
/// the update is refused and nothing is written; with them, the value to
/// write is returned.
pub fn policy_update_decision(elevated: bool, disable: bool) -> (r: Result<u32, PolicyError>)
    ensures
        !elevated ==> r == Err::<u32, PolicyError>(PolicyError::NotElevated),
        elevated ==> r == Ok::<u32, PolicyError>(
            if disable {
                0u32
            } else {
                1u32
            },
        ),
{
    if !elevated {
        Err(PolicyError::NotElevated)
    } else {
        Ok(policy_value_for(disable))
    }
}

/// Reads the stored policy back: the shortcut is disabled exactly when
/// the value is present and 0; a missing key or value, passed as `None`,
/// means not disabled.
pub fn shortcut_disabled_from(value: Option<u32>) -> (r: bool)
    ensures
        r == (value == Some(0u32)),
{
    match value {
        Some(v) => v == 0,
        None => false,
    }
}

} // verus!
