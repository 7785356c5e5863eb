//! What is asked of a file that holds a secret.

use vstd::prelude::*;
use vstd::string::*;
use crate::error::Error;
use crate::text::{octal_text, push_octal};

verus! {

/// The permission bits of a file's mode.
pub const PERMISSION_MASK: u32 = 0o7777;

/// The only permissions that a secret's file may have: its owner reads and
/// writes it, nobody else does anything.
pub const OWNER_ONLY: u32 = 0o600;

/// Checks what the file system says of the file at `path`: that it is a
/// regular file, and that its mode gives it to its owner alone. A failure
/// names the path, and the permissions it found, in octal.
pub fn validate_file_permissions(path: &str, is_file: bool, mode: u32) -> (outcome: Result<
    (),
    Error,
>)
    ensures
        !is_file ==> (outcome matches Err(Error::Security(reason)) && reason@
            == "Path is not a file: "@ + path@),
        is_file && mode & PERMISSION_MASK != OWNER_ONLY ==> (outcome matches Err(
            Error::Security(reason),
        ) && reason@ == "Insecure permissions for "@ + path@ + ": "@ + octal_text(
            (mode & PERMISSION_MASK) as nat,
        )),
        is_file && mode & PERMISSION_MASK == OWNER_ONLY ==> outcome is Ok,
{
    if !is_file {
        let mut reason = String::from_str("Path is not a file: ");
        reason.append(path);
        return Err(Error::Security(reason));
    }
    let permissions = mode & PERMISSION_MASK;
    if permissions != OWNER_ONLY {
        let mut reason = String::from_str("Insecure permissions for ");
        reason.append(path);
        reason.append(": ");
        push_octal(&mut reason, permissions as u64);
        return Err(Error::Security(reason));
    }
    Ok(())
}

} // verus!
