//! Permissions of the operating system.

use vstd::prelude::*;
use vstd::string::StringExecFns;

use crate::commands::{fails_with, CommandError};

verus! {

/// Which permissions the application holds.
#[derive(Debug, Clone, Copy, PartialEq, Eq, Structural)]
pub struct PermissionStatus {
    pub microphone: bool,
    pub accessibility: bool,
}

/// A permission that the application can ask for.
#[derive(Debug, Clone, Copy, PartialEq, Eq, Structural)]
pub enum PermissionKind {
    Microphone,
    Accessibility,
}

/// Tell which permission a request names.
pub fn permission_kind(permission_type: &str) -> (result: Result<PermissionKind, CommandError>)
    ensures
        permission_type@ == "microphone"@ ==> result == Ok::<PermissionKind, CommandError>(
            PermissionKind::Microphone,
        ),
        permission_type@ != "microphone"@ && permission_type@ == "accessibility"@ ==> result
            == Ok::<PermissionKind, CommandError>(PermissionKind::Accessibility),
        permission_type@ != "microphone"@ && permission_type@ != "accessibility"@ ==> fails_with(
            result,
            "InvalidPermissionType"@,
            "Unknown permission type: "@ + permission_type@,
        ),
{
    let requested = String::from_str(permission_type);
    if requested == String::from_str("microphone") {
        Ok(PermissionKind::Microphone)
    } else if requested == String::from_str("accessibility") {
        Ok(PermissionKind::Accessibility)
    } else {
        let mut message = String::from_str("Unknown permission type: ");
        message.append(permission_type);
        Err(CommandError::new("InvalidPermissionType", message.as_str()))
    }
}

} // verus!
