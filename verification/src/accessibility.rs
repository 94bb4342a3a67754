//! The boundary to a desktop accessibility service: the values that cross it
//! and the operations that a backend offers.

use vstd::prelude::*;

verus! {

/// Whether the accessibility service may be used.
#[derive(Debug, Clone, Copy, PartialEq, Eq, Structural)]
pub enum AccessibilityPermission {
    Granted,
    Denied,
    Unknown,
}

/// The element that holds the keyboard focus.
#[derive(Debug, Clone, PartialEq, Eq)]
pub struct FocusedElement {
    pub application: String,
    pub role: String,
    pub identifier: Option<String>,
    pub title: Option<String>,
    pub editable: bool,
}

/// A failure of the accessibility service.
#[derive(Debug, Clone, PartialEq, Eq)]
pub enum AccessibilityError {
    PermissionDenied,
    NoEditableElement,
    NotImplemented,
    Backend(String),
}

/// The text that describes an accessibility error.
pub open spec fn accessibility_error_message(e: AccessibilityError) -> Seq<char> {
    match e {
        AccessibilityError::PermissionDenied => "macOS Accessibility permission is required"@,
        AccessibilityError::NoEditableElement => "no editable element is focused"@,
        AccessibilityError::NotImplemented => "accessibility operation is not implemented yet"@,
        AccessibilityError::Backend(b) => "accessibility backend failure: "@ + b@,
    }
}

impl AccessibilityError {
    /// The text that describes the error.
    pub fn message(&self) -> (text: String)
        ensures
            text@ == accessibility_error_message(*self),
    {
        match self {
            AccessibilityError::PermissionDenied => String::from_str(
                "macOS Accessibility permission is required",
            ),
            AccessibilityError::NoEditableElement => String::from_str(
                "no editable element is focused",
            ),
            AccessibilityError::NotImplemented => String::from_str(
                "accessibility operation is not implemented yet",
            ),
            AccessibilityError::Backend(b) => String::from_str(
                "accessibility backend failure: ",
            ).concat(b.as_str()),
        }
    }
}

/// The permission that the macOS backend reports: unknown until asked on
/// macOS, denied on any other platform.
pub fn permission_for(macos: bool) -> (permission: Result<AccessibilityPermission, AccessibilityError>)
    ensures
        permission == (if macos {
            Ok::<AccessibilityPermission, AccessibilityError>(AccessibilityPermission::Unknown)
        } else {
            Ok::<AccessibilityPermission, AccessibilityError>(AccessibilityPermission::Denied)
        }),
{
    if macos {
        Ok(AccessibilityPermission::Unknown)
    } else {
        Ok(AccessibilityPermission::Denied)
    }
}

/// What the macOS backend answers when asked for the focused element: not
/// implemented yet.
pub fn focused_element_unavailable() -> (element: Result<Option<FocusedElement>, AccessibilityError>)
    ensures
        element == Err::<Option<FocusedElement>, AccessibilityError>(AccessibilityError::NotImplemented),
{
    Err(AccessibilityError::NotImplemented)
}

/// What the macOS backend answers when asked to insert text: not implemented
/// yet.
pub fn text_insertion_unavailable() -> (inserted: Result<(), AccessibilityError>)
    ensures
        inserted == Err::<(), AccessibilityError>(AccessibilityError::NotImplemented),
{
    Err(AccessibilityError::NotImplemented)
}

/// What an accessibility backend offers.
pub trait AccessibilityBackend {
    fn permission(&self) -> Result<AccessibilityPermission, AccessibilityError>;

    fn focused_element(&self) -> Result<Option<FocusedElement>, AccessibilityError>;

    fn insert_text(&self, text: &str) -> Result<(), AccessibilityError>;
}

} // verus!
