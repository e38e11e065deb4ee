//! Platform permission answers where no permission is needed (every platform
//! but macOS, whose Accessibility check the host makes itself), and the text
//! that names the running executable.
use vstd::prelude::*;
use vstd::string::*;

verus! {

/// Whether the process may read the global pointer: always, where no
/// Accessibility permission exists. `prompt` has no effect here.
pub fn is_accessibility_trusted(prompt: bool) -> (trusted: bool)
    ensures
        trusted,
{
    let _ = prompt;
    true
}

/// Open the system's Accessibility settings: there are none to open here.
pub fn open_accessibility_settings() {
}

/// The text shown for the running executable: its path as displayed, or
/// "(unknown)" when the path cannot be found.
pub fn exe_display_text(path: Option<String>) -> (text: String)
    ensures
        match path {
            Some(p) => text@ == p@,
            None => text@ == "(unknown)"@,
        },
{
    match path {
        Some(p) => p,
        None => String::from_str("(unknown)"),
    }
}

} // verus!
