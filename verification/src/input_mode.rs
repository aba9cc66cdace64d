//! The two modes of the form.

use vstd::prelude::*;

verus! {

/// Governs where a key press goes: to the commands of the form, or into its
/// text field.
#[derive(Clone, Copy, Debug, PartialEq, Eq)]
pub enum InputMode {
    /// Keys are commands: start editing, clear, quit.
    Normal,
    /// Keys edit the text field or submit it.
    Editing,
}

} // verus!
