use vstd::prelude::*;

verus! {

/// One physical key press, as the interactive context sees it.
///
/// Equality is structural, so key identity can be reasoned about directly in
/// contracts (two keys are the same exactly when variant and payload agree).
#[derive(Debug, Clone, Copy, PartialEq, Eq, Structural)]
pub enum Key {
    Enter,
    Esc,
    Up,
    Down,
    /// A plain character key.
    Char(char),
    /// A character pressed together with Control.
    Ctrl(char),
    /// A character pressed together with Alt.
    Alt(char),
    /// Anything the terminal reports that the application does not interpret.
    Unknown,
}

} // verus!
