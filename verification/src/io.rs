use vstd::prelude::*;

verus! {

/// A command for the dispatcher.
///
/// The interactive context enqueues these; the dispatcher executes them one at
/// a time, strictly in order, and performs any network call a command needs
/// before applying the corresponding navigation transition.
#[derive(Debug, Clone)]
pub enum IoEvent {
    /// Fetch the starting location and enter the `Initialized` state.
    Initialize(String),
    /// Pause for the given number of seconds, then bump the sleep counter.
    /// Touches no navigation state; it exists to exercise the busy flag.
    Sleep(u64),
    /// Descend into the entry under the cursor.
    StepIn,
    /// Ascend to the parent directory listing.
    StepOut,
    /// Move the cursor one row up.
    MoveUp,
    /// Move the cursor one row down.
    MoveDown,
}

} // verus!
