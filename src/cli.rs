use vstd::prelude::*;

verus! {

/// What the recording command line asks for.
#[derive(Debug, Clone, PartialEq, Eq)]
pub enum CliAction {
    /// Start a new recording session under this name.
    Record { session_name: String },
    /// Play back the recorded session of this name.
    Play { session_name: String },
    ListSessions,
    ShowHelp,
}

} // verus!
