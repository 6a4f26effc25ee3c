use vstd::prelude::*;

verus! {

/// Seconds that a message stays on screen.
pub const MESSAGE_DURATION: u64 = 4;

/// How serious a message to the player is.
#[derive(Clone, Copy, Debug, PartialEq, Eq, Structural)]
pub enum MessageLevel {
    Info,
    Warning,
    Error,
}

impl MessageLevel {
    /// The name of the sound played with a message of this level.
    pub fn sound(&self) -> (r: &'static str)
        ensures
            r@ == match self {
                MessageLevel::Info => "message"@,
                MessageLevel::Warning => "warning"@,
                MessageLevel::Error => "error"@,
            },
    {
        match self {
            MessageLevel::Info => "message",
            MessageLevel::Warning => "warning",
            MessageLevel::Error => "error",
        }
    }

    /// Whether the player can close the message before it fades: only errors.
    pub fn closable(&self) -> (r: bool)
        ensures
            r == (*self == MessageLevel::Error),
    {
        matches!(self, MessageLevel::Error)
    }
}

} // verus!
