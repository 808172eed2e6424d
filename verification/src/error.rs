//! What can be wrong with the way the engine is set up.

use vstd::prelude::*;
use vstd::string::*;

verus! {

/// A misconfiguration, found when a text box, a dialogue or a screen is built
/// or set up.
#[derive(Debug, Clone, Copy, PartialEq, Eq, Structural)]
pub enum ConfigError {
    /// The width limit is zero.
    ZeroWidth,
    /// The script has no dialogue at the index at which it is to start.
    NoDialogue,
    /// A dialogue names a follower that the script does not hold.
    UnknownDecision,
    /// The number of characters to reveal at each tick is zero.
    ZeroRate,
}

impl ConfigError {
    /// What the message of the error says.
    pub open spec fn text(self) -> Seq<char> {
        match self {
            ConfigError::ZeroWidth => "the width limit of a text box is zero"@,
            ConfigError::NoDialogue => "the script has no dialogue to start with"@,
            ConfigError::UnknownDecision => "a dialogue names a follower that the script does not hold"@,
            ConfigError::ZeroRate => "the number of characters to reveal at each tick is zero"@,
        }
    }

    /// The error in words.
    pub fn message(&self) -> (r: String)
        ensures
            r@ == self.text(),
    {
        match self {
            ConfigError::ZeroWidth => String::from_str("the width limit of a text box is zero"),
            ConfigError::NoDialogue => String::from_str("the script has no dialogue to start with"),
            ConfigError::UnknownDecision => String::from_str(
                "a dialogue names a follower that the script does not hold",
            ),
            ConfigError::ZeroRate => String::from_str(
                "the number of characters to reveal at each tick is zero",
            ),
        }
    }
}

} // verus!
