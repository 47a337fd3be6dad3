//! The platforms that the service partitions its data by.

use vstd::prelude::*;

verus! {

/// Represents the platforms that the API can be queried for.
#[derive(Clone, Copy, Debug, PartialEq, Eq, Structural)]
pub enum Platform {
    Steam,
    Xbox,
    Playstation,
}

impl Platform {
    /// The code that stands for this platform in a request path.
    pub open spec fn spec_code(self) -> Seq<char> {
        match self {
            Platform::Steam => "steam"@,
            Platform::Xbox => "xboxone"@,
            Platform::Playstation => "ps4"@,
        }
    }

    /// Get the id that has to be used when querying for each platform.
    pub fn code(&self) -> (code: String)
        ensures
            code@ == self.spec_code(),
    {
        match self {
            Platform::Steam => String::from_str("steam"),
            Platform::Xbox => String::from_str("xboxone"),
            Platform::Playstation => String::from_str("ps4"),
        }
    }
}

} // verus!
