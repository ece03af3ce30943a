//! Units of plugin options, as the host's option dialog understands them.

use vstd::prelude::*;

verus! {

/// The unit a numeric option is shown with.
#[derive(Clone, Copy, Debug, PartialEq, Eq, Structural)]
pub enum OptionUnit {
    /// A bare number, without a unit.
    NoUnit,
    /// A percentage.
    Percent,
}

impl OptionUnit {
    /// The numeric code of this unit in the host's C enumeration.
    pub fn as_code(self) -> (r: u32)
        ensures
            r == match self {
                OptionUnit::NoUnit => 0u32,
                OptionUnit::Percent => 1u32,
            },
    {
        match self {
            OptionUnit::NoUnit => 0,
            OptionUnit::Percent => 1,
        }
    }
}

} // verus!
