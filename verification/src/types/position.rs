//! Position-related types.

use vstd::prelude::*;

verus! {

/// The direction of a quantity, such as a trade or a position.
#[derive(Debug, Clone, Copy, PartialEq, Eq, Structural)]
pub enum QuantityDirection {
    /// A long position or a buy.
    Long,
    /// A short position or a sell.
    Short,
    /// A zero quantity or a neutral position.
    Zero,
}

impl QuantityDirection {
    /// The display name of this variant.
    pub open spec fn spec_name(&self) -> Seq<char> {
        match self {
            QuantityDirection::Long => "Long"@,
            QuantityDirection::Short => "Short"@,
            QuantityDirection::Zero => "Zero"@,
        }
    }

    /// Returns the display name of this variant.
    pub fn name(&self) -> (r: String)
        ensures
            r@ == self.spec_name(),
    {
        match self {
            QuantityDirection::Long => "Long".to_owned(),
            QuantityDirection::Short => "Short".to_owned(),
            QuantityDirection::Zero => "Zero".to_owned(),
        }
    }
}

} // verus!
