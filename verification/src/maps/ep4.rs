//! Episode 4 maps.

use vstd::prelude::*;

use super::VariationData;

verus! {

/// All areas' maps for Episode 4.
#[derive(Clone, Debug)]
pub struct Ep4Areas {
    pub city: VariationData,
    /// East
    pub wilds1: Vec<VariationData>,
    /// West
    pub wilds2: Vec<VariationData>,
    /// South
    pub wilds3: Vec<VariationData>,
    /// North
    pub wilds4: Vec<VariationData>,
    pub crater: Vec<VariationData>,
    pub desert1: Vec<VariationData>,
    pub desert2: Vec<VariationData>,
    pub desert3: Vec<VariationData>,
    /// Saint Milion
    pub boss9: VariationData,
}

} // verus!
