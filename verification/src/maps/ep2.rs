//! Episode 2 maps.

use vstd::prelude::*;

use super::{KeyedVariation, VariationData};

verus! {

/// All areas' maps for Episode 2. Areas with one layout number hold a
/// list of variations; areas with two hold keyed variations.
#[derive(Clone, Debug)]
pub struct Ep2Areas {
    pub city: VariationData,
    /// The temple (not Episode 1's ruins).
    pub ruins1: Vec<KeyedVariation>,
    pub ruins2: Vec<KeyedVariation>,
    pub space1: Vec<KeyedVariation>,
    pub space2: Vec<KeyedVariation>,
    pub jungle1: Vec<VariationData>,
    pub jungle2: Vec<VariationData>,
    pub jungle3: Vec<VariationData>,
    pub jungle4: Vec<KeyedVariation>,
    pub jungle5: Vec<VariationData>,
    pub seabed1: Vec<KeyedVariation>,
    pub seabed2: Vec<KeyedVariation>,
    /// Gal Gryphon
    pub boss5: VariationData,
    /// Olga Flow
    pub boss6: VariationData,
    /// Barba Ray
    pub boss7: VariationData,
    /// Gol Dragon
    pub boss8: VariationData,
}

} // verus!
