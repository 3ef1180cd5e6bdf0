//! Episode 1 maps.

use vstd::prelude::*;

use super::{KeyedVariation, VariationData};

verus! {

/// All areas' maps for Episode 1. Areas with one layout number hold a
/// list of variations; areas with two hold keyed variations.
#[derive(Clone, Debug)]
pub struct Ep1Areas {
    pub city: VariationData,
    pub forest1: Vec<VariationData>,
    pub forest2: Vec<VariationData>,
    pub cave1: Vec<KeyedVariation>,
    pub cave2: Vec<KeyedVariation>,
    pub cave3: Vec<KeyedVariation>,
    pub machine1: Vec<KeyedVariation>,
    pub machine2: Vec<KeyedVariation>,
    pub ancient1: Vec<KeyedVariation>,
    pub ancient2: Vec<KeyedVariation>,
    pub ancient3: Vec<KeyedVariation>,
    /// Dragon
    pub boss1: VariationData,
    /// De Rol Le
    pub boss2: VariationData,
    /// Vol Opt
    pub boss3: VariationData,
    /// Dark Falz
    pub boss4: VariationData,
}

} // verus!
