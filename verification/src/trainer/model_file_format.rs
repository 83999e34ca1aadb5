//! The model file format a training run saves as.

use vstd::prelude::*;

verus! {

/// The format trained models are saved in.
pub enum ModelFileFormat {
    /// The safetensors format.
    Safetensors,
}

impl ModelFileFormat {
    /// The name the external toolkit knows the format by.
    pub fn as_str(&self) -> (r: &'static str)
        ensures
            r@ == "safetensors"@,
    {
        match self {
            ModelFileFormat::Safetensors => "safetensors",
        }
    }
}

impl Default for ModelFileFormat {
    /// Safetensors is the only, and default, format.
    fn default() -> (r: Self)
        ensures
            r is Safetensors,
    {
        ModelFileFormat::Safetensors
    }
}

} // verus!
