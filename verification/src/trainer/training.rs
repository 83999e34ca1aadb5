//! Plain training-run settings: the subject prompt, the saved output, and
//! the resolution bucketing bounds.

use vstd::prelude::*;

use crate::trainer::model_file_format::ModelFileFormat;
use crate::trainer::precision::FloatPrecision;

verus! {

/// The subject of a fine-tuning run.
pub struct Prompt {
    /// The instance prompt (the subject's own token).
    pub instance: String,
    /// The class prompt (the subject's category).
    pub class: String,
}

impl Prompt {
    /// A prompt from its instance and class parts.
    pub fn new(instance: &str, class: &str) -> (r: Self)
        ensures
            r.instance@ == instance@,
            r.class@ == class@,
    {
        Prompt { instance: instance.to_owned(), class: class.to_owned() }
    }
}

/// How and how often a training run saves its model.
pub struct Output {
    /// The name of the output.
    pub name: String,
    /// The directory the model is saved under.
    pub directory: String,
    /// The format the model is saved as.
    pub save_model_as: ModelFileFormat,
    /// The precision the model is saved in.
    pub save_precision: FloatPrecision,
    /// Save every this many epochs.
    pub save_every_n_epochs: usize,
}

impl Output {
    /// An output over a name and directory, saving as safetensors in the
    /// default precision after every epoch.
    pub fn new(name: &str, directory: &str) -> (r: Self)
        ensures
            r.name@ == name@,
            r.directory@ == directory@,
            r.save_model_as is Safetensors,
            r.save_precision is F16,
            r.save_every_n_epochs == 1,
    {
        Output {
            name: name.to_owned(),
            directory: directory.to_owned(),
            save_model_as: ModelFileFormat::Safetensors,
            save_precision: FloatPrecision::F16,
            save_every_n_epochs: 1,
        }
    }
}

/// Resolution bucketing: images are grouped into resolution buckets
/// between the two bounds, stepped by `resolution_steps`.
pub struct Bucketing {
    /// The smallest bucket resolution.
    pub min_resolution: usize,
    /// The largest bucket resolution.
    pub max_resolution: usize,
    /// The step between bucket resolutions.
    pub resolution_steps: usize,
}

impl Default for Bucketing {
    /// Buckets between 512 and 1024, stepped by 64.
    fn default() -> (r: Self)
        ensures
            r.min_resolution == 512,
            r.max_resolution == 1024,
            r.resolution_steps == 64,
    {
        Bucketing { min_resolution: 512, max_resolution: 1024, resolution_steps: 64 }
    }
}

} // verus!
