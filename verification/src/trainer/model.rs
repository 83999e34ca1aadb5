//! The model being fine-tuned: a closed set of base models, each with a
//! default checkpoint and training resolution, optionally overridden by an
//! explicit checkpoint.

use vstd::prelude::*;

verus! {

/// A checkpoint identifier: a hub model id or a local path.
pub struct Checkpoint {
    id: String,
}

impl Checkpoint {
    /// The identifier.
    pub closed spec fn spec_id(&self) -> Seq<char> {
        self.id@
    }

    /// A checkpoint from its identifier.
    pub fn new(checkpoint: &str) -> (r: Self)
        ensures
            r.spec_id() == checkpoint@,
    {
        Checkpoint { id: checkpoint.to_owned() }
    }

    /// The identifier as a string.
    pub fn as_str(&self) -> (r: &str)
        ensures
            r@ == self.spec_id(),
    {
        self.id.as_str()
    }
}

/// The base model of a training run, with an optional explicit checkpoint.
pub enum Model {
    /// The Stable Diffusion XL base model.
    StableDiffusionXL(Option<Checkpoint>),
    /// The Stable Diffusion 1.5 base model.
    StableDiffusion1_5(Option<Checkpoint>),
}

impl Model {
    /// The display name of the base model.
    pub fn name(&self) -> (r: &'static str)
        ensures
            self is StableDiffusionXL ==> r@ == "Stable Diffusion XL"@,
            self is StableDiffusion1_5 ==> r@ == "Stable Diffusion 1.5"@,
    {
        match self {
            Model::StableDiffusionXL(_) => "Stable Diffusion XL",
            Model::StableDiffusion1_5(_) => "Stable Diffusion 1.5",
        }
    }

    /// The training resolution of the base model.
    pub fn resolution(&self) -> (r: (usize, usize))
        ensures
            self is StableDiffusionXL ==> r == (1024usize, 1024usize),
            self is StableDiffusion1_5 ==> r == (512usize, 512usize),
    {
        match self {
            Model::StableDiffusionXL(_) => (1024, 1024),
            Model::StableDiffusion1_5(_) => (512, 512),
        }
    }

    /// The checkpoint to train from: the explicit one, or the base model's
    /// default repository.
    pub fn checkpoint(&self) -> (r: Checkpoint)
        ensures
            self matches Model::StableDiffusionXL(Some(c)) ==> r.spec_id() == c.spec_id(),
            self matches Model::StableDiffusionXL(None) ==> r.spec_id()
                == "stabilityai/stable-diffusion-xl-base-1.0"@,
            self matches Model::StableDiffusion1_5(Some(c)) ==> r.spec_id() == c.spec_id(),
            self matches Model::StableDiffusion1_5(None) ==> r.spec_id()
                == "runwayml/stable-diffusion-v1-5"@,
    {
        match self {
            Model::StableDiffusionXL(checkpoint) => match checkpoint {
                Some(c) => Checkpoint::new(c.as_str()),
                None => Checkpoint::new("stabilityai/stable-diffusion-xl-base-1.0"),
            },
            Model::StableDiffusion1_5(checkpoint) => match checkpoint {
                Some(c) => Checkpoint::new(c.as_str()),
                None => Checkpoint::new("runwayml/stable-diffusion-v1-5"),
            },
        }
    }
}

impl Default for Model {
    /// The default base model is Stable Diffusion XL, with no explicit
    /// checkpoint.
    fn default() -> (r: Self)
        ensures
            r matches Model::StableDiffusionXL(c) && c is None,
    {
        Model::StableDiffusionXL(None)
    }
}

} // verus!
