//! Dataset locations: a directory of training images, and an optional
//! directory of regularization images.

use vstd::prelude::*;

use crate::trainer::variable::Update;

verus! {

/// A directory of images used for training.
pub struct ImageDataSet {
    path: String,
}

impl ImageDataSet {
    /// The directory path.
    pub closed spec fn spec_path(&self) -> Seq<char> {
        self.path@
    }

    /// A data set rooted at a directory.
    pub fn from_dir(path: &str) -> (r: Self)
        ensures
            r.spec_path() == path@,
    {
        ImageDataSet { path: path.to_owned() }
    }

    /// Replace the directory path.
    pub fn set_path(&mut self, path: String)
        ensures
            final(self).spec_path() == path@,
    {
        self.path = path;
    }

    /// The directory path.
    pub fn path(&self) -> (r: &str)
        ensures
            r@ == self.spec_path(),
    {
        self.path.as_str()
    }
}

impl Update for ImageDataSet {
    /// A non-empty base path overrides this one.
    fn update(&mut self, base: Self) {
        if !base.path.as_str().is_empty() {
            self.path = base.path;
        }
    }
}

/// The dataset of a training run.
pub struct TrainingDataSet {
    /// The training images.
    pub training: ImageDataSet,
    /// The regularization images, if any.
    pub regularization: Option<ImageDataSet>,
}

impl TrainingDataSet {
    /// A dataset of training images, without regularization images.
    pub fn new(training: ImageDataSet) -> (r: Self)
        ensures
            r.training == training,
            r.regularization is None,
    {
        TrainingDataSet { training, regularization: None }
    }

    /// Add regularization images.
    pub fn with_regularization_images(self, regularization_images: ImageDataSet) -> (r: Self)
        ensures
            r.training == self.training,
            r.regularization == Some(regularization_images),
    {
        TrainingDataSet { regularization: Some(regularization_images), ..self }
    }
}

} // verus!
