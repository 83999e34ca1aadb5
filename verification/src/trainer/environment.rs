//! The environment of the external fine-tuning toolkit: where its checkout
//! lives, and the derived paths into its virtual environment. Loading and
//! saving the environment configuration file, and activating the
//! environment for a process, are I/O concerns outside the library.

use vstd::prelude::*;

verus! {

/// The toolkit environment: the path of the toolkit checkout.
pub struct Environment {
    kohya_ss: String,
}

impl Environment {
    /// The configured toolkit path.
    pub closed spec fn spec_kohya_ss(&self) -> Seq<char> {
        self.kohya_ss@
    }

    /// An environment with no toolkit path configured yet.
    pub fn new() -> (r: Self)
        ensures
            r.spec_kohya_ss() == Seq::<char>::empty(),
    {
        Environment { kohya_ss: String::new() }
    }

    /// Replace the toolkit path.
    pub fn with_kohya_ss(self, kohya_ss: &str) -> (r: Self)
        ensures
            r.spec_kohya_ss() == kohya_ss@,
    {
        Environment { kohya_ss: kohya_ss.to_owned() }
    }

    /// The configured toolkit path.
    pub fn kohya_ss(&self) -> (r: &str)
        ensures
            r@ == self.spec_kohya_ss(),
    {
        self.kohya_ss.as_str()
    }

    /// The toolkit's training-script directory.
    pub fn sd_scripts(&self) -> (r: String)
        ensures
            r@ == self.spec_kohya_ss() + "/sd-scripts"@,
    {
        let mut dir = self.kohya_ss.clone();
        dir.append("/sd-scripts");
        dir
    }

    /// The executable directory of the toolkit's virtual environment.
    pub fn binary_path(&self) -> (r: String)
        ensures
            r@ == self.spec_kohya_ss() + "/.venv/bin"@,
    {
        let mut dir = self.kohya_ss.clone();
        dir.append("/.venv/bin");
        dir
    }

    /// The python executable of the toolkit's virtual environment.
    pub fn python_executable_path(&self) -> (r: String)
        ensures
            r@ == self.spec_kohya_ss() + "/.venv/bin"@ + "/python"@,
    {
        let mut path = self.binary_path();
        path.append("/python");
        path
    }
}

} // verus!
