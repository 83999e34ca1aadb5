//! The training-workflow side of the library: the declarative training
//! configuration (model, prompt, output, optimizer, learning-rate
//! scheduler, bucketing), the dataset locations, and the environment that
//! the external fine-tuning toolkit is driven in.
//!
//! Only the configuration model lives here; staging files, spawning the
//! captioning and training processes and loading workflow files are process
//! orchestration and stay outside the library.

pub mod data_set;
pub mod environment;
pub mod model;
pub mod model_file_format;
pub mod optimizer;
pub mod output;
pub mod precision;
pub mod scheduler;
pub mod training;
pub mod variable;

use vstd::prelude::*;

use environment::Environment;

verus! {

/// The decimal digits of `n`, most significant first.
pub open spec fn spec_decimal(n: nat) -> Seq<char>
    decreases n,
{
    if n < 10 {
        seq![spec_digit(n)]
    } else {
        spec_decimal(n / 10) + seq![spec_digit(n % 10)]
    }
}

/// The character of a single decimal digit.
pub open spec fn spec_digit(d: nat) -> char {
    if d == 0 {
        '0'
    } else if d == 1 {
        '1'
    } else if d == 2 {
        '2'
    } else if d == 3 {
        '3'
    } else if d == 4 {
        '4'
    } else if d == 5 {
        '5'
    } else if d == 6 {
        '6'
    } else if d == 7 {
        '7'
    } else if d == 8 {
        '8'
    } else {
        '9'
    }
}

/// Relies on `std::string::String::push`: appends one character.
#[verifier::external_body]
fn push_char(s: &mut String, c: char)
    ensures
        final (s)@ == old(s)@.push(c),
{
    s.push(c);
}

/// The character of one decimal digit.
fn digit_char(d: usize) -> (r: char)
    requires
        d < 10,
    ensures
        r == spec_digit(d as nat),
{
    match d {
        0 => '0',
        1 => '1',
        2 => '2',
        3 => '3',
        4 => '4',
        5 => '5',
        6 => '6',
        7 => '7',
        8 => '8',
        _ => '9',
    }
}

/// `n` written in decimal, most significant digit first.
pub fn decimal_string(n: usize) -> (r: String)
    ensures
        r@ == spec_decimal(n as nat),
    decreases n,
{
    if n < 10 {
        let mut s = String::new();
        push_char(&mut s, digit_char(n));
        proof {
            assert(s@ =~= spec_decimal(n as nat));
        }
        s
    } else {
        let mut s = decimal_string(n / 10);
        push_char(&mut s, digit_char(n % 10));
        proof {
            assert(s@ =~= spec_decimal(n as nat));
        }
        s
    }
}

/// The trainer: the environment that the external toolkit runs in.
pub struct Trainer {
    /// The environment of the training process.
    pub environment: Environment,
}

impl Trainer {
    /// A trainer over the default (empty) environment.
    pub fn new() -> (r: Self)
        ensures
            r.environment.spec_kohya_ss() == Seq::<char>::empty(),
    {
        Trainer { environment: Environment::new() }
    }

    /// Replace the environment.
    pub fn with_environment(self, environment: Environment) -> (r: Self)
        ensures
            r.environment == environment,
    {
        Trainer { environment }
    }

    /// The image staging directory under a training directory.
    pub fn image_dir(training_dir: &str) -> (r: String)
        ensures
            r@ == training_dir@ + "/img"@,
    {
        let mut dir = training_dir.to_owned();
        dir.append("/img");
        dir
    }

    /// The regularization-image staging directory under a training
    /// directory.
    pub fn reg_dir(training_dir: &str) -> (r: String)
        ensures
            r@ == training_dir@ + "/reg"@,
    {
        let mut dir = training_dir.to_owned();
        dir.append("/reg");
        dir
    }

    /// The staging directory of the training subject's images:
    /// `<training dir>/img/<repeat>_<instance> <class>`.
    pub fn subject_dir(
        training_dir: &str,
        images_repeat: usize,
        instance: &str,
        class: &str,
    ) -> (r: String)
        ensures
            r@ == training_dir@ + "/img"@ + "/"@ + spec_decimal(images_repeat as nat) + "_"@
                + instance@ + " "@ + class@,
    {
        let mut dir = Self::image_dir(training_dir);
        dir.append("/");
        let repeat = decimal_string(images_repeat);
        dir.append(repeat.as_str());
        dir.append("_");
        dir.append(instance);
        dir.append(" ");
        dir.append(class);
        dir
    }

    /// The staging directory of the regularization images:
    /// `<training dir>/reg/<repeat>_<class>`.
    pub fn class_dir(training_dir: &str, regularization_images_repeat: usize, class: &str) -> (r:
        String)
        ensures
            r@ == training_dir@ + "/reg"@ + "/"@ + spec_decimal(
                regularization_images_repeat as nat,
            ) + "_"@ + class@,
    {
        let mut dir = Self::reg_dir(training_dir);
        dir.append("/");
        let repeat = decimal_string(regularization_images_repeat);
        dir.append(repeat.as_str());
        dir.append("_");
        dir.append(class);
        dir
    }
}

} // verus!
