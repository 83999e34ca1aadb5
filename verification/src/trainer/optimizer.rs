//! The optimizer choice handed to the external training toolkit.

use vstd::prelude::*;

verus! {

/// The optimizer of the training process.
pub enum Optimizer {
    AdamW,
    AdamW8bit,
    Adafactor,
    DAdaptation,
    DAdaptationGrad,
    DAdaptAdam,
    DAdaptAdan,
    DAdaptAdamIP,
    DAdaptAdamReprint,
    DAdaptLion,
    DAdaptSGD,
    Lion,
    Lion8bit,
    PagedAdamW8bit,
    PagedAdamW32bit,
    PagedLion8bit,
    Prodigy,
    SGDNesterov,
    SGDNesterov8bit,
}

impl Optimizer {
    /// The name the external toolkit knows the optimizer by.
    pub fn as_str(&self) -> (r: &'static str)
        ensures
            self is AdamW ==> r@ == "AdamW"@,
            self is AdamW8bit ==> r@ == "AdamW8bit"@,
            self is Adafactor ==> r@ == "Adafactor"@,
            self is DAdaptation ==> r@ == "DAdaptation"@,
            self is DAdaptationGrad ==> r@ == "DAdaptationGrad"@,
            self is DAdaptAdam ==> r@ == "DAdaptAdam"@,
            self is DAdaptAdan ==> r@ == "DAdaptAdan"@,
            self is DAdaptAdamIP ==> r@ == "DAdaptAdamIP"@,
            self is DAdaptAdamReprint ==> r@ == "DAdaptAdamReprint"@,
            self is DAdaptLion ==> r@ == "DAdaptLion"@,
            self is DAdaptSGD ==> r@ == "DAdaptSGD"@,
            self is Lion ==> r@ == "Lion"@,
            self is Lion8bit ==> r@ == "Lion8bit"@,
            self is PagedAdamW8bit ==> r@ == "PagedAdamW8bit"@,
            self is PagedAdamW32bit ==> r@ == "PagedAdamW32bit"@,
            self is PagedLion8bit ==> r@ == "PagedLion8bit"@,
            self is Prodigy ==> r@ == "Prodigy"@,
            self is SGDNesterov ==> r@ == "SGDNesterov"@,
            self is SGDNesterov8bit ==> r@ == "SGDNesterov8bit"@,
    {
        match self {
            Optimizer::AdamW => "AdamW",
            Optimizer::AdamW8bit => "AdamW8bit",
            Optimizer::Adafactor => "Adafactor",
            Optimizer::DAdaptation => "DAdaptation",
            Optimizer::DAdaptationGrad => "DAdaptationGrad",
            Optimizer::DAdaptAdam => "DAdaptAdam",
            Optimizer::DAdaptAdan => "DAdaptAdan",
            Optimizer::DAdaptAdamIP => "DAdaptAdamIP",
            Optimizer::DAdaptAdamReprint => "DAdaptAdamReprint",
            Optimizer::DAdaptLion => "DAdaptLion",
            Optimizer::DAdaptSGD => "DAdaptSGD",
            Optimizer::Lion => "Lion",
            Optimizer::Lion8bit => "Lion8bit",
            Optimizer::PagedAdamW8bit => "PagedAdamW8bit",
            Optimizer::PagedAdamW32bit => "PagedAdamW32bit",
            Optimizer::PagedLion8bit => "PagedLion8bit",
            Optimizer::Prodigy => "Prodigy",
            Optimizer::SGDNesterov => "SGDNesterov",
            Optimizer::SGDNesterov8bit => "SGDNesterov8bit",
        }
    }
}

impl Default for Optimizer {
    /// AdamW is the default optimizer.
    fn default() -> (r: Self)
        ensures
            r is AdamW,
    {
        Optimizer::AdamW
    }
}

} // verus!
