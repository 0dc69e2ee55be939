//! The GPU-authority work-type vocabulary: each work type's request
//! address and each option's wire code, kept in one place.

use vstd::prelude::*;

verus! {

/// Options for Lucas-Lehmer trial-factoring work.
#[derive(Clone, Copy, Debug, PartialEq, Eq, Structural)]
pub enum Gpu72LLTFWorkOption {
    WhatMakesSense,
    LowestTrialFactorLevel,
    HighestTrialFactorLevel,
    LowestExponent,
    OldestExponent,
    LmhBitFirst,
    LmhDepthFirst,
    LetGpu72Decide,
}

impl Gpu72LLTFWorkOption {
    /// The wire code of this option.
    pub open spec fn spec_code(self) -> Seq<char> {
        match self {
            Gpu72LLTFWorkOption::WhatMakesSense => "0"@,
            Gpu72LLTFWorkOption::LowestTrialFactorLevel => "1"@,
            Gpu72LLTFWorkOption::HighestTrialFactorLevel => "2"@,
            Gpu72LLTFWorkOption::LowestExponent => "3"@,
            Gpu72LLTFWorkOption::OldestExponent => "4"@,
            Gpu72LLTFWorkOption::LmhBitFirst => "6"@,
            Gpu72LLTFWorkOption::LmhDepthFirst => "7"@,
            Gpu72LLTFWorkOption::LetGpu72Decide => "9"@,
        }
    }

    /// The wire code of this option, as request parameter text.
    pub fn as_str(&self) -> (r: &'static str)
        ensures
            r@ == self.spec_code(),
    {
        match self {
            Gpu72LLTFWorkOption::WhatMakesSense => "0",
            Gpu72LLTFWorkOption::LowestTrialFactorLevel => "1",
            Gpu72LLTFWorkOption::HighestTrialFactorLevel => "2",
            Gpu72LLTFWorkOption::LowestExponent => "3",
            Gpu72LLTFWorkOption::OldestExponent => "4",
            Gpu72LLTFWorkOption::LmhBitFirst => "6",
            Gpu72LLTFWorkOption::LmhDepthFirst => "7",
            Gpu72LLTFWorkOption::LetGpu72Decide => "9",
        }
    }
}

/// Options for double-check trial-factoring work.
#[derive(Clone, Copy, Debug, PartialEq, Eq, Structural)]
pub enum Gpu72DCTFWorkOption {
    WhatMakesSense,
    LowestTrialFactorLevel,
    HighestTrialFactorLevel,
    LowestExponent,
    OldestExponent,
    DoubleCheckAlreadyDone,
    LetGpu72Decide,
}

impl Gpu72DCTFWorkOption {
    /// The wire code of this option.
    pub open spec fn spec_code(self) -> Seq<char> {
        match self {
            Gpu72DCTFWorkOption::WhatMakesSense => "0"@,
            Gpu72DCTFWorkOption::LowestTrialFactorLevel => "1"@,
            Gpu72DCTFWorkOption::HighestTrialFactorLevel => "2"@,
            Gpu72DCTFWorkOption::LowestExponent => "3"@,
            Gpu72DCTFWorkOption::OldestExponent => "4"@,
            Gpu72DCTFWorkOption::DoubleCheckAlreadyDone => "5"@,
            Gpu72DCTFWorkOption::LetGpu72Decide => "9"@,
        }
    }

    /// The wire code of this option, as request parameter text.
    pub fn as_str(&self) -> (r: &'static str)
        ensures
            r@ == self.spec_code(),
    {
        match self {
            Gpu72DCTFWorkOption::WhatMakesSense => "0",
            Gpu72DCTFWorkOption::LowestTrialFactorLevel => "1",
            Gpu72DCTFWorkOption::HighestTrialFactorLevel => "2",
            Gpu72DCTFWorkOption::LowestExponent => "3",
            Gpu72DCTFWorkOption::OldestExponent => "4",
            Gpu72DCTFWorkOption::DoubleCheckAlreadyDone => "5",
            Gpu72DCTFWorkOption::LetGpu72Decide => "9",
        }
    }
}

/// Options for Lucas-Lehmer P-1 work.
#[derive(Clone, Copy, Debug, PartialEq, Eq, Structural)]
pub enum Gpu72LLP1WorkOption {
    WhatMakesSense,
    LowestExponent,
    OldestExponent,
}

impl Gpu72LLP1WorkOption {
    /// The wire code of this option.
    pub open spec fn spec_code(self) -> Seq<char> {
        match self {
            Gpu72LLP1WorkOption::WhatMakesSense => "0"@,
            Gpu72LLP1WorkOption::LowestExponent => "3"@,
            Gpu72LLP1WorkOption::OldestExponent => "4"@,
        }
    }

    /// The wire code of this option, as request parameter text.
    pub fn as_str(&self) -> (r: &'static str)
        ensures
            r@ == self.spec_code(),
    {
        match self {
            Gpu72LLP1WorkOption::WhatMakesSense => "0",
            Gpu72LLP1WorkOption::LowestExponent => "3",
            Gpu72LLP1WorkOption::OldestExponent => "4",
        }
    }
}

/// A kind of work that can be requested from the GPU authority, with its
/// selected option.
#[derive(Clone, Copy, Debug, PartialEq, Eq, Structural)]
pub enum Gpu72WorkType {
    LucasLehmerTrialFactor(Gpu72LLTFWorkOption),
    DoubleCheckTrialFactor(Gpu72DCTFWorkOption),
    LucasLehmerP1(Gpu72LLP1WorkOption),
}

impl Gpu72WorkType {
    /// The request address for this kind of work.
    pub open spec fn spec_addr(self) -> Seq<char> {
        match self {
            Gpu72WorkType::LucasLehmerTrialFactor(_) =>
                "https://www.gpu72.com/account/getassignments/lltf"@,
            Gpu72WorkType::DoubleCheckTrialFactor(_) =>
                "https://www.gpu72.com/account/getassignments/dctf"@,
            Gpu72WorkType::LucasLehmerP1(_) => "https://www.gpu72.com/account/getassignments/llp-1"@,
        }
    }

    /// The wire code of the selected option.
    pub open spec fn spec_opt(self) -> Seq<char> {
        match self {
            Gpu72WorkType::LucasLehmerTrialFactor(o) => o.spec_code(),
            Gpu72WorkType::DoubleCheckTrialFactor(o) => o.spec_code(),
            Gpu72WorkType::LucasLehmerP1(o) => o.spec_code(),
        }
    }

    /// The request address and option code for this kind of work.
    pub fn as_str(&self) -> (r: (&'static str, &'static str))
        ensures
            r.0@ == self.spec_addr(),
            r.1@ == self.spec_opt(),
    {
        match self {
            Gpu72WorkType::LucasLehmerTrialFactor(o) => (
                "https://www.gpu72.com/account/getassignments/lltf",
                o.as_str(),
            ),
            Gpu72WorkType::DoubleCheckTrialFactor(o) => (
                "https://www.gpu72.com/account/getassignments/dctf",
                o.as_str(),
            ),
            Gpu72WorkType::LucasLehmerP1(o) => (
                "https://www.gpu72.com/account/getassignments/llp-1",
                o.as_str(),
            ),
        }
    }
}

} // verus!
