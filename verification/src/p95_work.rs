//! The Primenet work-type vocabulary and its wire codes.
//!
//! The numeric code each work type puts on the wire is a fixed contract
//! with the authority and lives only here.

use vstd::prelude::*;

verus! {

/// A kind of work that can be requested from Primenet.
#[derive(Clone, Copy, Debug, PartialEq, Eq, Structural)]
pub enum PrimenetWorkType {
    TrialFactoring,
    P1Factoring,
    EcmFactoring,
    EcmFactoringOfMersenneCofactors,
    SmallestAvailableFirstTimeLlTests,
    DoubleCheckLlTests,
    WorldRecordLlTests,
    HundredMillionDigitsLlTests,
    SmallestAvailableFirstTimePrpTests,
    DoubleCheckPrpTests,
    WorldRecordPrpTests,
    HundredMillionDigitsPrpTests,
    FirstPrpTestsOnMersenneCofactors,
    DoubleCheckPrpTestsOnMersenneCofactors,
}

impl PrimenetWorkType {
    /// The wire code of this work type.
    pub open spec fn spec_code(self) -> Seq<char> {
        match self {
            PrimenetWorkType::TrialFactoring => "2"@,
            PrimenetWorkType::P1Factoring => "4"@,
            PrimenetWorkType::EcmFactoring => "5"@,
            PrimenetWorkType::EcmFactoringOfMersenneCofactors => "8"@,
            PrimenetWorkType::SmallestAvailableFirstTimeLlTests => "100"@,
            PrimenetWorkType::DoubleCheckLlTests => "101"@,
            PrimenetWorkType::WorldRecordLlTests => "102"@,
            PrimenetWorkType::HundredMillionDigitsLlTests => "104"@,
            PrimenetWorkType::SmallestAvailableFirstTimePrpTests => "150"@,
            PrimenetWorkType::DoubleCheckPrpTests => "151"@,
            PrimenetWorkType::WorldRecordPrpTests => "152"@,
            PrimenetWorkType::HundredMillionDigitsPrpTests => "153"@,
            PrimenetWorkType::FirstPrpTestsOnMersenneCofactors => "160"@,
            PrimenetWorkType::DoubleCheckPrpTestsOnMersenneCofactors => "161"@,
        }
    }

    /// The wire code of this work type, as request parameter text.
    pub fn as_str(&self) -> (r: &'static str)
        ensures
            r@ == self.spec_code(),
    {
        match self {
            PrimenetWorkType::TrialFactoring => "2",
            PrimenetWorkType::P1Factoring => "4",
            PrimenetWorkType::EcmFactoring => "5",
            PrimenetWorkType::EcmFactoringOfMersenneCofactors => "8",
            PrimenetWorkType::SmallestAvailableFirstTimeLlTests => "100",
            PrimenetWorkType::DoubleCheckLlTests => "101",
            PrimenetWorkType::WorldRecordLlTests => "102",
            PrimenetWorkType::HundredMillionDigitsLlTests => "104",
            PrimenetWorkType::SmallestAvailableFirstTimePrpTests => "150",
            PrimenetWorkType::DoubleCheckPrpTests => "151",
            PrimenetWorkType::WorldRecordPrpTests => "152",
            PrimenetWorkType::HundredMillionDigitsPrpTests => "153",
            PrimenetWorkType::FirstPrpTestsOnMersenneCofactors => "160",
            PrimenetWorkType::DoubleCheckPrpTestsOnMersenneCofactors => "161",
        }
    }
}

} // verus!
