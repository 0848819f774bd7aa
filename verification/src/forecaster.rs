//! FORECASTER (Chen & Kipping 2017) mass-prior classes. A class is a prior,
//! not a confirmation.
use vstd::prelude::*;

verus! {

#[derive(Debug, Clone, Copy, PartialEq, Eq, Structural, Hash)]
pub enum ForecasterClass {
    Terran,
    Neptunian,
    Jovian,
    Stellar,
}

pub open spec fn class_name(c: ForecasterClass) -> Seq<char> {
    match c {
        ForecasterClass::Terran => "terran"@,
        ForecasterClass::Neptunian => "neptunian"@,
        ForecasterClass::Jovian => "jovian"@,
        ForecasterClass::Stellar => "stellar"@,
    }
}

impl ForecasterClass {
    pub fn as_str(self) -> (r: &'static str)
        ensures
            r@ == class_name(self),
    {
        match self {
            ForecasterClass::Terran => "terran",
            ForecasterClass::Neptunian => "neptunian",
            ForecasterClass::Jovian => "jovian",
            ForecasterClass::Stellar => "stellar",
        }
    }
}

} // verus!
