//! Moon orbital sense for TDV: the impact-parameter term adds for a prograde
//! moon and subtracts for a retrograde one.
use vstd::prelude::*;

verus! {

#[derive(Debug, Clone, Copy, PartialEq, Eq, Structural, Hash)]
pub enum MoonSense {
    Prograde,
    Retrograde,
}

} // verus!
