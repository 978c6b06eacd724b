use vstd::prelude::*;

verus! {

/// Interference flag corresponding to the scan signal.
#[derive(Clone, Debug, PartialEq, Eq, Structural)]
pub enum InterferenceFlag {
    /// The signal has the interference of specular reflection
    SpecularReflection,
    /// The signal is interfered by ambient light
    AmbientLight,
    /// Interference was not observed
    Nothing,
}

/// Interference classification encoded in the low two bits of a sample's
/// second byte: 2 is specular reflection, 3 is ambient light, anything
/// else means no interference was observed.
pub open spec fn spec_to_flag(value: u8) -> InterferenceFlag {
    if value == 2 {
        InterferenceFlag::SpecularReflection
    } else if value == 3 {
        InterferenceFlag::AmbientLight
    } else {
        InterferenceFlag::Nothing
    }
}

pub fn to_flag(value: u8) -> (flag: InterferenceFlag)
    ensures
        flag == spec_to_flag(value),
{
    match value {
        2 => InterferenceFlag::SpecularReflection,
        3 => InterferenceFlag::AmbientLight,
        _ => InterferenceFlag::Nothing,
    }
}

} // verus!
