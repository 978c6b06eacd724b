use crate::error::YDLidarError;
use vstd::prelude::*;

verus! {

/// Sensor models this driver knows.
#[derive(Clone, Copy, Debug, PartialEq, Eq, Structural)]
pub enum YdlidarModels {
    /// Reports real interference flags and intensities.
    TMiniPro,
    /// Reduced-capability model: no flags, no intensities, no startup
    /// command handshake, and distance-filtered samples.
    X2,
}

/// How the scan assembler treats the samples of a packet.
#[derive(Clone, Copy, Debug, PartialEq, Eq, Structural)]
pub enum AssemblyVariant {
    /// Decode flags and intensities from the wire and keep every sample.
    Full,
    /// Substitute placeholder flags and intensities, pin the first and
    /// last sample angles to the packet's own angle fields, and drop
    /// samples whose distance is zero or out of range.
    Reduced,
}

/// Immutable capability descriptor of a sensor model, fixed at startup.
#[derive(Clone, Copy, Debug, PartialEq, Eq, Structural)]
pub struct DeviceProfile {
    /// Serial link speed the model talks at.
    pub baud_rate: u32,
    /// Whether the startup health and identification exchange is
    /// supported and required before scanning.
    pub needs_handshake: bool,
    /// Which scan-assembly behavior applies.
    pub variant: AssemblyVariant,
}

/// The serial baud rate of each supported model.
pub open spec fn spec_model_baud_rate(model: YdlidarModels) -> u32 {
    match model {
        YdlidarModels::TMiniPro => 230400,
        YdlidarModels::X2 => 115200,
    }
}

pub fn model_baud_rate(model: YdlidarModels) -> (baud_rate: u32)
    ensures
        baud_rate == spec_model_baud_rate(model),
{
    match model {
        YdlidarModels::TMiniPro => 230400,
        YdlidarModels::X2 => 115200,
    }
}

/// The capability profile of each supported model.
pub open spec fn spec_profile_for_model(model: YdlidarModels) -> DeviceProfile {
    match model {
        YdlidarModels::TMiniPro => DeviceProfile {
            baud_rate: 230400,
            needs_handshake: true,
            variant: AssemblyVariant::Full,
        },
        YdlidarModels::X2 => DeviceProfile {
            baud_rate: 115200,
            needs_handshake: false,
            variant: AssemblyVariant::Reduced,
        },
    }
}

pub fn profile_for_model(model: YdlidarModels) -> (profile: DeviceProfile)
    ensures
        profile == spec_profile_for_model(model),
        profile.baud_rate == spec_model_baud_rate(model),
{
    match model {
        YdlidarModels::TMiniPro => DeviceProfile {
            baud_rate: 230400,
            needs_handshake: true,
            variant: AssemblyVariant::Full,
        },
        YdlidarModels::X2 => DeviceProfile {
            baud_rate: 115200,
            needs_handshake: false,
            variant: AssemblyVariant::Reduced,
        },
    }
}

/// Maps the model number a device reports in its identification response
/// to the model it names; fails with the unsupported-model error on any
/// number this driver does not know.
pub fn model_from_number(model_number: u8) -> (model: Result<YdlidarModels, YDLidarError>)
    ensures
        model_number == 150 ==> model == Ok::<YdlidarModels, YDLidarError>(
            YdlidarModels::TMiniPro,
        ),
        model_number != 150 ==> model == Err::<YdlidarModels, YDLidarError>(
            YDLidarError::UnsupportedModel(model_number),
        ),
{
    match model_number {
        150 => Ok(YdlidarModels::TMiniPro),
        _ => Err(YDLidarError::UnsupportedModel(model_number)),
    }
}

} // verus!
