use crate::error::YDLidarError;
use vstd::prelude::*;

verus! {

/// What a device reports about itself in its identification response.
#[derive(Clone, Debug, PartialEq)]
pub struct DeviceInfo {
    pub model_number: u8,
    pub firmware_major_version: u8,
    pub firmware_minor_version: u8,
    pub hardware_version: u8,
    pub serial_number: [u8; 16],
}

/// Decodes the twenty-byte identification payload: the model number, the
/// firmware version (minor before major on the wire), the hardware
/// version, and the sixteen-byte serial number.
pub fn device_info_from_payload(info: &[u8]) -> (device_info: DeviceInfo)
    requires
        info@.len() >= 20,
    ensures
        device_info.model_number == info@[0],
        device_info.firmware_major_version == info@[2],
        device_info.firmware_minor_version == info@[1],
        device_info.hardware_version == info@[3],
        device_info.serial_number@ == info@.subrange(4, 20),
{
    let serial_number: [u8; 16] = [
        info[4],
        info[5],
        info[6],
        info[7],
        info[8],
        info[9],
        info[10],
        info[11],
        info[12],
        info[13],
        info[14],
        info[15],
        info[16],
        info[17],
        info[18],
        info[19],
    ];
    proof {
        assert(serial_number@ =~= info@.subrange(4, 20));
    }
    DeviceInfo {
        model_number: info[0],
        firmware_major_version: info[2],
        firmware_minor_version: info[1],
        hardware_version: info[3],
        serial_number,
    }
}

/// Judges the three-byte health payload: the device is healthy exactly
/// when the status byte is zero; otherwise the raw status code is
/// surfaced as a device-health error.
pub fn check_health_payload(health: &[u8]) -> (verdict: Result<(), YDLidarError>)
    requires
        health@.len() >= 1,
    ensures
        health@[0] == 0 ==> verdict == Ok::<(), YDLidarError>(()),
        health@[0] != 0 ==> verdict == Err::<(), YDLidarError>(
            YDLidarError::DeviceHealthError(health@[0] as usize),
        ),
{
    match health[0] {
        0 => Ok(()),
        _ => Err(YDLidarError::DeviceHealthError(health[0] as usize)),
    }
}

} // verus!
