use vstd::prelude::*;

verus! {

/// Byte length of a command response header.
pub const HEADER_SIZE: usize = 7;

/// Byte length of a measurement packet's fixed prefix.
pub const PACKET_HEADER_SIZE: usize = 10;

pub const LIDAR_CMD_GET_DEVICE_HEALTH: u8 = 0x92;

pub const LIDAR_CMD_GET_DEVICE_INFO: u8 = 0x90;

pub const LIDAR_CMD_SYNC_BYTE: u8 = 0xA5;

pub const LIDAR_CMD_FORCE_STOP: u8 = 0x00;

pub const LIDAR_CMD_STOP: u8 = 0x65;

pub const LIDAR_CMD_SCAN: u8 = 0x60;

pub const LIDAR_ANS_TYPE_DEVINFO: u8 = 0x4;

pub const LIDAR_ANS_LENGTH_DEVINFO: u8 = 20;

pub const LIDAR_ANS_TYPE_DEVHEALTH: u8 = 0x6;

pub const LIDAR_ANS_LENGTH_DEVHEALTH: u8 = 3;

pub const LIDAR_ANS_TYPE_MEASUREMENT: u8 = 0x81;

/// Fixed trial count for the bounded retry around a transport read.
pub const N_READ_TRIALS: usize = 3;

/// Largest distance (in millimeters) the reduced-capability profile
/// accepts as a valid sample.
pub const LIDAR_MAX_DISTANCE_VALUE: u16 = 8000;

} // verus!
