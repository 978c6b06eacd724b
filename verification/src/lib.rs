//! Driver core for YDLidar range sensors.
//!
//! The sensor emits an unframed byte stream over a serial link. This crate
//! holds the verified core of the driver: locating packet boundaries inside
//! a growing byte buffer, validating the rolling XOR checksum, decoding the
//! fixed-point numeric fields, and assembling per-rotation scans from the
//! variable-count samples of each packet. Serial transport, threads and
//! floating-point angle conversion live outside this crate.

pub mod angle;
pub mod assembler;
pub mod constants;
pub mod device_info;
pub mod error;
pub mod flags;
pub mod models;
pub mod numeric;
pub mod packet;
pub mod parser;
pub mod scan;

pub use crate::angle::{to_angle, Angle};
pub use crate::assembler::process_packet;
pub use crate::device_info::{check_health_payload, device_info_from_payload, DeviceInfo};
pub use crate::error::YDLidarError;
pub use crate::flags::{to_flag, InterferenceFlag};
pub use crate::models::{
    model_baud_rate, model_from_number, profile_for_model, AssemblyVariant, DeviceProfile,
    YdlidarModels,
};
pub use crate::numeric::{calc_distance, to_string, to_u16};
pub use crate::packet::{
    calc_checksum, err_if_checksum_mismatched, find_start_index, get_packet_size,
    is_beginning_of_cycle, is_packet_header, n_scan_samples, scan_index, sendable_packet_range,
    validate_packet_response, validate_response_header,
};
pub use crate::parser::PacketParser;
pub use crate::scan::{Scan, ScanModel};
