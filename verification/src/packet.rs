use crate::constants::{HEADER_SIZE, LIDAR_CMD_SYNC_BYTE, PACKET_HEADER_SIZE};
use crate::error::YDLidarError;
use crate::numeric::{spec_hex_string, spec_to_u16, to_string, to_u16};
use std::collections::VecDeque;
use vstd::prelude::*;
use vstd::slice::slice_subrange;

verus! {

/// Whether two consecutive bytes form the packet sync marker.
pub open spec fn spec_is_packet_header(element0: u8, element1: u8) -> bool {
    element0 == 0xAA && element1 == 0x55
}

pub fn is_packet_header(element0: u8, element1: u8) -> (found: bool)
    ensures
        found == spec_is_packet_header(element0, element1),
{
    element0 == 0xAA && element1 == 0x55
}

/// Whether the packet sync marker stands at offset `i` of `buffer`.
pub open spec fn header_at(buffer: Seq<u8>, i: int) -> bool {
    spec_is_packet_header(buffer[i], buffer[i + 1])
}

/// Whether offset `s` is the first offset of `buffer` at which the packet
/// sync marker stands.
pub open spec fn first_header_at(buffer: Seq<u8>, s: int) -> bool {
    &&& 0 <= s < buffer.len() - 1
    &&& header_at(buffer, s)
    &&& forall|j: int| 0 <= j < s ==> !header_at(buffer, j)
}

/// Finds the first offset at which the packet sync marker stands; fails
/// exactly when no two consecutive bytes of the buffer form the marker.
pub fn find_start_index(buffer: &VecDeque<u8>) -> (found: Result<usize, ()>)
    ensures
        match found {
            Ok(s) => first_header_at(buffer@, s as int),
            Err(()) => forall|j: int| 0 <= j < buffer@.len() - 1 ==> !header_at(buffer@, j),
        },
{
    if buffer.len() == 0 {
        return Err(());
    }
    let end = buffer.len() - 1;
    let mut i: usize = 0;
    while i < end
        invariant
            end == buffer@.len() - 1,
            i <= end,
            forall|j: int| 0 <= j < i ==> !header_at(buffer@, j),
        decreases end - i,
    {
        let e0 = buffer[i];
        let e1 = buffer[i + 1];
        if is_packet_header(e0, e1) {
            return Ok(i);
        }
        i += 1;
    }
    Err(())
}

/// Reads the sample-count byte three past `start_index` and computes the
/// packet's total length; fails exactly when that byte is not yet buffered.
pub fn get_packet_size(buffer: &VecDeque<u8>, start_index: usize) -> (size: Result<usize, ()>)
    ensures
        match size {
            Ok(n) => start_index + 3 < buffer@.len() && n == 10 + 3 * (buffer@[start_index
                + 3] as int),
            Err(()) => start_index + 3 >= buffer@.len(),
        },
{
    if buffer.len() < 4 || start_index >= buffer.len() - 3 {
        return Err(());
    }
    let index = start_index + 3;
    let n_scan_samples = buffer[index];
    Ok(10 + (n_scan_samples as usize) * 3)
}

/// Locates the next packet in the buffer: the offset of the first sync
/// marker and the full packet length told by the sample-count byte. Fails
/// when no marker is present, or when the buffer ends before the
/// sample-count byte of the first marker.
pub fn sendable_packet_range(buffer: &VecDeque<u8>) -> (range: Result<(usize, usize), ()>)
    ensures
        match range {
            Ok((s, size)) => first_header_at(buffer@, s as int) && s + 3 < buffer@.len() && size
                == 10 + 3 * (buffer@[s + 3] as int),
            Err(()) => forall|s: int| first_header_at(buffer@, s) ==> s + 3 >= buffer@.len(),
        },
{
    let start_index = match find_start_index(buffer) {
        Ok(s) => s,
        Err(()) => {
            return Err(());
        },
    };
    let end_index = match get_packet_size(buffer, start_index) {
        Ok(n) => n,
        Err(()) => {
            proof {
                assert forall|s: int| first_header_at(buffer@, s) implies s + 3
                    >= buffer@.len() by {
                    assert(s == start_index);
                }
            }
            return Err(());
        },
    };
    Ok((start_index, end_index))
}

/// Whether a command response header starts with the two magic bytes.
pub open spec fn magic_ok(header: Seq<u8>) -> bool {
    header[0] == 0xA5 && header[1] == 0x5A
}

/// Whether the declared-length byte of a response header matches the
/// expectation, when one is given.
pub open spec fn length_ok(header: Seq<u8>, maybe_response_length: Option<u8>) -> bool {
    match maybe_response_length {
        Some(len) => header[2] == len,
        None => true,
    }
}

/// Checks a seven-byte command response header: its length, the two magic
/// bytes, the declared payload length (when an expectation is given), and
/// the type code, failing with a distinct error for each defect, in that
/// order.
pub fn validate_response_header(
    header: &[u8],
    maybe_response_length: Option<u8>,
    type_code: u8,
) -> (valid: Result<(), YDLidarError>)
    ensures
        header@.len() != HEADER_SIZE ==> valid == Err::<(), YDLidarError>(
            YDLidarError::InvalidHeaderLength(header@.len() as usize),
        ),
        header@.len() == HEADER_SIZE && !magic_ok(header@) ==> (valid matches Err(e) && e matches
            YDLidarError::InvalidMagicNumber(s) && s@ == spec_hex_string(header@.subrange(0, 2))),
        header@.len() == HEADER_SIZE && magic_ok(header@) && !length_ok(
            header@,
            maybe_response_length,
        ) ==> valid == Err::<(), YDLidarError>(
            YDLidarError::InvalidResponseLength(
                maybe_response_length.unwrap() as usize,
                header@[2] as usize,
            ),
        ),
        header@.len() == HEADER_SIZE && magic_ok(header@) && length_ok(
            header@,
            maybe_response_length,
        ) && header@[6] != type_code ==> valid == Err::<(), YDLidarError>(
            YDLidarError::InvalidTypeCode(type_code as usize, header@[6] as usize),
        ),
        header@.len() == HEADER_SIZE && magic_ok(header@) && length_ok(
            header@,
            maybe_response_length,
        ) && header@[6] == type_code ==> valid == Ok::<(), YDLidarError>(()),
{
    if header.len() != HEADER_SIZE {
        return Err(YDLidarError::InvalidHeaderLength(header.len()));
    }
    if !(header[0] == LIDAR_CMD_SYNC_BYTE && header[1] == 0x5A) {
        return Err(YDLidarError::InvalidMagicNumber(to_string(slice_subrange(header, 0, 2))));
    }
    match maybe_response_length {
        None => (),
        Some(len) => {
            if header[2] != len {
                return Err(
                    YDLidarError::InvalidResponseLength(len as usize, header[2] as usize),
                );
            }
        },
    }
    if header[6] != type_code {
        return Err(YDLidarError::InvalidTypeCode(type_code as usize, header[6] as usize));
    }
    Ok(())
}

/// Checks the ten-byte fixed prefix of a measurement packet: its length
/// and the sync marker.
pub fn validate_packet_response(header: &[u8]) -> (valid: Result<(), YDLidarError>)
    ensures
        header@.len() != PACKET_HEADER_SIZE ==> valid == Err::<(), YDLidarError>(
            YDLidarError::InvalidHeaderLength(header@.len() as usize),
        ),
        header@.len() == PACKET_HEADER_SIZE && !spec_is_packet_header(header@[0], header@[1]) ==> (
        valid matches Err(e) && e matches YDLidarError::InvalidMagicNumber(s) && s@
            == spec_hex_string(header@.subrange(0, 2))),
        header@.len() == PACKET_HEADER_SIZE && spec_is_packet_header(header@[0], header@[1])
            ==> valid == Ok::<(), YDLidarError>(()),
{
    if header.len() != PACKET_HEADER_SIZE {
        return Err(YDLidarError::InvalidHeaderLength(header.len()));
    }
    if !is_packet_header(header[0], header[1]) {
        return Err(YDLidarError::InvalidMagicNumber(to_string(slice_subrange(header, 0, 2))));
    }
    Ok(())
}

/// The number of samples a packet carries, told by its fourth byte.
pub fn n_scan_samples(packet: &[u8]) -> (n: usize)
    requires
        packet@.len() >= 4,
    ensures
        n == packet@[3] as usize,
{
    packet[3] as usize
}

/// The byte offset of sample `idx` inside a packet.
pub fn scan_index(idx: usize) -> (offset: usize)
    requires
        10 + (idx as int) * 3 <= usize::MAX,
    ensures
        offset == 10 + idx * 3,
{
    10 + idx * 3
}

/// Whether the packet's flag byte marks the first packet of a rotation.
pub fn is_beginning_of_cycle(packet: &[u8]) -> (beginning: bool)
    requires
        packet@.len() >= 3,
    ensures
        beginning == (packet@[2] % 2 == 1),
{
    packet[2] % 2 == 1
}

/// The running XOR of the packet's header words and sample words, taking
/// the first `k` samples: the seed is the sync word folded with the
/// start-angle word, and each sample contributes its first byte as a low
/// word and its last two bytes as a full word.
pub open spec fn spec_checksum_upto(packet: Seq<u8>, k: int) -> u16
    decreases k,
{
    if k <= 0 {
        spec_to_u16(packet[1], packet[0]) ^ spec_to_u16(packet[5], packet[4])
    } else {
        (spec_checksum_upto(packet, k - 1) ^ spec_to_u16(0, packet[10 + 3 * (k - 1)]))
            ^ spec_to_u16(packet[10 + 3 * (k - 1) + 2], packet[10 + 3 * (k - 1) + 1])
    }
}

/// The checksum of a whole packet: all its samples folded in, then the
/// flag/count word and the end-angle word.
pub open spec fn spec_checksum(packet: Seq<u8>) -> u16 {
    (spec_checksum_upto(packet, packet[3] as int) ^ spec_to_u16(packet[3], packet[2]))
        ^ spec_to_u16(packet[7], packet[6])
}

/// Recomputes the checksum over a complete packet. Two calls on equal
/// buffers return the same value: the result is a function of the bytes
/// alone.
pub fn calc_checksum(packet: &[u8]) -> (checksum: u16)
    requires
        packet@.len() >= 10 + 3 * (packet@[3] as int),
    ensures
        checksum == spec_checksum(packet@),
{
    let n_scan = packet[3] as usize;
    let mut checksum: u16 = to_u16(packet[1], packet[0]);
    checksum = checksum ^ to_u16(packet[5], packet[4]);
    let mut i: usize = 0;
    while i < n_scan
        invariant
            n_scan == packet@[3] as usize,
            packet@.len() >= 10 + 3 * n_scan,
            i <= n_scan,
            checksum == spec_checksum_upto(packet@, i as int),
        decreases n_scan - i,
    {
        let s0 = packet[10 + 3 * i];
        let s1 = packet[10 + 3 * i + 1];
        let s2 = packet[10 + 3 * i + 2];
        checksum = checksum ^ to_u16(0x00, s0);
        checksum = checksum ^ to_u16(s2, s1);
        i += 1;
    }
    checksum = checksum ^ to_u16(packet[3], packet[2]);
    checksum ^ to_u16(packet[7], packet[6])
}

/// Recomputes the checksum and compares it to the embedded one in bytes
/// nine and eight; fails exactly when the two differ, carrying the
/// embedded (expected) and recomputed (calculated) values.
pub fn err_if_checksum_mismatched(packet: &[u8]) -> (matched: Result<(), YDLidarError>)
    requires
        packet@.len() >= 10 + 3 * (packet@[3] as int),
    ensures
        ({
            let expected = spec_to_u16(packet@[9], packet@[8]);
            let calculated = spec_checksum(packet@);
            if calculated == expected {
                matched == Ok::<(), YDLidarError>(())
            } else {
                matched == Err::<(), YDLidarError>(
                    YDLidarError::ChecksumMismatch(expected, calculated),
                )
            }
        }),
{
    let calculated = calc_checksum(packet);
    let expected = to_u16(packet[9], packet[8]);
    if calculated != expected {
        Err(YDLidarError::ChecksumMismatch(expected, calculated))
    } else {
        Ok(())
    }
}

} // verus!
