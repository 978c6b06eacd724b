use crate::assembler::{process_packet, spec_process_packet};
use crate::models::DeviceProfile;
use crate::packet::{first_header_at, header_at, is_beginning_of_cycle, sendable_packet_range};
use crate::scan::{Scan, ScanModel};
use std::collections::VecDeque;
use vstd::prelude::*;

verus! {

/// Two offsets cannot both be the first sync-marker offset.
pub proof fn lemma_first_header_unique(buffer: Seq<u8>, s1: int, s2: int)
    requires
        first_header_at(buffer, s1),
        first_header_at(buffer, s2),
    ensures
        s1 == s2,
{
    if s1 < s2 {
        assert(!header_at(buffer, s1));
    } else if s2 < s1 {
        assert(!header_at(buffer, s2));
    }
}

/// The packet-parsing stage of the pipeline: buffers incoming transport
/// bytes, extracts one packet at a time, and assembles scans, handing a
/// finished scan out whenever a rotation-start packet arrives.
pub struct PacketParser {
    /// Transport bytes not yet parsed: appended at the tail, drained at
    /// the head as garbage and packets are consumed.
    pub buffer: VecDeque<u8>,
    /// The scan under construction.
    pub scan: Scan,
    /// Capability profile of the sensor the bytes come from.
    pub profile: DeviceProfile,
}

impl PacketParser {
    /// Starts a parser with an empty buffer and a fresh scan.
    pub fn new(profile: DeviceProfile) -> (parser: PacketParser)
        ensures
            parser.buffer@ == Seq::<u8>::empty(),
            parser.scan@ == ScanModel::empty(),
            parser.profile == profile,
    {
        PacketParser { buffer: VecDeque::new(), scan: Scan::new(), profile }
    }

    /// Appends a chunk of transport bytes to the tail of the buffer.
    pub fn extend_buffer(&mut self, data: &[u8])
        ensures
            final(self).buffer@ == old(self).buffer@ + data@,
            final(self).scan == old(self).scan,
            final(self).profile == old(self).profile,
    {
        let mut i: usize = 0;
        while i < data.len()
            invariant
                i <= data@.len(),
                self.buffer@ == old(self).buffer@ + data@.subrange(0, i as int),
                self.scan == old(self).scan,
                self.profile == old(self).profile,
            decreases data@.len() - i,
        {
            self.buffer.push_back(data[i]);
            proof {
                assert(self.buffer@ =~= old(self).buffer@ + data@.subrange(0, i + 1 as int));
            }
            i += 1;
        }
        proof {
            assert(data@.subrange(0, data@.len() as int) =~= data@);
        }
    }

    /// Makes one packet-extraction attempt on the buffered bytes.
    ///
    /// When no sync marker is buffered, or the buffer ends before the
    /// sample-count byte of the first marker, nothing changes: the parser
    /// waits for more bytes. Otherwise the garbage before the marker is
    /// dropped; if the buffer does not yet hold the whole packet the
    /// parser again waits (the partial packet stays buffered). A complete
    /// packet is removed from the buffer and folded into the scan under
    /// construction; if it is a rotation-start packet, the scan built so
    /// far is handed out first and the packet opens a fresh scan.
    pub fn advance(&mut self) -> (emitted: Option<Scan>)
        ensures
            final(self).profile == old(self).profile,
            (forall|j: int|
                0 <= j < old(self).buffer@.len() - 1 ==> !header_at(old(self).buffer@, j)) ==> {
                &&& final(self).buffer@ == old(self).buffer@
                &&& final(self).scan == old(self).scan
                &&& emitted is None
            },
            forall|s: int|
                first_header_at(old(self).buffer@, s) && s + 3 >= old(self).buffer@.len() ==> {
                    &&& final(self).buffer@ == old(self).buffer@
                    &&& final(self).scan == old(self).scan
                    &&& emitted is None
                },
            forall|s: int|
                first_header_at(old(self).buffer@, s) && s + 3 < old(self).buffer@.len() ==> {
                    let b = old(self).buffer@;
                    let plen = 10 + 3 * (b[s + 3] as int);
                    if b.len() < s + plen {
                        &&& final(self).buffer@ == b.skip(s)
                        &&& final(self).scan == old(self).scan
                        &&& emitted is None
                    } else {
                        let p = b.subrange(s, s + plen);
                        &&& final(self).buffer@ == b.skip(s + plen)
                        &&& if p[2] % 2 == 1 {
                            &&& emitted matches Some(finished) && finished == old(self).scan
                            &&& final(self).scan@ == spec_process_packet(
                                ScanModel::empty(),
                                p,
                                old(self).profile.variant,
                            )
                        } else {
                            &&& emitted is None
                            &&& final(self).scan@ == spec_process_packet(
                                old(self).scan@,
                                p,
                                old(self).profile.variant,
                            )
                        }
                    }
                },
            old(self).scan@.wf() ==> final(self).scan@.wf() && (emitted matches Some(finished)
                ==> finished@.wf()),
            old(self).scan@.angles_wf() ==> final(self).scan@.angles_wf() && (emitted matches Some(
            finished) ==> finished@.angles_wf()),
    {
        let ghost b = self.buffer@;
        let (start_index, n_packet_bytes) = match sendable_packet_range(&self.buffer) {
            Ok(t) => t,
            Err(()) => {
                return None;
            },
        };
        proof {
            assert forall|s: int| first_header_at(b, s) implies s == start_index by {
                lemma_first_header_unique(b, s, start_index as int);
            }
        }
        // Drop the garbage bytes before the sync marker.
        let mut k: usize = 0;
        while k < start_index
            invariant
                k <= start_index,
                start_index < b.len(),
                self.buffer@ == b.skip(k as int),
                self.scan == old(self).scan,
                self.profile == old(self).profile,
            decreases start_index - k,
        {
            let _ = self.buffer.pop_front();
            proof {
                assert(self.buffer@ =~= b.skip(k + 1 as int));
            }
            k += 1;
        }
        if self.buffer.len() < n_packet_bytes {
            // The packet is not fully buffered yet; keep what is there.
            return None;
        }
        // Extract the complete packet from the head of the buffer.
        let mut packet: Vec<u8> = Vec::new();
        let mut k: usize = 0;
        while k < n_packet_bytes
            invariant
                k <= n_packet_bytes,
                b.len() >= start_index + n_packet_bytes,
                packet@ == b.subrange(start_index as int, start_index + k),
                self.buffer@ == b.skip(start_index + k),
                self.scan == old(self).scan,
                self.profile == old(self).profile,
            decreases n_packet_bytes - k,
        {
            let byte = match self.buffer.pop_front() {
                Some(x) => x,
                None => {
                    proof {
                        assert(false);
                    }
                    0
                },
            };
            packet.push(byte);
            proof {
                assert(packet@ =~= b.subrange(start_index as int, start_index + k + 1));
                assert(self.buffer@ =~= b.skip(start_index + k + 1));
            }
            k += 1;
        }
        let ghost p = b.subrange(start_index as int, start_index as int + n_packet_bytes as int);
        proof {
            assert(packet@ == p);
            assert(p[3] == b[start_index + 3]);
            assert(p.len() == 10 + 3 * (p[3] as int));
        }
        let emitted: Option<Scan> = if is_beginning_of_cycle(packet.as_slice()) {
            let mut finished = Scan::new();
            core::mem::swap(&mut self.scan, &mut finished);
            Some(finished)
        } else {
            None
        };
        process_packet(&mut self.scan, packet.as_slice(), self.profile.variant);
        emitted
    }
}

} // verus!
