use crate::angle::{spec_angle_of_raw, spec_interp_angle, to_angle, interp_angle, Angle};
use crate::constants::LIDAR_MAX_DISTANCE_VALUE;
use crate::flags::{spec_to_flag, to_flag, InterferenceFlag};
use crate::models::AssemblyVariant;
use crate::numeric::{angle_raw, calc_distance, spec_angle_raw, spec_calc_distance, spec_to_u16};
use crate::packet::{err_if_checksum_mismatched, n_scan_samples, spec_checksum};
use crate::scan::{Scan, ScanModel};
use vstd::prelude::*;

verus! {

/// The distance carried by sample `i` of a packet.
pub open spec fn spec_sample_distance(packet: Seq<u8>, i: int) -> u16 {
    spec_calc_distance(packet[10 + 3 * i + 1], packet[10 + 3 * i + 2])
}

/// Whether sample `i` enters the scan: the full-capability variant keeps
/// every sample, the reduced one drops distances that are zero or beyond
/// the valid range.
pub open spec fn spec_sample_kept(variant: AssemblyVariant, packet: Seq<u8>, i: int) -> bool {
    match variant {
        AssemblyVariant::Full => true,
        AssemblyVariant::Reduced => {
            let d = spec_sample_distance(packet, i);
            d != 0 && d <= LIDAR_MAX_DISTANCE_VALUE
        },
    }
}

/// The interference flag of sample `i`: decoded from the low two bits of
/// the sample's second byte, or the no-interference placeholder when the
/// model does not report flags.
pub open spec fn spec_sample_flag(
    variant: AssemblyVariant,
    packet: Seq<u8>,
    i: int,
) -> InterferenceFlag {
    match variant {
        AssemblyVariant::Full => spec_to_flag((packet[10 + 3 * i + 1] as int % 4) as u8),
        AssemblyVariant::Reduced => InterferenceFlag::Nothing,
    }
}

/// The intensity of sample `i`: the sample's first byte, or the constant
/// placeholder when the model does not report intensities.
pub open spec fn spec_sample_intensity(variant: AssemblyVariant, packet: Seq<u8>, i: int) -> u8 {
    match variant {
        AssemblyVariant::Full => packet[10 + 3 * i],
        AssemblyVariant::Reduced => 255,
    }
}

/// The angle of sample `i`. A single-sample packet uses its start angle
/// unchanged. With several samples, the full-capability variant
/// interpolates every sample between the packet's start and end angles;
/// the reduced variant pins the first and last samples to those fields
/// exactly and interpolates only the interior ones.
pub open spec fn spec_sample_angle(variant: AssemblyVariant, packet: Seq<u8>, i: int) -> Angle {
    let n = packet[3] as int;
    let raw0 = spec_angle_raw(packet[4], packet[5]);
    let raw1 = spec_angle_raw(packet[6], packet[7]);
    if n <= 1 {
        spec_angle_of_raw(raw0)
    } else {
        match variant {
            AssemblyVariant::Full => spec_interp_angle(raw0, raw1, n, i),
            AssemblyVariant::Reduced => {
                if i == 0 {
                    spec_angle_of_raw(raw0)
                } else if i == n - 1 {
                    spec_angle_of_raw(raw1)
                } else {
                    spec_interp_angle(raw0, raw1, n, i)
                }
            },
        }
    }
}

/// The angles contributed by the first `k` samples of a packet, in sample
/// order, dropped samples omitted.
pub open spec fn spec_angles_upto(variant: AssemblyVariant, packet: Seq<u8>, k: int) -> Seq<Angle>
    decreases k,
{
    if k <= 0 {
        Seq::empty()
    } else {
        spec_angles_upto(variant, packet, k - 1) + if spec_sample_kept(variant, packet, k - 1) {
            seq![spec_sample_angle(variant, packet, k - 1)]
        } else {
            Seq::empty()
        }
    }
}

/// The distances contributed by the first `k` samples of a packet.
pub open spec fn spec_distances_upto(variant: AssemblyVariant, packet: Seq<u8>, k: int) -> Seq<u16>
    decreases k,
{
    if k <= 0 {
        Seq::empty()
    } else {
        spec_distances_upto(variant, packet, k - 1) + if spec_sample_kept(
            variant,
            packet,
            k - 1,
        ) {
            seq![spec_sample_distance(packet, k - 1)]
        } else {
            Seq::empty()
        }
    }
}

/// The interference flags contributed by the first `k` samples of a packet.
pub open spec fn spec_flags_upto(variant: AssemblyVariant, packet: Seq<u8>, k: int) -> Seq<
    InterferenceFlag,
>
    decreases k,
{
    if k <= 0 {
        Seq::empty()
    } else {
        spec_flags_upto(variant, packet, k - 1) + if spec_sample_kept(variant, packet, k - 1) {
            seq![spec_sample_flag(variant, packet, k - 1)]
        } else {
            Seq::empty()
        }
    }
}

/// The intensities contributed by the first `k` samples of a packet.
pub open spec fn spec_intensities_upto(
    variant: AssemblyVariant,
    packet: Seq<u8>,
    k: int,
) -> Seq<u8>
    decreases k,
{
    if k <= 0 {
        Seq::empty()
    } else {
        spec_intensities_upto(variant, packet, k - 1) + if spec_sample_kept(
            variant,
            packet,
            k - 1,
        ) {
            seq![spec_sample_intensity(variant, packet, k - 1)]
        } else {
            Seq::empty()
        }
    }
}

/// The scan that results from folding one complete packet into `scan`:
/// the kept samples of the packet appended to each of the four parallel
/// sequences, and the checksum verdict cleared when the packet's embedded
/// checksum does not match the recomputed one.
pub open spec fn spec_process_packet(
    scan: ScanModel,
    packet: Seq<u8>,
    variant: AssemblyVariant,
) -> ScanModel {
    let n = packet[3] as int;
    ScanModel {
        angles: scan.angles + spec_angles_upto(variant, packet, n),
        distances: scan.distances + spec_distances_upto(variant, packet, n),
        flags: scan.flags + spec_flags_upto(variant, packet, n),
        intensities: scan.intensities + spec_intensities_upto(variant, packet, n),
        checksum_correct: scan.checksum_correct && spec_checksum(packet) == spec_to_u16(
            packet[9],
            packet[8],
        ),
    }
}

/// The first `k` samples contribute the same number of entries to each of
/// the four parallel sequences.
pub proof fn lemma_upto_parallel(variant: AssemblyVariant, packet: Seq<u8>, k: int)
    ensures
        spec_angles_upto(variant, packet, k).len() == spec_distances_upto(
            variant,
            packet,
            k,
        ).len(),
        spec_angles_upto(variant, packet, k).len() == spec_flags_upto(variant, packet, k).len(),
        spec_angles_upto(variant, packet, k).len() == spec_intensities_upto(
            variant,
            packet,
            k,
        ).len(),
    decreases k,
{
    if k > 0 {
        lemma_upto_parallel(variant, packet, k - 1);
    }
}

/// Folding a packet into a scan whose four sequences are parallel yields
/// a scan whose four sequences are parallel: dropped samples leave all
/// four untouched, kept samples extend all four by one.
pub proof fn lemma_process_packet_preserves_parallel(
    scan: ScanModel,
    packet: Seq<u8>,
    variant: AssemblyVariant,
)
    requires
        scan.wf(),
    ensures
        spec_process_packet(scan, packet, variant).wf(),
{
    lemma_upto_parallel(variant, packet, packet[3] as int);
}

/// Every angle a packet contributes has a positive denominator: 64 for a
/// single-sample or pinned angle, 64 times the sample gap count otherwise.
pub proof fn lemma_upto_angles_wf(variant: AssemblyVariant, packet: Seq<u8>, k: int)
    ensures
        forall|i: int|
            0 <= i < spec_angles_upto(variant, packet, k).len() ==> (#[trigger] spec_angles_upto(
                variant,
                packet,
                k,
            )[i]).wf(),
    decreases k,
{
    if k > 0 {
        lemma_upto_angles_wf(variant, packet, k - 1);
        let prev = spec_angles_upto(variant, packet, k - 1);
        let cur = spec_angles_upto(variant, packet, k);
        assert forall|i: int| 0 <= i < cur.len() implies (#[trigger] cur[i]).wf() by {
            if i < prev.len() {
                assert(cur[i] == prev[i]);
            } else {
                assert(cur[i] == spec_sample_angle(variant, packet, k - 1));
            }
        }
    }
}

/// Folding a packet into a scan whose angles all have positive
/// denominators yields a scan whose angles all do: a consumer converting
/// angles to radians never divides by zero.
pub proof fn lemma_process_packet_preserves_angles_wf(
    scan: ScanModel,
    packet: Seq<u8>,
    variant: AssemblyVariant,
)
    requires
        scan.angles_wf(),
    ensures
        spec_process_packet(scan, packet, variant).angles_wf(),
{
    lemma_upto_angles_wf(variant, packet, packet[3] as int);
}

/// The reduced-capability profile filters by distance: every distance a
/// packet contributes under it is positive and within the valid range.
pub proof fn lemma_reduced_distances_in_range(packet: Seq<u8>, k: int)
    ensures
        forall|i: int|
            0 <= i < spec_distances_upto(AssemblyVariant::Reduced, packet, k).len() ==> {
                let d = #[trigger] spec_distances_upto(AssemblyVariant::Reduced, packet, k)[i];
                0 < d <= LIDAR_MAX_DISTANCE_VALUE
            },
    decreases k,
{
    if k > 0 {
        lemma_reduced_distances_in_range(packet, k - 1);
        let prev = spec_distances_upto(AssemblyVariant::Reduced, packet, k - 1);
        let cur = spec_distances_upto(AssemblyVariant::Reduced, packet, k);
        assert forall|i: int| 0 <= i < cur.len() implies 0 < (#[trigger] cur[i])
            <= LIDAR_MAX_DISTANCE_VALUE by {
            if i < prev.len() {
                assert(cur[i] == prev[i]);
            } else {
                assert(spec_sample_kept(AssemblyVariant::Reduced, packet, k - 1));
                assert(cur[i] == spec_sample_distance(packet, k - 1));
            }
        }
    }
}

/// Computes the angle of sample `i` of a complete packet.
fn sample_angle(packet: &[u8], i: usize, variant: AssemblyVariant) -> (angle: Angle)
    requires
        packet@.len() >= 10 + 3 * (packet@[3] as int),
        i < packet@[3],
    ensures
        angle == spec_sample_angle(variant, packet@, i as int),
{
    let n = n_scan_samples(packet);
    if n == 1 {
        return to_angle(packet[4], packet[5]);
    }
    let raw0 = angle_raw(packet[4], packet[5]);
    let raw1 = angle_raw(packet[6], packet[7]);
    match variant {
        AssemblyVariant::Full => interp_angle(raw0, raw1, n, i),
        AssemblyVariant::Reduced => {
            if i == 0 {
                to_angle(packet[4], packet[5])
            } else if i == n - 1 {
                to_angle(packet[6], packet[7])
            } else {
                interp_angle(raw0, raw1, n, i)
            }
        },
    }
}

/// Folds one complete packet into the scan under construction: clears the
/// checksum verdict on a mismatch, then appends each kept sample's angle,
/// distance, flag and intensity to the four parallel sequences.
pub fn process_packet(scan: &mut Scan, packet: &[u8], variant: AssemblyVariant)
    requires
        packet@.len() >= 10 + 3 * (packet@[3] as int),
    ensures
        final(scan)@ == spec_process_packet(old(scan)@, packet@, variant),
        old(scan)@.wf() ==> final(scan)@.wf(),
        old(scan)@.angles_wf() ==> final(scan)@.angles_wf(),
{
    proof {
        lemma_upto_parallel(variant, packet@, packet@[3] as int);
        lemma_upto_angles_wf(variant, packet@, packet@[3] as int);
    }
    if err_if_checksum_mismatched(packet).is_err() {
        scan.checksum_correct = false;
    }
    let n = n_scan_samples(packet);
    let mut i: usize = 0;
    while i < n
        invariant
            n == packet@[3] as usize,
            packet@.len() >= 10 + 3 * n,
            i <= n,
            scan.angles@ == old(scan).angles@ + spec_angles_upto(variant, packet@, i as int),
            scan.distances@ == old(scan).distances@ + spec_distances_upto(
                variant,
                packet@,
                i as int,
            ),
            scan.flags@ == old(scan).flags@ + spec_flags_upto(variant, packet@, i as int),
            scan.intensities@ == old(scan).intensities@ + spec_intensities_upto(
                variant,
                packet@,
                i as int,
            ),
            scan.checksum_correct == (old(scan).checksum_correct && spec_checksum(packet@)
                == spec_to_u16(packet@[9], packet@[8])),
        decreases n - i,
    {
        let idx = 10 + 3 * i;
        let d = calc_distance(packet[idx + 1], packet[idx + 2]);
        let keep = match variant {
            AssemblyVariant::Full => true,
            AssemblyVariant::Reduced => d != 0 && d <= LIDAR_MAX_DISTANCE_VALUE,
        };
        assert(keep == spec_sample_kept(variant, packet@, i as int));
        if keep {
            let angle = sample_angle(packet, i, variant);
            scan.angles.push(angle);
            scan.distances.push(d);
            let flag = match variant {
                AssemblyVariant::Full => to_flag(packet[idx + 1] % 4),
                AssemblyVariant::Reduced => InterferenceFlag::Nothing,
            };
            scan.flags.push(flag);
            let intensity = match variant {
                AssemblyVariant::Full => packet[idx],
                AssemblyVariant::Reduced => 255,
            };
            scan.intensities.push(intensity);
        }
        proof {
            assert(scan.angles@ =~= old(scan).angles@ + spec_angles_upto(
                variant,
                packet@,
                i + 1 as int,
            ));
            assert(scan.distances@ =~= old(scan).distances@ + spec_distances_upto(
                variant,
                packet@,
                i + 1 as int,
            ));
            assert(scan.flags@ =~= old(scan).flags@ + spec_flags_upto(
                variant,
                packet@,
                i + 1 as int,
            ));
            assert(scan.intensities@ =~= old(scan).intensities@ + spec_intensities_upto(
                variant,
                packet@,
                i + 1 as int,
            ));
        }
        i += 1;
    }
    proof {
        assert(scan@ =~= spec_process_packet(old(scan)@, packet@, variant));
    }
}

} // verus!
