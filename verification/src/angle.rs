use crate::numeric::{angle_raw, spec_angle_raw};
use vstd::prelude::*;

verus! {

/// Full turn in raw angle units (1/64 degree): 360 times 64.
pub const FULL_TURN_RAW: u16 = 23040;

/// An angle in degrees as an exact rational number `num / den`.
///
/// The wire carries angles in units of 1/64 degree, and interpolation
/// across the `n` samples of a packet divides by `n - 1`; every angle this
/// driver computes is therefore an exact multiple of `1 / (64 * (n - 1))`
/// degree. Holding the numerator and denominator keeps the angle exact;
/// conversion to radians is left to the consumer.
#[derive(Clone, Copy, Debug, PartialEq, Eq, Structural)]
pub struct Angle {
    /// Numerator, in units of `1 / den` degree.
    pub num: u64,
    /// Denominator: 64 times the sample gap count of the packet.
    pub den: u64,
}

impl Angle {
    /// A meaningful angle has a positive denominator.
    pub open spec fn wf(self) -> bool {
        self.den > 0
    }
}

/// The angle told by a two-byte wire field, in whole 1/64-degree units.
pub open spec fn spec_angle_of_raw(raw: u16) -> Angle {
    Angle { num: raw as u64, den: 64 }
}

/// Decodes a two-byte angle field to degrees.
pub fn to_angle(bit1: u8, bit2: u8) -> (angle: Angle)
    ensures
        angle == spec_angle_of_raw(spec_angle_raw(bit1, bit2)),
        angle.wf(),
{
    Angle { num: angle_raw(bit1, bit2) as u64, den: 64 }
}

/// The angular distance swept from the start angle to the end angle, in
/// raw units: direct when the start is below the end, otherwise routed
/// through a full turn because the rotation crossed the zero mark.
pub open spec fn spec_angle_diff(raw0: u16, raw1: u16) -> int {
    if raw0 < raw1 {
        raw1 - raw0
    } else {
        raw1 - raw0 + FULL_TURN_RAW
    }
}

/// Numerator of the interpolated angle of sample `i`, over the common
/// denominator `64 * (n - 1)`: the start angle plus `i` angular steps,
/// reduced modulo a full turn.
pub open spec fn spec_interp_num(raw0: u16, raw1: u16, n: int, i: int) -> int {
    ((raw0 as int) * (n - 1) + i * spec_angle_diff(raw0, raw1)) % ((FULL_TURN_RAW as int) * (n
        - 1))
}

/// The interpolated angle of sample `i` among `n`, in degrees.
pub open spec fn spec_interp_angle(raw0: u16, raw1: u16, n: int, i: int) -> Angle {
    Angle {
        num: spec_interp_num(raw0, raw1, n, i) as u64,
        den: (64 * (n - 1)) as u64,
    }
}

/// Bounds of the interpolation numerator before the modulo: it never goes
/// negative (even when a malformed packet makes the angular step
/// negative), and it stays well under the 64-bit limit.
proof fn lemma_interp_num_bounds(raw0: u16, raw1: u16, n: int, i: int)
    requires
        2 <= n <= 255,
        0 <= i < n,
    ensures
        0 <= (raw0 as int) * (n - 1) + i * spec_angle_diff(raw0, raw1),
        (raw0 as int) * (n - 1) + i * spec_angle_diff(raw0, raw1) <= 0x4000_0000,
{
    let diff = spec_angle_diff(raw0, raw1);
    let nm1 = n - 1;
    assert(-(0x10000) <= diff <= 0x10000 + 23040);
    if diff >= 0 {
        assert(0 <= i * diff <= 254 * (0x10000 + 23040)) by (nonlinear_arith)
            requires
                0 <= i <= 254,
                0 <= diff <= 0x10000 + 23040,
        ;
        assert(0 <= (raw0 as int) * nm1 <= 0xFFFF * 254) by (nonlinear_arith)
            requires
                0 <= raw0 <= 0xFFFF,
                0 <= nm1 <= 254,
        ;
    } else {
        // A negative step arises only when the end angle sits more than a
        // full turn below the start angle; even then the line from
        // raw0 * (n - 1) down to (raw1 + full turn) * (n - 1) stays at or
        // above zero, because both endpoints do.
        assert(raw0 as int + diff == raw1 as int + FULL_TURN_RAW as int);
        assert((raw0 as int) * nm1 + i * diff >= (raw0 as int + diff) * i) by (nonlinear_arith)
            requires
                0 <= i <= nm1,
                diff < 0,
                raw0 >= 0,
        ;
        assert((raw0 as int + diff) * i >= 0) by (nonlinear_arith)
            requires
                raw0 as int + diff >= 0,
                i >= 0,
        ;
        assert(0 <= (raw0 as int) * nm1 <= 0xFFFF * 254) by (nonlinear_arith)
            requires
                0 <= raw0 <= 0xFFFF,
                0 <= nm1 <= 254,
        ;
        assert(i * diff <= 0) by (nonlinear_arith)
            requires
                i >= 0,
                diff < 0,
        ;
    }
}

/// Computes the interpolated angle of sample `i` among the `n` samples of
/// a packet whose start and end angle fields decode to `raw0` and `raw1`.
pub fn interp_angle(raw0: u16, raw1: u16, n: usize, i: usize) -> (angle: Angle)
    requires
        2 <= n <= 255,
        i < n,
    ensures
        angle == spec_interp_angle(raw0, raw1, n as int, i as int),
        angle.wf(),
{
    let nm1: u64 = (n as u64) - 1;
    let r0: u64 = raw0 as u64;
    let r1: u64 = raw1 as u64;
    let full: u64 = FULL_TURN_RAW as u64;
    let modulus: u64 = full * nm1;
    proof {
        lemma_interp_num_bounds(raw0, raw1, n as int, i as int);
    }
    let ghost diff = spec_angle_diff(raw0, raw1);
    let ghost x = (raw0 as int) * (n - 1) + (i as int) * diff;
    let numer: u64 = if r0 < r1 {
        let d: u64 = r1 - r0;
        assert((i as u64) * d == (i as int) * diff && (r0 * nm1) as int == (raw0 as int) * (n
            - 1) as int) by (nonlinear_arith)
            requires
                d == diff,
                r0 == raw0,
                i <= 254,
                d <= 0xFFFF,
                nm1 == n - 1,
                n <= 255,
                r0 <= 0xFFFF,
        ;
        r0 * nm1 + (i as u64) * d
    } else if r1 + full >= r0 {
        let d: u64 = r1 + full - r0;
        assert((i as u64) * d == (i as int) * diff && (r0 * nm1) as int == (raw0 as int) * (n
            - 1) as int) by (nonlinear_arith)
            requires
                d == diff,
                r0 == raw0,
                i <= 254,
                d <= 0x10000 + 23040,
                nm1 == n - 1,
                n <= 255,
                r0 <= 0xFFFF,
        ;
        r0 * nm1 + (i as u64) * d
    } else {
        // The angular step is negative; subtract its magnitude instead.
        let d: u64 = r0 - (r1 + full);
        assert(r0 * nm1 <= 0xFFFF * 254 && (i as u64) * d <= 254 * 0xFFFF && r0 * nm1 >= (
        i as u64) * d && (r0 * nm1 - (i as u64) * d) as int == x) by (nonlinear_arith)
            requires
                d == -diff,
                x == (raw0 as int) * ((n as int) - 1) + (i as int) * diff,
                r0 == raw0,
                0 <= i <= nm1,
                d <= r0 <= 0xFFFF,
                nm1 == n - 1,
                n <= 255,
        ;
        r0 * nm1 - (i as u64) * d
    };
    assert(numer as int == x);
    assert(modulus as int == (FULL_TURN_RAW as int) * (n - 1)) by (nonlinear_arith)
        requires
            modulus == full * nm1,
            full == FULL_TURN_RAW,
            nm1 == n - 1,
            n <= 255,
    ;
    assert(modulus > 0) by (nonlinear_arith)
        requires
            modulus == full * nm1,
            full > 0,
            nm1 >= 1,
    ;
    let den: u64 = 64 * nm1;
    Angle { num: numer % modulus, den }
}

} // verus!
