use crate::angle::Angle;
use crate::flags::InterferenceFlag;
use vstd::prelude::*;

verus! {

/// Mathematical model of a scan: the four parallel sample sequences and
/// the checksum verdict.
#[verifier::ext_equal]
pub ghost struct ScanModel {
    pub angles: Seq<Angle>,
    pub distances: Seq<u16>,
    pub flags: Seq<InterferenceFlag>,
    pub intensities: Seq<u8>,
    pub checksum_correct: bool,
}

impl ScanModel {
    /// The four sample sequences stay parallel: one entry per kept sample
    /// in each of them.
    pub open spec fn wf(self) -> bool {
        &&& self.angles.len() == self.distances.len()
        &&& self.angles.len() == self.flags.len()
        &&& self.angles.len() == self.intensities.len()
    }

    /// Every angle has a positive denominator, so a consumer can divide
    /// by it to convert the angle to a floating-point value.
    pub open spec fn angles_wf(self) -> bool {
        forall|i: int| 0 <= i < self.angles.len() ==> (#[trigger] self.angles[i]).wf()
    }

    /// The model of a freshly started scan: no samples yet, checksum
    /// presumed correct until a mismatching packet is folded in.
    pub open spec fn empty() -> ScanModel {
        ScanModel {
            angles: Seq::empty(),
            distances: Seq::empty(),
            flags: Seq::empty(),
            intensities: Seq::empty(),
            checksum_correct: true,
        }
    }
}

/// One lap (full rotation) of lidar scan data.
///
/// Angles are held in degrees as exact rationals; the consumer converts
/// them to radians.
#[derive(Clone, Debug, PartialEq)]
pub struct Scan {
    /// Scan angle in degrees.
    pub angles: Vec<Angle>,
    /// Distance to an object, in millimeters.
    pub distances: Vec<u16>,
    /// Interference status of the returned signal.
    pub flags: Vec<InterferenceFlag>,
    /// Return strength of the laser pulse.
    pub intensities: Vec<u8>,
    /// Checksum validation result of the scan signal.
    pub checksum_correct: bool,
}

impl View for Scan {
    type V = ScanModel;

    open spec fn view(&self) -> ScanModel {
        ScanModel {
            angles: self.angles@,
            distances: self.distances@,
            flags: self.flags@,
            intensities: self.intensities@,
            checksum_correct: self.checksum_correct,
        }
    }
}

impl Scan {
    /// Starts an empty scan with the checksum verdict presumed correct.
    pub fn new() -> (scan: Scan)
        ensures
            scan@ == ScanModel::empty(),
            scan@.wf(),
            scan@.angles_wf(),
    {
        Scan {
            angles: Vec::new(),
            distances: Vec::new(),
            flags: Vec::new(),
            intensities: Vec::new(),
            checksum_correct: true,
        }
    }
}

} // verus!
