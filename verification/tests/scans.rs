use ydlidar_driver::{
    profile_for_model, Angle, InterferenceFlag, PacketParser, Scan, YdlidarModels,
};

fn degrees(angle: &Angle) -> f64 {
    (angle.num as f64) / (angle.den as f64)
}

fn assert_parallel(scan: &Scan) {
    assert_eq!(scan.angles.len(), scan.distances.len());
    assert_eq!(scan.angles.len(), scan.flags.len());
    assert_eq!(scan.angles.len(), scan.intensities.len());
}

const NORMAL_STREAM: [u8; 84] = [
    // beginning of a lap
    0xAA, 0x55, 0xC7, 0x01, 0x01, 0x15, 0x01, 0x15, 0x1B, 0x56, // packet header
    0x14, 0x62, 0x02, // SpecularReflection
    // lap data
    0xAA, 0x55, 0xB0, 0x10, 0x81, 0x16, 0x01, 0x2D, 0x57, 0x7D, // packet header
    0xDD, 0x76, 0x03, // Specular Reflection
    0xD4, 0x76, 0x03, // Specular Reflection
    0xC3, 0x72, 0x03, // Specular Reflection
    0xB3, 0x7B, 0x03, // Ambient Light
    0x8E, 0x8A, 0x03, // Specular Reflection
    0x97, 0x6E, 0x04, // Specular Reflection
    0x9C, 0x22, 0x05, // Specular Reflection
    0xA7, 0x6A, 0x05, // Specular Reflection
    0xAB, 0x7A, 0x05, // Specular Reflection
    0x93, 0x82, 0x05, // Specular Reflection
    0x6D, 0xC2, 0x05, // Specular Reflection
    0x55, 0xA6, 0x05, // Specular Reflection
    0x57, 0x16, 0x05, // Specular Reflection
    0x67, 0x62, 0x02, // Specular Reflection
    0x80, 0x16, 0x02, // Specular Reflection
    0x9B, 0xE6, 0x01, // Specular Reflection
    // new lap
    0xAA, 0x55, 0xC7, 0x01, 0x81, 0x2E, 0x81, 0x2E, 0x1B, 0x56, // packet header
    0x14, 0x62, 0x02, // This signal will be regarded as a new lap
];

const EXPECTED_DISTANCES: [u16; 17] = [
    ((0x62 as u16) >> 2) + ((0x02 as u16) << 6),
    ((0x76 as u16) >> 2) + ((0x03 as u16) << 6),
    ((0x76 as u16) >> 2) + ((0x03 as u16) << 6),
    ((0x72 as u16) >> 2) + ((0x03 as u16) << 6),
    ((0x7B as u16) >> 2) + ((0x03 as u16) << 6),
    ((0x8A as u16) >> 2) + ((0x03 as u16) << 6),
    ((0x6E as u16) >> 2) + ((0x04 as u16) << 6),
    ((0x22 as u16) >> 2) + ((0x05 as u16) << 6),
    ((0x6A as u16) >> 2) + ((0x05 as u16) << 6),
    ((0x7A as u16) >> 2) + ((0x05 as u16) << 6),
    ((0x82 as u16) >> 2) + ((0x05 as u16) << 6),
    ((0xC2 as u16) >> 2) + ((0x05 as u16) << 6),
    ((0xA6 as u16) >> 2) + ((0x05 as u16) << 6),
    ((0x16 as u16) >> 2) + ((0x05 as u16) << 6),
    ((0x62 as u16) >> 2) + ((0x02 as u16) << 6),
    ((0x16 as u16) >> 2) + ((0x02 as u16) << 6),
    ((0xE6 as u16) >> 2) + ((0x01 as u16) << 6),
];

#[test]
fn parser_normal_data_full_profile() {
    let mut parser = PacketParser::new(profile_for_model(YdlidarModels::TMiniPro));
    parser.extend_buffer(&NORMAL_STREAM);

    // The first packet starts a rotation: the initial, empty scan is
    // handed out before the packet's own sample enters the new scan.
    let scan = parser.advance().expect("first rotation start must emit");
    assert_eq!(scan.angles.len(), 0);
    assert_parallel(&scan);

    // The sixteen-sample packet extends the scan in progress.
    assert!(parser.advance().is_none());

    // The third packet starts the next rotation and flushes the lap.
    let scan = parser.advance().expect("second rotation start must emit");
    assert_eq!(scan.angles.len(), 17);
    assert_parallel(&scan);

    let expected = [
        42., 45., 48., 51., 54., 57., 60., 63., 66., 69., 72., 75., 78., 81., 84., 87., 90.,
    ];
    for i in 0..expected.len() {
        assert!(f64::abs(degrees(&scan.angles[i]) - expected[i]) < 1e-8);
    }

    let expected_intensities = [
        0x14, 0xDD, 0xD4, 0xC3, 0xB3, 0x8E, 0x97, 0x9C, 0xA7, 0xAB, 0x93, 0x6D, 0x55, 0x57, 0x67,
        0x80, 0x9B,
    ];
    assert_eq!(scan.intensities, expected_intensities);

    assert_eq!(scan.distances, EXPECTED_DISTANCES);

    let expected_flags = vec![
        InterferenceFlag::SpecularReflection,
        InterferenceFlag::SpecularReflection,
        InterferenceFlag::SpecularReflection,
        InterferenceFlag::SpecularReflection,
        InterferenceFlag::AmbientLight,
        InterferenceFlag::SpecularReflection,
        InterferenceFlag::SpecularReflection,
        InterferenceFlag::SpecularReflection,
        InterferenceFlag::SpecularReflection,
        InterferenceFlag::SpecularReflection,
        InterferenceFlag::SpecularReflection,
        InterferenceFlag::SpecularReflection,
        InterferenceFlag::SpecularReflection,
        InterferenceFlag::SpecularReflection,
        InterferenceFlag::SpecularReflection,
        InterferenceFlag::SpecularReflection,
        InterferenceFlag::SpecularReflection,
    ];
    assert_eq!(scan.flags, expected_flags);

    assert!(scan.checksum_correct);
}

#[test]
fn parser_normal_data_reduced_profile() {
    // The same byte stream read as the reduced-capability model: every
    // distance is in range so all seventeen samples stay, but flags and
    // intensities are placeholders, and the first and last sample of the
    // sixteen-sample packet are pinned to its start and end angle fields.
    let mut parser = PacketParser::new(profile_for_model(YdlidarModels::X2));
    parser.extend_buffer(&NORMAL_STREAM);

    let scan = parser.advance().expect("first rotation start must emit");
    assert_eq!(scan.angles.len(), 0);

    assert!(parser.advance().is_none());

    let scan = parser.advance().expect("second rotation start must emit");
    assert_eq!(scan.angles.len(), 17);
    assert_parallel(&scan);

    let expected = [
        42., 45., 48., 51., 54., 57., 60., 63., 66., 69., 72., 75., 78., 81., 84., 87., 90.,
    ];
    for i in 0..expected.len() {
        assert!(f64::abs(degrees(&scan.angles[i]) - expected[i]) < 1e-8);
    }
    // The pinned first and last samples carry the packet's own angle
    // fields exactly, in 1/64 degree.
    assert_eq!(scan.angles[1], Angle { num: 2880, den: 64 });
    assert_eq!(scan.angles[16], Angle { num: 5760, den: 64 });

    assert_eq!(scan.intensities, [255u8; 17]);
    assert_eq!(scan.flags, vec![InterferenceFlag::Nothing; 17]);
    assert_eq!(scan.distances, EXPECTED_DISTANCES);
    assert!(scan.checksum_correct);
}

#[test]
fn parser_mod_at_360() {
    let mut parser = PacketParser::new(profile_for_model(YdlidarModels::TMiniPro));

    let stream = [
        // lap data: start angle near 354 degrees, end angle near 30
        0xAA, 0x55, 0xB0, 0x10, 0x01, 0x96, 0x01, 0x0F, 0xD6, 0xDF, 0xDD, 0x76, 0x03, 0xD4, 0x76,
        0x03, 0xC3, 0x72, 0x03, 0xB3, 0x7A, 0x03, 0x8E, 0x8A, 0x03, 0x97, 0x6E, 0x04, 0x9C, 0x22,
        0x05, 0xA7, 0x6A, 0x05, 0xAB, 0x7A, 0x05, 0x93, 0x82, 0x05, 0x6D, 0xC2, 0x05, 0x55, 0xA6,
        0x05, 0x57, 0x16, 0x05, 0x67, 0x62, 0x02, 0x80, 0x16, 0x02, 0x9B, 0xE6, 0x01,
        // new lap
        0xAA, 0x55, 0xC7, 0x01, 0x81, 0x2E, 0x81, 0x2E, 0x1B, 0x56, 0x14, 0x62, 0x02,
    ];
    parser.extend_buffer(&stream);

    assert!(parser.advance().is_none());
    let scan = parser.advance().expect("rotation start must emit");
    assert_eq!(scan.angles.len(), 16);
    assert_parallel(&scan);

    let expected = [
        300., 306., 312., 318., 324., 330., 336., 342., 348., 354., 0., 6., 12., 18., 24., 30.,
    ];
    for i in 0..expected.len() {
        assert!(f64::abs(degrees(&scan.angles[i]) - expected[i]) < 1e-8);
    }

    assert!(scan.checksum_correct);
}

#[test]
fn parser_checksum_mismatch_keeps_samples() {
    let mut parser = PacketParser::new(profile_for_model(YdlidarModels::TMiniPro));

    let stream = [
        // lap data, with the checksum low byte altered from 0xDF to 0xDA
        0xAA, 0x55, 0xB0, 0x10, 0x01, 0x96, 0x01, 0x0F, 0xD6, 0xDA, 0xDD, 0x76, 0x03, 0xD4, 0x76,
        0x03, 0xC3, 0x72, 0x03, 0xB3, 0x7A, 0x03, 0x8E, 0x8A, 0x03, 0x97, 0x6E, 0x04, 0x9C, 0x22,
        0x05, 0xA7, 0x6A, 0x05, 0xAB, 0x7A, 0x05, 0x93, 0x82, 0x05, 0x6D, 0xC2, 0x05, 0x55, 0xA6,
        0x05, 0x57, 0x16, 0x05, 0x67, 0x62, 0x02, 0x80, 0x16, 0x02, 0x9B, 0xE6, 0x01,
        // new lap
        0xAA, 0x55, 0xC7, 0x01, 0x81, 0x2E, 0x81, 0x2E, 0x1B, 0x56, 0x14, 0x62, 0x02,
    ];
    parser.extend_buffer(&stream);

    assert!(parser.advance().is_none());
    let scan = parser.advance().expect("rotation start must emit");
    // The samples and angles are still produced; only the verdict falls.
    assert_eq!(scan.angles.len(), 16);
    assert_parallel(&scan);
    assert!(!scan.checksum_correct);
}

#[test]
fn parser_partial_packet_waits_without_consuming() {
    let mut parser = PacketParser::new(profile_for_model(YdlidarModels::TMiniPro));

    // A valid header declaring sixteen samples (58 bytes in all), but only
    // the first thirteen bytes have arrived.
    let partial = [
        0xAA, 0x55, 0xB0, 0x10, 0x81, 0x16, 0x01, 0x2D, 0x57, 0x7D, 0xDD, 0x76, 0x03,
    ];
    parser.extend_buffer(&partial);

    assert!(parser.advance().is_none());
    assert_eq!(parser.buffer.len(), partial.len());
    let buffered: Vec<u8> = parser.buffer.iter().copied().collect();
    assert_eq!(buffered, partial);
    assert_eq!(parser.scan.angles.len(), 0);
}

#[test]
fn parser_drops_garbage_before_marker() {
    let mut parser = PacketParser::new(profile_for_model(YdlidarModels::TMiniPro));

    let mut stream: Vec<u8> = vec![0x01, 0x02, 0xAB];
    stream.extend_from_slice(&[
        0xAA, 0x55, 0xC7, 0x01, 0x01, 0x15, 0x01, 0x15, 0x1B, 0x56, 0x14, 0x62, 0x02,
    ]);
    parser.extend_buffer(&stream);

    let scan = parser.advance().expect("rotation start must emit");
    assert_eq!(scan.angles.len(), 0);
    assert_eq!(parser.buffer.len(), 0);
    // The packet's own sample went into the new scan in progress.
    assert_eq!(parser.scan.angles.len(), 1);
    assert!(f64::abs(degrees(&parser.scan.angles[0]) - 42.) < 1e-8);
}

#[test]
fn reduced_profile_filters_out_of_range_distances() {
    let mut parser = PacketParser::new(profile_for_model(YdlidarModels::X2));

    // A rotation-start packet whose single sample has distance zero: the
    // reduced profile drops it from all four sequences.
    let stream = [
        0xAA, 0x55, 0xC7, 0x01, 0x01, 0x15, 0x01, 0x15, 0x1B, 0x56, 0x14, 0x00, 0x00, // d == 0
        // next lap flushes the scan
        0xAA, 0x55, 0xC7, 0x01, 0x81, 0x2E, 0x81, 0x2E, 0x1B, 0x56, 0x14, 0x62, 0x02,
    ];
    parser.extend_buffer(&stream);

    let scan = parser.advance().expect("first rotation start must emit");
    assert_eq!(scan.angles.len(), 0);
    let scan = parser.advance().expect("second rotation start must emit");
    assert_eq!(scan.angles.len(), 0);
    assert_parallel(&scan);

    // The full profile keeps the same sample.
    let mut parser = PacketParser::new(profile_for_model(YdlidarModels::TMiniPro));
    parser.extend_buffer(&stream);
    parser.advance().expect("first rotation start must emit");
    let scan = parser.advance().expect("second rotation start must emit");
    assert_eq!(scan.angles.len(), 1);
    assert_eq!(scan.distances, vec![0]);
}
