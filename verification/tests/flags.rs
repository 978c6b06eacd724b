use ydlidar_driver::{to_flag, InterferenceFlag};

#[test]
fn lib_test_to_flag() {
    assert_eq!(to_flag(2), InterferenceFlag::SpecularReflection);
    assert_eq!(to_flag(3), InterferenceFlag::AmbientLight);
    assert_eq!(to_flag(1), InterferenceFlag::Nothing);
}

#[test]
fn flags_test_to_flag() {
    assert_eq!(to_flag(2), InterferenceFlag::SpecularReflection);
    assert_eq!(to_flag(3), InterferenceFlag::AmbientLight);
    assert_eq!(to_flag(1), InterferenceFlag::Nothing);
}

#[test]
fn to_flag_zero_is_nothing() {
    assert_eq!(to_flag(0), InterferenceFlag::Nothing);
}
