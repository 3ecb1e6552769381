use abc::c;
use abc::out_payload;
use abc::write_failure;
use abc::MountReadFailed;

#[test]
fn written_gives_the_greatest_value() {
    assert_eq!(c(true), u32::MAX);
    assert_eq!(c(true), 4294967295);
}

#[test]
fn not_written_gives_four_hundred_four() {
    assert_eq!(c(false), 404);
}

#[test]
fn payload_is_the_two_digits() {
    assert_eq!(out_payload(), b"42".to_vec());
    assert_eq!(out_payload().len(), 2);
}

#[test]
fn write_failure_is_the_out_mount() {
    assert_eq!(write_failure(false), Some(MountReadFailed::Out));
    assert_eq!(write_failure(true), None);
}
