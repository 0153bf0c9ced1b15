use automation_core::capture::{frame_from_raw, process_capture};
use automation_core::errors::Error;

#[test]
fn messages_name_each_failure() {
    assert_eq!(Error::NotFound.message(), "Monitor not found");
    assert_eq!(
        Error::InvalidArgument("Invalid mouse button".to_string()).message(),
        "Invalid mouse button"
    );
    assert_eq!(
        Error::UnknownKey("volume_knob".to_string()).message(),
        "Unknown key: volume_knob"
    );
    assert_eq!(
        Error::Platform("display handle lost".to_string()).message(),
        "display handle lost"
    );
    assert_eq!(
        Error::Encode("buffer shortfall".to_string()).message(),
        "buffer shortfall"
    );
}

#[test]
fn zero_sized_target_is_an_encode_failure() {
    let frame = frame_from_raw(4, 4, vec![7u8; 64]).unwrap();
    let err = process_capture(&frame, 0, 0, None).unwrap_err();
    assert!(matches!(err, Error::Encode(_)));
}
