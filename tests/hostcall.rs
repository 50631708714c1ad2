use unincluded_segment::{Error, HostcallResult};

#[test]
fn error_codes() {
    assert_eq!(Error::Encode.code(), 1);
    assert_eq!(Error::Decode.code(), 2);
    assert_eq!(Error::LengthMismatch.code(), 3);
    assert_eq!(Error::Unknown.code(), 255);
}

#[test]
fn into_ffi_value_codes() {
    assert_eq!(HostcallResult::into_ffi_value(Ok(())), 0);
    assert_eq!(HostcallResult::into_ffi_value(Err(Error::Encode)), 1);
    assert_eq!(HostcallResult::into_ffi_value(Err(Error::Decode)), 2);
    assert_eq!(HostcallResult::into_ffi_value(Err(Error::LengthMismatch)), 3);
    assert_eq!(HostcallResult::into_ffi_value(Err(Error::Unknown)), 255);
}

#[test]
fn from_ffi_value_codes() {
    assert_eq!(HostcallResult::from_ffi_value(0), Ok(()));
    assert_eq!(HostcallResult::from_ffi_value(1), Err(Error::Encode));
    assert_eq!(HostcallResult::from_ffi_value(2), Err(Error::Decode));
    assert_eq!(HostcallResult::from_ffi_value(3), Err(Error::LengthMismatch));
    assert_eq!(HostcallResult::from_ffi_value(255), Err(Error::Unknown));
}

#[test]
fn from_ffi_value_unknown_codes() {
    for code in [4u32, 7, 254, 256, u32::MAX] {
        assert_eq!(HostcallResult::from_ffi_value(code), Err(Error::Unknown));
    }
}

#[test]
fn ffi_round_trip() {
    let outcomes = [
        Ok(()),
        Err(Error::Encode),
        Err(Error::Decode),
        Err(Error::LengthMismatch),
        Err(Error::Unknown),
    ];
    for v in outcomes {
        assert_eq!(HostcallResult::from_ffi_value(HostcallResult::into_ffi_value(v)), v);
    }
    for code in [0u32, 1, 2, 3, 255] {
        assert_eq!(HostcallResult::into_ffi_value(HostcallResult::from_ffi_value(code)), code);
    }
    assert_eq!(HostcallResult::into_ffi_value(HostcallResult::from_ffi_value(9)), 255);
}
