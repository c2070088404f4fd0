use rs_teststand::Error;

#[test]
fn known_engine_code_becomes_a_named_error() {
    let error = Error::from_hresult(-17000, 0);
    assert!(
        matches!(error, Error::Engine { code: -17000, .. }),
        "expected Engine variant, got {error:?}"
    );
    assert_eq!(error.code_name(), Some("TS_Err_OutOfMemory"));
    assert!(
        error.message().contains("TS_Err_OutOfMemory"),
        "message should name the error, got {}",
        error.message()
    );
}

#[test]
fn a_member_failure_names_the_dispid_that_refused() {
    let error = Error::from_hresult(-17308, 0x1f5);
    let message = error.message();
    assert!(
        message.contains("TS_Err_UnexpectedType"),
        "should name the code, got {message}"
    );
    assert!(
        message.contains("0x1f5"),
        "should name the member that refused, got {message}"
    );
}

#[test]
fn a_failure_outside_a_member_call_omits_the_dispid() {
    let error = Error::from_hresult(-17000, 0);
    assert!(!error.message().contains("DISPID"), "got {}", error.message());
}

#[test]
fn unknown_code_stays_an_opaque_com_error() {
    let error = Error::from_hresult(-2_147_209_215, 0);
    assert!(
        matches!(error, Error::Com { .. }),
        "expected Com variant, got {error:?}"
    );
    assert_eq!(error.code_name(), None);
    assert_eq!(error.code(), Some(-2_147_209_215));
}

#[test]
fn type_mismatch_carries_no_code() {
    let error = Error::UnexpectedType {
        expected: "I32",
        actual: "Str",
    };
    assert_eq!(error.code(), None);
    assert_eq!(error.code_name(), None);
}

#[test]
fn messages_are_written_exactly() {
    assert_eq!(
        Error::from_hresult(-17000, 0).message(),
        "engine error TS_Err_OutOfMemory (-17000)"
    );
    assert_eq!(
        Error::from_hresult(-17308, 0x1f5).message(),
        "engine error TS_Err_UnexpectedType (-17308) from DISPID 0x1f5"
    );
    assert_eq!(
        Error::Engine { code: 12, dispid: 0 }.message(),
        "engine error 12"
    );
    assert_eq!(
        Error::from_hresult(-2_147_209_215, 0).message(),
        format!("COM call failed (HRESULT {:#010x})", -2_147_209_215_i32)
    );
    assert_eq!(
        Error::Com { hresult: 5, dispid: -1 }.message(),
        "COM call failed (HRESULT 0x00000005) from DISPID 0xffffffff"
    );
    assert_eq!(
        Error::UnexpectedType { expected: "I32", actual: "Str" }.message(),
        "unexpected value type: expected I32, got Str"
    );
    assert_eq!(
        Error::UnknownLicenseType { bits: -2147483648 }.message(),
        "unknown license type -2147483648"
    );
    assert_eq!(Error::NoLicense.message(), "no license could be acquired");
}

#[test]
fn the_engine_names_its_own_codes_only() {
    assert!(matches!(Error::from_hresult(-17308, 3), Error::Engine { code: -17308, dispid: 3 }));
    assert!(matches!(Error::from_hresult(0, 0), Error::Com { hresult: 0, dispid: 0 }));
    assert_eq!(Error::from_hresult(-17308, 3).code(), Some(-17308));
    assert_eq!(Error::NoLicense.code(), None);
    assert_eq!(Error::UnknownLicenseType { bits: 4 }.code_name(), None);
}
