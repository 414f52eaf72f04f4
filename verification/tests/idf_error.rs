use lib::{int_to_decimal, IdfError, IdfErrorError, NonZeroI32, ESP_IDF_ERROR_CODES};

#[test]
#[should_panic]
fn test_success_code() {
    let _ = IdfError::try_from(0).unwrap();
}

#[test]
#[should_panic]
fn test_invalid_code() {
    let _ = IdfError::try_from(12).unwrap();
}

#[test]
fn test_valid_error_code_equ() {
    let err = IdfError::try_from(0xe002).unwrap();
    assert_eq!(err.code(), 0xe002);
    assert_eq!(err, IdfError::try_from(0xe002).unwrap());
}

#[test]
fn test_valid_error_code_name() {
    let err = IdfError::try_from(0xe002).unwrap();
    assert_eq!(err.error_name(), "ESP_ERR_TCP_TRANSPORT_CONNECTION_CLOSED_BY_FIN");
}

#[test]
fn test_valid_error_code_info() {
    let err = IdfError::try_from(0xe002).unwrap();
    assert_eq!(err.error_info(), "[ESP_ERR_TCP_TRANSPORT_CONNECTION_CLOSED_BY_FIN]: Read FIN from peer and the connection has closed (in a clean way)");
}

#[test]
fn test_valid_error_code_format() {
    let err = IdfError::try_from(0xe002).unwrap();
    assert_eq!(err.to_string(), "[ESP_ERR_TCP_TRANSPORT_CONNECTION_CLOSED_BY_FIN]: Read FIN from peer and the connection has closed (in a clean way)");
}

#[test]
fn zero_is_success_not_error() {
    assert!(matches!(IdfError::try_from(0), Err(IdfErrorError::SuccessCodePassed)));
}

#[test]
fn unknown_codes_are_invalid() {
    assert!(matches!(IdfError::try_from(12), Err(IdfErrorError::InvalidErrorCode(c)) if c.get() == 12));
    assert!(matches!(IdfError::try_from(-2), Err(IdfErrorError::InvalidErrorCode(c)) if c.get() == -2));
    assert!(matches!(IdfError::try_from(0x100), Err(IdfErrorError::InvalidErrorCode(c)) if c.get() == 0x100));
    assert!(matches!(IdfError::try_from(0xc003), Err(IdfErrorError::InvalidErrorCode(c)) if c.get() == 0xc003));
    assert!(matches!(IdfError::try_from(i32::MIN), Err(IdfErrorError::InvalidErrorCode(c)) if c.get() == i32::MIN));
    assert!(matches!(IdfError::try_from(i32::MAX), Err(IdfErrorError::InvalidErrorCode(c)) if c.get() == i32::MAX));
}

#[test]
fn every_listed_code_converts_and_round_trips() {
    assert_eq!(ESP_IDF_ERROR_CODES.len(), 213);
    for &code in ESP_IDF_ERROR_CODES.iter() {
        let err = IdfError::try_from(code).unwrap();
        assert_eq!(err.code(), code);
        assert_eq!(IdfError::try_from(err.code()).unwrap(), err);
    }
}

#[test]
fn only_listed_codes_convert() {
    for code in -0x200..0x10000 {
        let listed = ESP_IDF_ERROR_CODES.contains(&code);
        assert_eq!(IdfError::try_from(code).is_ok(), listed);
    }
}

#[test]
fn every_description_starts_with_the_bracketed_name() {
    for &code in ESP_IDF_ERROR_CODES.iter() {
        let err = IdfError::try_from(code).unwrap();
        let prefix = format!("[{}]: ", err.error_name());
        assert!(err.error_info().starts_with(&prefix));
        assert!(err.error_info().len() > prefix.len());
        assert_eq!(err.to_string(), err.error_info());
    }
}

#[test]
fn first_and_last_codes() {
    let fail = IdfError::try_from(-1).unwrap();
    assert_eq!(fail.error_name(), "ESP_FAIL");
    assert_eq!(fail.error_info(), "[ESP_FAIL]: Generic esp_err_t code indicating failure");
    let no_mem = IdfError::try_from(0x101).unwrap();
    assert_eq!(no_mem.error_name(), "ESP_ERR_NO_MEM");
    let last = IdfError::try_from(0xf004).unwrap();
    assert_eq!(last.error_name(), "ESP_ERR_NVS_SEC_HMAC_XTS_KEYS_DERIV_FAILED");
}

#[test]
fn description_with_non_ascii_text() {
    let err = IdfError::try_from(0x1106).unwrap();
    assert_eq!(err.error_name(), "ESP_ERR_NVS_INVALID_NAME");
    assert_eq!(err.error_info(), "[ESP_ERR_NVS_INVALID_NAME]: Namespace name doesn’t satisfy constraints");
}

#[test]
fn conversion_error_messages() {
    assert_eq!(IdfErrorError::SuccessCodePassed.to_string(), "supplied exit code was ESP_OK");
    assert_eq!(IdfErrorError::InvalidErrorCode(NonZeroI32::new(12).unwrap()).to_string(), "invalid error code: 12");
    assert_eq!(IdfErrorError::InvalidErrorCode(NonZeroI32::new(-5).unwrap()).to_string(), "invalid error code: -5");
    assert_eq!(
        IdfErrorError::SuccessCodePassed.debug_string(),
        "recieved an esp-idf success exit code (0) when an error code was expected"
    );
    assert_eq!(
        IdfErrorError::InvalidErrorCode(NonZeroI32::new(0xc003).unwrap()).debug_string(),
        "recieved an invalid esp-idf error code: 49155"
    );
    let err = IdfError::try_from(12).unwrap_err();
    assert_eq!(err.to_string(), "invalid error code: 12");
}

#[test]
fn decimal_text_of_integers() {
    assert_eq!(int_to_decimal(0), "0");
    assert_eq!(int_to_decimal(7), "7");
    assert_eq!(int_to_decimal(10), "10");
    assert_eq!(int_to_decimal(12345), "12345");
    assert_eq!(int_to_decimal(-1), "-1");
    assert_eq!(int_to_decimal(-907), "-907");
    assert_eq!(int_to_decimal(i32::MAX), "2147483647");
    assert_eq!(int_to_decimal(i32::MIN), "-2147483648");
    for i in -3000..3000 {
        assert_eq!(int_to_decimal(i), format!("{}", i));
    }
}

#[test]
fn non_zero_values() {
    assert!(NonZeroI32::new(0).is_none());
    assert_eq!(NonZeroI32::new(-7).unwrap().get(), -7);
    assert_eq!(NonZeroI32::new(i32::MIN).unwrap().get(), i32::MIN);
}

#[test]
fn names_and_descriptions_are_distinct() {
    let mut names: Vec<&str> = Vec::new();
    let mut infos: Vec<&str> = Vec::new();
    for &code in ESP_IDF_ERROR_CODES.iter() {
        let err = IdfError::try_from(code).unwrap();
        let name = err.error_name();
        assert!(name.starts_with("ESP_") && name.len() >= 8);
        assert!(name.chars().all(|c| c.is_ascii_uppercase() || c.is_ascii_digit() || c == '_'));
        assert!(name.starts_with("ESP_ERR_") || code == -1 || code == 0x1601);
        assert!(!names.contains(&name));
        assert!(!infos.contains(&err.error_info()));
        names.push(name);
        infos.push(err.error_info());
    }
}
