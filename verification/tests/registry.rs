use enum_response_derive::registry::{
    by_numeric_code, canonical_name_of, canonical_reason_of, code_by_name, constant_name_of,
    status_from_u16, LookupError, FIRST_CODE, INTERNAL_SERVER_ERROR, LAST_CODE,
};

#[test]
fn canonical_names_of_codes() {
    assert_eq!(status_from_u16(404), "NotFound");
    assert_eq!(status_from_u16(500), "InternalServerError");
    assert_eq!(status_from_u16(200), "Ok");
    assert_eq!(status_from_u16(418), "ImATeapot");
    assert_eq!(status_from_u16(INTERNAL_SERVER_ERROR), "InternalServerError");
    assert_eq!(by_numeric_code(100), Ok("Continue".to_string()));
    assert_eq!(by_numeric_code(511), Ok("NetworkAuthenticationRequired".to_string()));
    assert_eq!(by_numeric_code(203), Ok("NonAuthoritativeInformation".to_string()));
}

#[test]
fn unknown_codes_have_no_name() {
    for code in [0u16, 1, 99, 104, 199, 209, 299, 306, 309, 419, 420, 427, 430, 509, 512, 599, 600, 999, 1000, 65535] {
        assert_eq!(by_numeric_code(code), Err(LookupError::UnknownStatusCode));
        assert_eq!(canonical_name_of(code), None);
        assert_eq!(constant_name_of(code), None);
    }
}

#[test]
fn names_lead_to_codes_in_both_spellings() {
    assert_eq!(code_by_name("NotFound"), Ok(404));
    assert_eq!(code_by_name("NOT_FOUND"), Ok(404));
    assert_eq!(code_by_name("InternalServerError"), Ok(500));
    assert_eq!(code_by_name("INTERNAL_SERVER_ERROR"), Ok(500));
    assert_eq!(code_by_name("Ok"), Ok(200));
    assert_eq!(code_by_name("OK"), Ok(200));
    assert_eq!(code_by_name("UNAUTHORIZED"), Ok(401));
    assert_eq!(code_by_name("PAYMENT_REQUIRED"), Ok(402));
    assert_eq!(code_by_name("BAD_REQUEST"), Ok(400));
}

#[test]
fn unknown_names_lead_nowhere() {
    for name in ["", "ok", "Not Found", "NotFound ", "notfound", "Not_Found", "404", "Teapot", "NOT-FOUND"] {
        assert_eq!(code_by_name(name), Err(LookupError::UnknownStatusName));
        assert_eq!(canonical_reason_of(name), Err(LookupError::UnknownStatusName));
    }
}

#[test]
fn every_code_round_trips_through_its_names() {
    let mut registered = 0;
    for code in 0..=u16::MAX {
        match by_numeric_code(code) {
            Ok(name) => {
                registered += 1;
                assert!(FIRST_CODE <= code && code <= LAST_CODE);
                assert_eq!(canonical_name_of(code), Some(name.as_str()));
                assert_eq!(code_by_name(&name), Ok(code));
                let constant = constant_name_of(code).expect("a registered code");
                assert_eq!(code_by_name(constant), Ok(code));
                assert_eq!(constant.replace('_', "").to_lowercase(), name.to_lowercase());
            }
            Err(e) => assert_eq!(e, LookupError::UnknownStatusCode),
        }
    }
    assert_eq!(registered, 62);
}

#[test]
fn the_registry_holds_the_codes_that_have_a_canonical_reason() {
    for code in 0..=u16::MAX {
        let phrase = http::StatusCode::from_u16(code).ok().and_then(|s| s.canonical_reason());
        assert_eq!(by_numeric_code(code).is_ok(), phrase.is_some(), "code {}", code);
        if let Ok(name) = by_numeric_code(code) {
            assert_eq!(canonical_reason_of(&name).ok(), phrase);
            assert_eq!(canonical_reason_of(constant_name_of(code).unwrap()).ok(), phrase);
        }
    }
}

#[test]
fn canonical_reasons_of_names() {
    assert_eq!(canonical_reason_of("NotFound"), Ok("Not Found"));
    assert_eq!(canonical_reason_of("NOT_FOUND"), Ok("Not Found"));
    assert_eq!(canonical_reason_of("InternalServerError"), Ok("Internal Server Error"));
    assert_eq!(canonical_reason_of("ImATeapot"), Ok("I'm a teapot"));
    assert_eq!(canonical_reason_of("MultiStatus"), Ok("Multi-Status"));
    assert_eq!(canonical_reason_of("Ok"), Ok("OK"));
}
