use sv_api::result::{from_last_vpi_call, Error, LastError, Severity, State};

fn record(result: i32, state: i32, level: i32) -> LastError {
    LastError {
        result,
        state,
        level,
        message: b"m".to_vec(),
        product: b"p".to_vec(),
        code: b"c".to_vec(),
        file: b"f".to_vec(),
        line: 7,
    }
}

#[test]
fn no_error_translates_to_ok() {
    assert_eq!(from_last_vpi_call(LastError::none()), Ok(()));
    // The record is not looked at where the simulator returned zero.
    assert_eq!(from_last_vpi_call(record(0, 99, 99)), Ok(()));
}

#[test]
fn error_record_round_trip() {
    let translated = from_last_vpi_call(record(3, 3, 3));
    let error = *translated.unwrap_err();
    assert_eq!(
        error,
        Error::KnownSimulatorError {
            state_when_error_occurred: State::Run,
            severity: Severity::Error,
            message: b"m".to_vec(),
            product: b"p".to_vec(),
            code: b"c".to_vec(),
            file: b"f".to_vec(),
            line: 7,
        }
    );
    assert_eq!(
        error.describe(),
        "Simulator encountered an error!\n\
         State when error occurred: Run\n\
         Severity of error:         Error\n\
         Message:                   m\n\
         Product:                   p\n\
         Code:                      c\n\
         File:                      f\n\
         Line:                      7\n"
    );
}

#[test]
fn unknown_state_is_an_enum_conversion_error() {
    let error = *from_last_vpi_call(record(1, 4, 3)).unwrap_err();
    assert_eq!(error, Error::EnumConversion { from_int: 4, to_enum: "State" });
    assert_eq!(error.describe(), "Could not convert 4 (i32) to type State");
}

#[test]
fn unknown_severity_is_an_enum_conversion_error() {
    let error = *from_last_vpi_call(record(1, 1, 0)).unwrap_err();
    assert_eq!(error, Error::EnumConversion { from_int: 0, to_enum: "Severity" });
    // The state is decoded first.
    let error = *from_last_vpi_call(record(1, -5, 77)).unwrap_err();
    assert_eq!(error, Error::EnumConversion { from_int: -5, to_enum: "State" });
}

#[test]
fn state_codes() {
    assert_eq!(State::Compile.code(), 1);
    assert_eq!(State::PLI.code(), 2);
    assert_eq!(State::Run.code(), 3);
    for state in [State::Compile, State::PLI, State::Run] {
        assert_eq!(State::try_from(state.code()).unwrap(), state);
    }
    assert_eq!(
        *State::try_from(0).unwrap_err(),
        Error::EnumConversion { from_int: 0, to_enum: "State" }
    );
    assert_eq!(State::Compile.name(), "Compile");
    assert_eq!(State::PLI.name(), "PLI");
    assert_eq!(State::Run.name(), "Run");
}

#[test]
fn severity_codes() {
    let all = [
        (Severity::Notice, 1, "Notice"),
        (Severity::Warning, 2, "Warning"),
        (Severity::Error, 3, "Error"),
        (Severity::System, 4, "System"),
        (Severity::Internal, 5, "Internal"),
    ];
    for (severity, code, name) in all {
        assert_eq!(severity.code(), code);
        assert_eq!(Severity::try_from(code).unwrap(), severity);
        assert_eq!(severity.name(), name);
    }
    assert_eq!(
        *Severity::try_from(6).unwrap_err(),
        Error::EnumConversion { from_int: 6, to_enum: "Severity" }
    );
}

#[test]
fn describe_renders_integers_in_decimal() {
    let cases = [
        (0, "0"),
        (9, "9"),
        (10, "10"),
        (-1, "-1"),
        (1234567890, "1234567890"),
        (i32::MAX, "2147483647"),
        (i32::MIN, "-2147483648"),
    ];
    for (from_int, digits) in cases {
        let error = Error::EnumConversion { from_int, to_enum: "ObjectType" };
        assert_eq!(
            error.describe(),
            format!("Could not convert {} (i32) to type ObjectType", digits)
        );
    }
}

#[test]
fn describe_replaces_bytes_that_are_not_utf8() {
    let error = Error::KnownSimulatorError {
        state_when_error_occurred: State::Compile,
        severity: Severity::Internal,
        message: vec![b'a', 0xff, b'b'],
        product: "r\u{e9}sum\u{e9}".as_bytes().to_vec(),
        code: Vec::new(),
        file: b"top.sv".to_vec(),
        line: -3,
    };
    assert_eq!(
        error.describe(),
        "Simulator encountered an error!\n\
         State when error occurred: Compile\n\
         Severity of error:         Internal\n\
         Message:                   a\u{fffd}b\n\
         Product:                   r\u{e9}sum\u{e9}\n\
         Code:                      \n\
         File:                      top.sv\n\
         Line:                      -3\n"
    );
}

#[test]
fn describe_of_the_other_variants() {
    assert_eq!(
        Error::UnknownSimulatorError.describe(),
        "Unknown or unclassified error from the simulator"
    );
    assert_eq!(Error::other(String::from("broken")).describe(), "Other: broken");
    assert_eq!(Error::other(String::from("x")), Error::Other(String::from("x")));
    assert_eq!(
        Error::InvalidCallbackConfig.describe(),
        "No closure was given for the callback to call"
    );
}
