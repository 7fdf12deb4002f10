use sv_api::native::{Reply, Request};
use sv_api::object::{
    ObjectChildrenIterator, ObjectHandle, ObjectProperty, ObjectType, Scalar, Value, ValueKind,
};
use sv_api::result::{Error, LastError, Severity, State};
use sv_api::startup::StartupState;

fn run_phase() -> StartupState {
    let mut state = StartupState::new();
    state.mark_main_thread(1);
    state.mark_startup_finished();
    state
}

fn ok<T>(value: T) -> Reply<T> {
    Reply { value, last_error: LastError::none() }
}

fn failed<T>(value: T) -> Reply<T> {
    Reply {
        value,
        last_error: LastError {
            result: 3,
            state: 3,
            level: 3,
            message: b"no such property".to_vec(),
            product: b"sim".to_vec(),
            code: b"E1".to_vec(),
            file: b"top.sv".to_vec(),
            line: 12,
        },
    }
}

fn the_failure() -> Error {
    Error::KnownSimulatorError {
        state_when_error_occurred: State::Run,
        severity: Severity::Error,
        message: b"no such property".to_vec(),
        product: b"sim".to_vec(),
        code: b"E1".to_vec(),
        file: b"top.sv".to_vec(),
        line: 12,
    }
}

#[test]
fn object_type_codes_round_trip() {
    let mut known = 0;
    for code in -10..=300 {
        match ObjectType::try_from(code) {
            Ok(object_type) => {
                known += 1;
                assert_eq!(object_type.code(), code);
            }
            Err(error) => {
                assert_eq!(*error, Error::EnumConversion { from_int: code, to_enum: "ObjectType" });
            }
        }
    }
    assert_eq!(known, 90);
}

#[test]
fn object_type_known_codes() {
    assert_eq!(ObjectType::Always.code(), 1);
    assert_eq!(ObjectType::Module.code(), 32);
    assert_eq!(ObjectType::Net.code(), 36);
    assert_eq!(ObjectType::Port.code(), 44);
    assert_eq!(ObjectType::Reg.code(), 48);
    assert_eq!(ObjectType::While.code(), 70);
    assert_eq!(ObjectType::Attribute.code(), 105);
    assert_eq!(ObjectType::UdpArray.code(), 118);
    assert_eq!(ObjectType::ContAssignBit.code(), 128);
    assert_eq!(ObjectType::IndexedPartSelect.code(), 130);
    assert_eq!(ObjectType::GenVar.code(), 135);
    assert_eq!(ObjectType::try_from(32).unwrap(), ObjectType::Module);
    assert!(ObjectType::try_from(0).is_err());
    assert!(ObjectType::try_from(71).is_err());
    assert!(ObjectType::try_from(131).is_err());
    assert!(ObjectType::try_from(i32::MIN).is_err());
}

#[test]
fn object_property_codes_round_trip() {
    let mut known = 0;
    for code in -10..=300 {
        match ObjectProperty::try_from(code) {
            Ok(property) => {
                known += 1;
                assert_eq!(i32::from(property), code);
            }
            Err(error) => {
                assert_eq!(
                    *error,
                    Error::EnumConversion { from_int: code, to_enum: "ObjectProperty" }
                );
            }
        }
    }
    assert_eq!(known, 70);
}

#[test]
fn object_property_known_codes() {
    assert_eq!(i32::from(ObjectProperty::Undefined), -1);
    assert_eq!(i32::from(ObjectProperty::Type), 1);
    assert_eq!(i32::from(ObjectProperty::Name), 2);
    assert_eq!(i32::from(ObjectProperty::FullName), 3);
    assert_eq!(i32::from(ObjectProperty::Size), 4);
    assert_eq!(i32::from(ObjectProperty::File), 5);
    assert_eq!(i32::from(ObjectProperty::LineNo), 6);
    assert_eq!(i32::from(ObjectProperty::TopModule), 7);
    assert_eq!(i32::from(ObjectProperty::DefName), 9);
    assert_eq!(i32::from(ObjectProperty::DefFile), 15);
    assert_eq!(i32::from(ObjectProperty::DefDelayMode), 47);
    assert_eq!(i32::from(ObjectProperty::ConstantSelect), 53);
    assert_eq!(i32::from(ObjectProperty::ResolvedNetType), 61);
    assert_eq!(i32::from(ObjectProperty::Signed), 65);
    assert_eq!(i32::from(ObjectProperty::IsProtected), 74);
    assert_eq!(ObjectProperty::try_from(-1).unwrap(), ObjectProperty::Undefined);
    assert_eq!(ObjectProperty::try_from(2).unwrap(), ObjectProperty::Name);
    assert_eq!(ObjectProperty::try_from(50).unwrap(), ObjectProperty::Automatic);
    assert_eq!(ObjectProperty::try_from(63).unwrap(), ObjectProperty::SaveRestartLocation);
    assert!(ObjectProperty::try_from(0).is_err());
    assert!(ObjectProperty::try_from(59).is_err());
    assert!(ObjectProperty::try_from(66).is_err());
    assert!(ObjectProperty::try_from(75).is_err());
}

#[test]
fn object_property_values_reuse_codes() {
    assert_eq!(i32::from(ObjectProperty::HighZ), 1);
    assert_eq!(i32::from(ObjectProperty::NoDefaultNet), 12);
    assert_eq!(i32::from(ObjectProperty::NoEdge), 0);
    assert_eq!(i32::from(ObjectProperty::Edge01), 1);
    assert_eq!(i32::from(ObjectProperty::Edge10), 2);
    assert_eq!(i32::from(ObjectProperty::Edge0x), 4);
    assert_eq!(i32::from(ObjectProperty::Edgex1), 8);
    assert_eq!(i32::from(ObjectProperty::Edge1x), 16);
    assert_eq!(i32::from(ObjectProperty::Edgex0), 32);
    assert_eq!(i32::from(ObjectProperty::Posedge), 13);
    assert_eq!(i32::from(ObjectProperty::Negedge), 50);
    assert_eq!(i32::from(ObjectProperty::AnyEdge), 63);
    assert_eq!(i32::from(ObjectProperty::SysFuncType), 44);
    assert_eq!(i32::from(ObjectProperty::FuncType), 44);
    assert_eq!(i32::from(ObjectProperty::PowerOp), 43);
    assert_eq!(i32::from(ObjectProperty::ValidTrue), 1);
    // A code that a value shares with a property decodes to the property.
    assert_eq!(ObjectProperty::try_from(1).unwrap(), ObjectProperty::Type);
    assert_eq!(ObjectProperty::try_from(44).unwrap(), ObjectProperty::FuncType);
    assert_eq!(ObjectProperty::try_from(13).unwrap(), ObjectProperty::DefNetType);
}

#[test]
fn property_identifiers_decode_to_themselves() {
    let identifiers = [
        ObjectProperty::Undefined,
        ObjectProperty::Type,
        ObjectProperty::Name,
        ObjectProperty::DefDelayMode,
        ObjectProperty::Scalar,
        ObjectProperty::Edge,
        ObjectProperty::FuncType,
        ObjectProperty::Automatic,
        ObjectProperty::SaveRestartLocation,
        ObjectProperty::IsProtected,
    ];
    for property in identifiers {
        assert!(property.identifies_property());
        assert_eq!(ObjectProperty::try_from(i32::from(property)).unwrap(), property);
    }
    let values = [
        ObjectProperty::HighZ,
        ObjectProperty::Pull0,
        ObjectProperty::DelayModeMTM,
        ObjectProperty::Input,
        ObjectProperty::NoDefaultNet,
        ObjectProperty::CombPrim,
        ObjectProperty::NoEdge,
        ObjectProperty::Negedge,
        ObjectProperty::AnyEdge,
        ObjectProperty::PowerOp,
        ObjectProperty::SysFuncType,
        ObjectProperty::ValidFalse,
        ObjectProperty::NegIndexed,
    ];
    for value in values {
        assert!(!value.identifies_property());
        match ObjectProperty::try_from(i32::from(value)) {
            Ok(property) => {
                assert!(property.identifies_property());
                assert_ne!(property, value);
                assert_eq!(i32::from(property), i32::from(value));
            }
            Err(error) => {
                assert_eq!(
                    *error,
                    Error::EnumConversion { from_int: i32::from(value), to_enum: "ObjectProperty" }
                );
            }
        }
    }
}

#[test]
fn scalar_and_value_kind_codes() {
    assert_eq!(Scalar::Zero.code(), 0);
    assert_eq!(Scalar::One.code(), 1);
    assert_eq!(Scalar::Z.code(), 2);
    assert_eq!(Scalar::X.code(), 3);
    let kinds = [
        (ValueKind::BinStr, 1),
        (ValueKind::OctStr, 2),
        (ValueKind::DecStr, 3),
        (ValueKind::HexStr, 4),
        (ValueKind::Scalar, 5),
        (ValueKind::Integer, 6),
        (ValueKind::Real, 7),
        (ValueKind::String, 8),
        (ValueKind::Vector, 9),
        (ValueKind::Strength, 10),
        (ValueKind::Time, 11),
        (ValueKind::ObjType, 12),
        (ValueKind::Suppress, 13),
    ];
    for (kind, code) in kinds {
        assert_eq!(kind.code(), code);
    }
}

#[test]
fn value_kind_of_every_variant() {
    let cases = vec![
        (Value::BinStr(b"1010".to_vec()), ValueKind::BinStr),
        (Value::OctStr(b"17".to_vec()), ValueKind::OctStr),
        (Value::DecStr(b"15".to_vec()), ValueKind::DecStr),
        (Value::HexStr(b"f".to_vec()), ValueKind::HexStr),
        (Value::Scalar(Scalar::X), ValueKind::Scalar),
        (Value::Integer(-4), ValueKind::Integer),
        (Value::Real(1.5f64.to_bits()), ValueKind::Real),
        (Value::String(b"text".to_vec()), ValueKind::String),
        (Value::Vector(vec![Scalar::Zero, Scalar::One, Scalar::Z]), ValueKind::Vector),
        (Value::Strength, ValueKind::Strength),
        (Value::Suppress, ValueKind::Suppress),
        (Value::Time, ValueKind::Time),
        (Value::ObjType, ValueKind::ObjType),
    ];
    for (value, kind) in cases {
        assert_eq!(value.kind(), kind);
    }
}

#[test]
fn handle_keeps_its_address() {
    let handle = ObjectHandle::from_raw(0x1000);
    assert_eq!(handle.as_raw(), 0x1000);
    assert_eq!(ObjectHandle::from_raw(usize::MAX).as_raw(), usize::MAX);
}

#[test]
fn property_requests_name_the_entry_point_and_its_arguments() {
    let startup = run_phase();
    let handle = ObjectHandle::from_raw(0x40);
    assert_eq!(
        handle.vpi_get_request(&startup, 1, ObjectProperty::Size),
        Request::Get { property: 4, object: 0x40 }
    );
    assert_eq!(
        handle.vpi_get64_request(&startup, 1, ObjectProperty::LineNo),
        Request::Get64 { property: 6, object: 0x40 }
    );
    assert_eq!(
        handle.vpi_get_str_request(&startup, 1, ObjectProperty::FullName),
        Request::GetStr { property: 3, object: 0x40 }
    );
    let other = ObjectHandle::from_raw(0x48);
    assert_eq!(
        handle.vpi_compare_objects_request(&startup, 1, &other),
        Request::CompareObjects { first: 0x40, second: 0x48 }
    );
}

#[test]
fn get_property_bool_accepts_zero_and_one_only() {
    let handle = ObjectHandle::from_raw(8);
    assert_eq!(handle.get_property_bool(ok(1)), Ok(true));
    assert_eq!(handle.get_property_bool(ok(0)), Ok(false));
    for other in [2, -1, 3, i32::MAX, i32::MIN] {
        assert_eq!(
            handle.get_property_bool(ok(other)),
            Err(Box::new(Error::UnknownSimulatorError))
        );
    }
    assert_eq!(handle.get_property_bool(failed(1)), Err(Box::new(the_failure())));
}

#[test]
fn get_property_integers() {
    let handle = ObjectHandle::from_raw(8);
    assert_eq!(handle.get_property_i32(ok(-17)), Ok(-17));
    assert_eq!(handle.get_property_i32(failed(5)), Err(Box::new(the_failure())));
    assert_eq!(handle.get_property_i64(ok(i64::MIN)), Ok(i64::MIN));
    assert_eq!(handle.get_property_i64(failed(0)), Err(Box::new(the_failure())));
}

#[test]
fn get_property_strings() {
    let handle = ObjectHandle::from_raw(8);
    assert_eq!(handle.get_property_cstring(ok(Some(b"top".to_vec()))), Ok(b"top".to_vec()));
    assert_eq!(handle.get_property_cstring(ok(Some(vec![0xff]))), Ok(vec![0xff]));
    assert_eq!(
        handle.get_property_cstring(ok(None)),
        Err(Box::new(Error::UnknownSimulatorError))
    );
    assert_eq!(
        handle.get_property_cstring(failed(Some(b"top".to_vec()))),
        Err(Box::new(the_failure()))
    );
    assert_eq!(
        handle.get_property_string(ok(Some("top.\u{3b1}".as_bytes().to_vec()))),
        Ok(String::from("top.\u{3b1}"))
    );
    assert_eq!(handle.get_property_string(ok(Some(Vec::new()))), Ok(String::new()));
    assert_eq!(
        handle.get_property_string(ok(None)),
        Err(Box::new(Error::UnknownSimulatorError))
    );
    assert_eq!(handle.get_property_string(failed(None)), Err(Box::new(the_failure())));
}

#[test]
fn get_property_string_rejects_bytes_that_are_not_utf8() {
    let handle = ObjectHandle::from_raw(8);
    let error = *handle.get_property_string(ok(Some(vec![b'a', 0xff, b'b']))).unwrap_err();
    assert_eq!(
        error,
        Error::Other(String::from("invalid utf-8 sequence of 1 bytes from index 1"))
    );
}

#[test]
fn same_object_is_the_simulators_answer() {
    let handle = ObjectHandle::from_raw(8);
    assert_eq!(handle.same_object(ok(1)), Ok(true));
    assert_eq!(handle.same_object(ok(0)), Ok(false));
    assert_eq!(handle.same_object(ok(2)), Ok(false));
    assert_eq!(handle.same_object(failed(1)), Err(Box::new(the_failure())));
}

#[test]
fn iteration_requests() {
    let startup = run_phase();
    assert_eq!(
        ObjectChildrenIterator::of_root_request(&startup, 1, ObjectType::Module),
        Request::Iterate { object_type: 32, parent: 0 }
    );
    let parent = ObjectHandle::from_raw(0x2000);
    assert_eq!(
        ObjectChildrenIterator::of_request(&startup, 1, &parent, ObjectType::Reg),
        Request::Iterate { object_type: 48, parent: 0x2000 }
    );
}

#[test]
fn iterator_scans_with_the_cursor_it_was_given() {
    let startup = run_phase();
    let mut children = ObjectChildrenIterator::of_root(ok(0x100)).unwrap();
    assert_eq!(children.next_request(&startup, 1), Some(Request::Scan { iterator: 0x100 }));
    let first = children.next(ok(0x200)).unwrap();
    assert_eq!(first.as_raw(), 0x200);
    // The cursor is still the one of the beginning, not the handle just yielded.
    assert_eq!(children.next_request(&startup, 1), Some(Request::Scan { iterator: 0x100 }));
    let second = children.next(ok(0x300)).unwrap();
    assert_eq!(second.as_raw(), 0x300);
    assert_eq!(children.next_request(&startup, 1), Some(Request::Scan { iterator: 0x100 }));
    assert!(children.next(ok(0)).is_none());
    assert_eq!(children.next_request(&startup, 1), None);
}

#[test]
fn exhausted_iterator_stays_exhausted() {
    let startup = run_phase();
    let mut children = ObjectChildrenIterator::of(ok(0x100)).unwrap();
    assert!(children.next(ok(0)).is_none());
    for _ in 0..3 {
        assert_eq!(children.next_request(&startup, 1), None);
        // Whatever would come back, nothing is yielded any more.
        assert!(children.next(ok(0x500)).is_none());
    }
}

#[test]
fn null_cursor_starts_exhausted() {
    let startup = run_phase();
    let mut roots = ObjectChildrenIterator::of_root(ok(0)).unwrap();
    assert_eq!(roots.next_request(&startup, 1), None);
    assert!(roots.next(ok(0x10)).is_none());
    let mut children = ObjectChildrenIterator::of(ok(0)).unwrap();
    assert_eq!(children.next_request(&startup, 1), None);
    assert!(children.next(ok(0x10)).is_none());
}

#[test]
fn failed_iterate_is_an_error() {
    assert_eq!(*ObjectChildrenIterator::of_root(failed(0x100)).unwrap_err(), the_failure());
    assert_eq!(*ObjectChildrenIterator::of(failed(0)).unwrap_err(), the_failure());
}

#[test]
fn failed_scan_ends_the_iteration() {
    let startup = run_phase();
    let mut children = ObjectChildrenIterator::of(ok(0x100)).unwrap();
    assert_eq!(children.next(ok(0x200)).unwrap().as_raw(), 0x200);
    assert!(children.next(failed(0x300)).is_none());
    assert_eq!(children.next_request(&startup, 1), None);
    assert!(children.next(ok(0x400)).is_none());
}
