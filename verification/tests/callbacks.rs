use std::cell::Cell;
use std::rc::Rc;
use sv_api::callbacks::{CallbackBuilder, CallbackReason, CallbackRegistry, Time, TimeType};
use sv_api::native::{NativeTime, Reply, Request};
use sv_api::result::{Error, LastError, Severity, State};
use sv_api::startup::StartupState;

fn run_phase() -> StartupState {
    let mut state = StartupState::new();
    state.mark_main_thread(1);
    state.mark_startup_finished();
    state
}

fn ok<T>(value: T) -> Reply<T> {
    Reply { value, last_error: LastError::none() }
}

#[test]
fn time_as_the_simulator_holds_it() {
    assert_eq!(
        NativeTime::from(Time::SimTime { high: 1, low: 2 }),
        NativeTime { type_: 2, high: 1, low: 2, real: 0 }
    );
    assert_eq!(
        NativeTime::from(Time::ScaledRealTime(2.5f64.to_bits())),
        NativeTime { type_: 1, high: 0, low: 0, real: 0x4004_0000_0000_0000 }
    );
    assert_eq!(
        NativeTime::from(Time::SuppressTime),
        NativeTime { type_: 3, high: 0, low: 0, real: 0 }
    );
    assert_eq!(
        NativeTime::from(Time::SimTime { high: u32::MAX, low: u32::MAX }),
        NativeTime { type_: 2, high: u32::MAX, low: u32::MAX, real: 0 }
    );
}

#[test]
fn time_type_and_reason_codes() {
    assert_eq!(TimeType::ScaledRealTime.code(), 1);
    assert_eq!(TimeType::SimTime.code(), 2);
    assert_eq!(TimeType::SuppressTime.code(), 3);
    assert_eq!(CallbackReason::AtStartOfSimTime.code(), 5);
}

#[test]
fn registering_without_a_closure_is_refused() {
    let startup = run_phase();
    let mut registry: CallbackRegistry<fn()> = CallbackRegistry::new();
    let request = CallbackBuilder::new().register_request(&startup, 1, &mut registry);
    assert_eq!(request, Err(Box::new(Error::InvalidCallbackConfig)));
    assert_eq!(registry.len(), 0);
}

#[test]
fn registration_hands_the_slot_to_the_simulator() {
    let startup = run_phase();
    let mut registry = CallbackRegistry::new();
    let first = CallbackBuilder::new().call(|| {}).register_request(&startup, 1, &mut registry);
    assert_eq!(
        first,
        Ok(Request::RegisterCb {
            reason: 5,
            time: NativeTime { type_: 2, high: 0, low: 1, real: 0 },
            user_data: 0,
        })
    );
    assert_eq!(registry.len(), 1);
}

#[test]
fn every_registration_gets_its_own_slot() {
    let startup = run_phase();
    let mut registry: CallbackRegistry<Box<dyn FnMut()>> = CallbackRegistry::new();
    for slot in 0..4 {
        let request = CallbackBuilder::new()
            .call(Box::new(|| {}) as Box<dyn FnMut()>)
            .register_request(&startup, 1, &mut registry)
            .unwrap();
        assert!(matches!(request, Request::RegisterCb { user_data, .. } if user_data == slot));
        assert_eq!(registry.len(), slot + 1);
    }
}

#[test]
fn the_last_closure_given_is_the_one_registered() {
    let startup = run_phase();
    let hits = Rc::new(Cell::new(0u32));
    let first = hits.clone();
    let second = hits.clone();
    let mut registry: CallbackRegistry<Box<dyn FnMut()>> = CallbackRegistry::new();
    CallbackBuilder::new()
        .call(Box::new(move || first.set(first.get() + 1)) as Box<dyn FnMut()>)
        .call(Box::new(move || second.set(second.get() + 100)) as Box<dyn FnMut()>)
        .register_request(&startup, 1, &mut registry)
        .unwrap();
    assert_eq!(registry.closure_callback_wrapper(0), 0);
    assert_eq!(hits.get(), 100);
}

#[test]
fn closure_is_called_on_every_invocation_and_keeps_its_state() {
    let startup = run_phase();
    let seen = Rc::new(Cell::new(0u32));
    let shown = seen.clone();
    let mut count = 0u32;
    let mut registry = CallbackRegistry::new();
    let request = CallbackBuilder::new()
        .call(move || {
            count += 1;
            shown.set(count);
        })
        .register_request(&startup, 1, &mut registry)
        .unwrap();
    let slot = match request {
        Request::RegisterCb { user_data, .. } => user_data,
        _ => unreachable!(),
    };
    assert_eq!(seen.get(), 0);
    assert_eq!(registry.closure_callback_wrapper(slot), 0);
    assert_eq!(seen.get(), 1);
    assert_eq!(registry.closure_callback_wrapper(slot), 0);
    assert_eq!(registry.closure_callback_wrapper(slot), 0);
    assert_eq!(seen.get(), 3);
    assert_eq!(registry.len(), 1);
}

#[test]
fn user_data_leads_to_its_own_closure() {
    let startup = run_phase();
    let log = Rc::new(Cell::new(0u32));
    let mut registry: CallbackRegistry<Box<dyn FnMut()>> = CallbackRegistry::new();
    for digit in 1..=3u32 {
        let log = log.clone();
        CallbackBuilder::new()
            .call(Box::new(move || log.set(log.get() * 10 + digit)) as Box<dyn FnMut()>)
            .register_request(&startup, 1, &mut registry)
            .unwrap();
    }
    registry.closure_callback_wrapper(2);
    registry.closure_callback_wrapper(0);
    registry.closure_callback_wrapper(1);
    registry.closure_callback_wrapper(0);
    assert_eq!(log.get(), 3121);
    // User data that no registration gave out calls nothing.
    assert_eq!(registry.closure_callback_wrapper(3), 0);
    assert_eq!(registry.closure_callback_wrapper(usize::MAX), 0);
    assert_eq!(log.get(), 3121);
    assert_eq!(registry.len(), 3);
}

#[test]
fn registration_yields_the_handle_of_the_simulator() {
    let handle = CallbackBuilder::<fn()>::register(ok(0x7000)).unwrap();
    assert_eq!(handle.as_raw(), 0x7000);
}

#[test]
fn null_registration_handle_is_an_unclassified_error() {
    let error = *CallbackBuilder::<fn()>::register(ok(0)).unwrap_err();
    assert_eq!(error, Error::UnknownSimulatorError);
}

#[test]
fn failed_registration_hands_the_error_on() {
    let reply = Reply {
        value: 0x7000,
        last_error: LastError {
            result: 2,
            state: 2,
            level: 2,
            message: b"bad time".to_vec(),
            product: b"sim".to_vec(),
            code: b"W7".to_vec(),
            file: b"cb.c".to_vec(),
            line: 40,
        },
    };
    let error = *CallbackBuilder::<fn()>::register(reply).unwrap_err();
    assert_eq!(
        error,
        Error::KnownSimulatorError {
            state_when_error_occurred: State::PLI,
            severity: Severity::Warning,
            message: b"bad time".to_vec(),
            product: b"sim".to_vec(),
            code: b"W7".to_vec(),
            file: b"cb.c".to_vec(),
            line: 40,
        }
    );
}
