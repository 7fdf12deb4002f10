use sv_api::startup::{in_startup_routine, is_main_thread, StartupState};

#[test]
fn fresh_state_is_in_startup() {
    let state = StartupState::new();
    assert!(in_startup_routine(&state));
    assert!(!state.main_thread_recorded());
    assert!(!state.may_call(1));
}

#[test]
fn guard_passes_only_after_startup_and_on_main_thread() {
    let mut state = StartupState::new();
    state.mark_main_thread(7);
    assert!(state.main_thread_recorded());
    assert!(is_main_thread(&state, 7));
    assert!(!is_main_thread(&state, 8));
    assert!(in_startup_routine(&state));
    assert!(!state.may_call(7));
    state.mark_startup_finished();
    assert!(!in_startup_routine(&state));
    assert!(state.may_call(7));
    assert!(!state.may_call(8));
}

#[test]
fn latches_are_independent() {
    let mut state = StartupState::new();
    state.mark_startup_finished();
    assert!(!in_startup_routine(&state));
    assert!(!state.main_thread_recorded());
    assert!(!state.may_call(0));
    state.mark_main_thread(0);
    assert!(state.may_call(0));
    assert!(is_main_thread(&state, 0));
    assert!(!is_main_thread(&state, u64::MAX));
}
