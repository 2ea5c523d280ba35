use osc_core::arbiter::{Arbiter, ArbiterError};
use osc_core::encoder_interrupt::{apply_direction, display_message, timer_poll_step};
use osc_core::io_irq_bank0::gpio_edge_step;
use osc_core::samples::{new_osc, new_osc_state, MAX_LENGTH};
use osc_core::types::{new_module_state, Direction, ModuleState};

fn fresh_state() -> ModuleState {
    new_module_state(new_osc_state(), 100, 2000)
}

#[test]
fn checkout_of_installed_state_succeeds() {
    let mut arb = Arbiter::new();
    assert!(!arb.is_occupied());
    assert!(arb.install(fresh_state()).is_ok());
    assert!(arb.is_occupied());
    let state = arb.checkout();
    assert!(state.is_ok());
    assert!(!arb.is_occupied());
}

#[test]
fn second_checkout_without_checkin_is_refused() {
    let mut arb = Arbiter::new();
    assert!(arb.install(fresh_state()).is_ok());
    let first = arb.checkout();
    assert!(first.is_ok());
    let second = arb.checkout();
    assert!(matches!(second, Err(ArbiterError::SlotEmpty)));
}

#[test]
fn checkin_makes_state_available_again() {
    let mut arb = Arbiter::new();
    assert!(arb.install(fresh_state()).is_ok());
    let state = arb.checkout().expect("installed state");
    arb.checkin(state);
    assert!(arb.is_occupied());
    assert!(arb.checkout().is_ok());
}

#[test]
fn double_install_is_refused() {
    let mut arb = Arbiter::new();
    assert!(arb.install(fresh_state()).is_ok());
    assert!(matches!(arb.install(fresh_state()), Err(ArbiterError::SlotOccupied)));
}

#[test]
fn checkout_of_empty_arbiter_is_refused() {
    let mut arb = Arbiter::new();
    assert!(matches!(arb.checkout(), Err(ArbiterError::SlotEmpty)));
}

#[test]
fn clockwise_at_capacity_stays_at_capacity() {
    let mut osc = new_osc();
    osc.sample_count = MAX_LENGTH;
    apply_direction(&mut osc, Direction::Clockwise);
    assert_eq!(osc.sample_count, MAX_LENGTH);
    assert!(osc.edit_flag);
}

#[test]
fn anticlockwise_at_floor_stays_at_floor() {
    let mut osc = new_osc();
    assert_eq!(osc.sample_count, 1);
    apply_direction(&mut osc, Direction::Anticlockwise);
    assert_eq!(osc.sample_count, 1);
    assert!(osc.edit_flag);
}

#[test]
fn still_direction_changes_nothing() {
    let mut osc = new_osc();
    osc.sample_count = 100;
    apply_direction(&mut osc, Direction::Still);
    assert_eq!(osc.sample_count, 100);
    assert!(!osc.edit_flag);
}

#[test]
fn two_clockwise_polls_grow_count_by_two() {
    // Two back-to-back timer-poll events, both clockwise, from length 100.
    let mut state = fresh_state();
    state.osc_state.osc_1.sample_count = 100;
    let _ = timer_poll_step(&mut state, Direction::Clockwise, Direction::Still);
    let _ = timer_poll_step(&mut state, Direction::Clockwise, Direction::Still);
    assert_eq!(state.osc_state.osc_1.sample_count, 102);
    assert!(state.osc_state.osc_1.edit_flag);
}

#[test]
fn timer_poll_tunes_the_selected_oscillator() {
    let mut state = fresh_state();
    state.osc_state.edit_index = 2;
    state.osc_state.osc_3.sample_count = 50;
    let _ = timer_poll_step(&mut state, Direction::Anticlockwise, Direction::Still);
    assert_eq!(state.osc_state.osc_3.sample_count, 49);
    assert!(state.osc_state.osc_3.edit_flag);
    assert_eq!(state.osc_state.osc_1.sample_count, 1);
    assert!(!state.osc_state.osc_1.edit_flag);
}

#[test]
fn second_encoder_selects_display_text() {
    let mut state = fresh_state();
    let msg = timer_poll_step(&mut state, Direction::Still, Direction::Clockwise);
    assert_eq!(msg, Some(vec!['c', 'l', 'o', 'c', 'k', '2']));
    let msg = timer_poll_step(&mut state, Direction::Still, Direction::Anticlockwise);
    assert_eq!(msg, Some(vec!['a', 'n', 't', 'i', '2']));
    let msg = timer_poll_step(&mut state, Direction::Still, Direction::Still);
    assert_eq!(msg, None);
}

#[test]
fn display_message_matches_direction() {
    assert_eq!(display_message(Direction::Clockwise), Some(vec!['c', 'l', 'o', 'c', 'k', '2']));
    assert_eq!(display_message(Direction::Anticlockwise), Some(vec!['a', 'n', 't', 'i', '2']));
    assert_eq!(display_message(Direction::Still), None);
}

#[test]
fn button_edge_latches_change() {
    let mut state = fresh_state();
    assert!(!state.change);
    gpio_edge_step(&mut state, true, false, Direction::Still);
    assert!(state.change);
}

#[test]
fn detent_behind_data_edge_latches_change() {
    let mut state = fresh_state();
    gpio_edge_step(&mut state, false, true, Direction::Anticlockwise);
    assert!(state.change);
}

#[test]
fn no_edge_and_no_detent_keeps_change_clear() {
    let mut state = fresh_state();
    gpio_edge_step(&mut state, false, false, Direction::Clockwise);
    assert!(!state.change);
    gpio_edge_step(&mut state, false, true, Direction::Still);
    assert!(!state.change);
}

#[test]
fn change_once_latched_stays_latched() {
    let mut state = fresh_state();
    gpio_edge_step(&mut state, true, false, Direction::Still);
    gpio_edge_step(&mut state, false, false, Direction::Still);
    assert!(state.change);
}
