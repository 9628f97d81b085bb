//! Tests of the latch driver and the four-phase LED sequencer.

use ornament_core::line::{InputLine, OutputLine};
use ornament_core::string_controller::{ActiveString, FlipFlop, StringController};

/// A latch driver with the lines at the levels the embedding layer
/// configures at boot: preset asserted, clear released, data and clock low.
fn boot_flop() -> FlipFlop {
    FlipFlop::new(
        OutputLine::new(false),
        OutputLine::new(true),
        OutputLine::new(false),
        OutputLine::new(false),
    )
}

/// A sequencer as handed over at boot, before reset.
fn boot_controller() -> StringController {
    StringController::new(boot_flop(), boot_flop(), InputLine::new(), InputLine::new())
}

#[test]
fn output_line_holds_commanded_level() {
    let mut line = OutputLine::new(false);
    assert!(!line.is_set_high());
    line.set_high();
    assert!(line.is_set_high());
    line.set_low();
    assert!(!line.is_set_high());
}

#[test]
fn flip_flop_preset_forces_q_high() {
    let flop = boot_flop();
    assert_eq!(flop.q_level(), Some(true));
    assert!(flop.q_is_high());
}

#[test]
fn flip_flop_clear_forces_q_low() {
    let flop = FlipFlop::new(
        OutputLine::new(true),
        OutputLine::new(false),
        OutputLine::new(false),
        OutputLine::new(false),
    );
    assert_eq!(flop.q_level(), Some(false));
    assert!(!flop.q_is_high());
}

#[test]
fn flip_flop_q_undetermined_without_async_force() {
    let both_released = FlipFlop::new(
        OutputLine::new(true),
        OutputLine::new(true),
        OutputLine::new(false),
        OutputLine::new(false),
    );
    assert_eq!(both_released.q_level(), None);
    assert!(!both_released.q_is_high());

    let both_asserted = FlipFlop::new(
        OutputLine::new(false),
        OutputLine::new(false),
        OutputLine::new(false),
        OutputLine::new(false),
    );
    assert_eq!(both_asserted.q_level(), None);
}

#[test]
fn flip_flop_clocks_data_to_q() {
    let mut flop = boot_flop();
    flop.release_reset();
    flop.clock_q_high();
    assert_eq!(flop.q_level(), Some(true));
    flop.clock_q_low();
    assert_eq!(flop.q_level(), Some(false));
}

#[test]
fn reset_establishes_both_off() {
    let mut ctrl = boot_controller();
    ctrl.reset();
    assert_eq!(ctrl.active(), ActiveString::GreenOff);
    assert!(!ctrl.red_is_on());
    assert!(!ctrl.green_is_on());
}

#[test]
fn reset_is_idempotent() {
    let mut once = boot_controller();
    once.reset();

    let mut twice = boot_controller();
    twice.reset();
    twice.reset();

    assert_eq!(twice.active(), once.active());
    assert_eq!(twice.red_is_on(), once.red_is_on());
    assert_eq!(twice.green_is_on(), once.green_is_on());
    assert_eq!(twice.active(), ActiveString::GreenOff);
}

#[test]
fn reset_after_running_restores_initial_state() {
    let mut ctrl = boot_controller();
    ctrl.reset();
    ctrl.activate_next_string();
    ctrl.activate_next_string();
    ctrl.reset();
    assert_eq!(ctrl.active(), ActiveString::GreenOff);
    assert!(!ctrl.red_is_on());
    assert!(!ctrl.green_is_on());
}

#[test]
fn advance_walks_the_four_phase_cycle() {
    let mut ctrl = boot_controller();
    ctrl.reset();

    ctrl.activate_next_string();
    assert_eq!(ctrl.active(), ActiveString::Red);
    assert!(ctrl.red_is_on());
    assert!(!ctrl.green_is_on());

    ctrl.activate_next_string();
    assert_eq!(ctrl.active(), ActiveString::RedOff);
    assert!(!ctrl.red_is_on());
    assert!(!ctrl.green_is_on());

    ctrl.activate_next_string();
    assert_eq!(ctrl.active(), ActiveString::Green);
    assert!(!ctrl.red_is_on());
    assert!(ctrl.green_is_on());

    ctrl.activate_next_string();
    assert_eq!(ctrl.active(), ActiveString::GreenOff);
    assert!(!ctrl.red_is_on());
    assert!(!ctrl.green_is_on());
}

#[test]
fn three_ticks_light_the_green_string() {
    let mut ctrl = boot_controller();
    ctrl.reset();
    let mut tick: usize = 0;
    while tick < 3 {
        ctrl.activate_next_string();
        tick += 1;
    }
    assert!(!ctrl.red_is_on());
    assert!(ctrl.green_is_on());
    assert_eq!(ctrl.active(), ActiveString::Green);
}

#[test]
fn hundred_ticks_return_to_cycle_start() {
    let mut ctrl = boot_controller();
    ctrl.reset();
    let mut tick: usize = 0;
    while tick < 100 {
        ctrl.activate_next_string();
        tick += 1;
    }
    assert_eq!(ctrl.active(), ActiveString::GreenOff);
    assert!(!ctrl.red_is_on());
    assert!(!ctrl.green_is_on());
}
