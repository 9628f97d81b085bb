//! Tests of the dual-battery failover controller and the notification slot.

use ornament_core::line::OutputLine;
use ornament_core::notify::NotifySlot;
use ornament_core::power::{PowerController, PowerState};

/// A power controller with the enable lines at the levels the embedding
/// layer configures at boot: main enabled (active-low line low), backup
/// disabled.
fn boot_power() -> PowerController {
    PowerController::new(OutputLine::new(false), OutputLine::new(true))
}

#[test]
fn init_activates_main_only() {
    let mut ctrl = boot_power();
    ctrl.init_main_power();
    assert_eq!(ctrl.state(), PowerState::MainPower);
    assert!(ctrl.main_enabled());
    assert!(!ctrl.backup_enabled());
}

#[test]
fn low_voltage_switches_to_backup() {
    let mut ctrl = boot_power();
    ctrl.init_main_power();
    ctrl.power_transition(true);
    assert_eq!(ctrl.state(), PowerState::BackupPower);
    assert!(!ctrl.main_enabled());
    assert!(ctrl.backup_enabled());
}

#[test]
fn low_voltage_events_alternate_sources() {
    let mut ctrl = boot_power();
    ctrl.init_main_power();
    let mut count: usize = 0;
    while count < 7 {
        ctrl.power_transition(true);
        count += 1;
        let expected = if count % 2 == 0 {
            PowerState::MainPower
        } else {
            PowerState::BackupPower
        };
        assert_eq!(ctrl.state(), expected);
        assert_eq!(ctrl.main_enabled(), count % 2 == 0);
        assert_eq!(ctrl.backup_enabled(), count % 2 == 1);
    }
}

#[test]
fn recovered_event_changes_nothing() {
    let mut ctrl = boot_power();
    ctrl.init_main_power();
    let mut repeat: usize = 0;
    while repeat < 3 {
        ctrl.power_transition(false);
        repeat += 1;
        assert_eq!(ctrl.state(), PowerState::MainPower);
        assert!(ctrl.main_enabled());
        assert!(!ctrl.backup_enabled());
    }

    ctrl.power_transition(true);
    ctrl.power_transition(false);
    assert_eq!(ctrl.state(), PowerState::BackupPower);
    assert!(!ctrl.main_enabled());
    assert!(ctrl.backup_enabled());
}

#[test]
fn recovered_event_between_two_lows_is_ignored() {
    let mut ctrl = boot_power();
    ctrl.init_main_power();

    ctrl.power_transition(true);
    assert_eq!(ctrl.state(), PowerState::BackupPower);

    ctrl.power_transition(false);
    assert_eq!(ctrl.state(), PowerState::BackupPower);

    ctrl.power_transition(true);
    assert_eq!(ctrl.state(), PowerState::MainPower);
    assert!(ctrl.main_enabled());
    assert!(!ctrl.backup_enabled());
}

#[test]
fn slot_starts_empty() {
    let mut slot = NotifySlot::new();
    assert!(!slot.is_signaled());
    assert_eq!(slot.try_take(), None);
}

#[test]
fn slot_delivers_an_event_exactly_once() {
    let mut slot = NotifySlot::new();
    slot.signal(true);
    assert!(slot.is_signaled());
    assert_eq!(slot.try_take(), Some(true));
    assert!(!slot.is_signaled());
    assert_eq!(slot.try_take(), None);
}

#[test]
fn slot_keeps_only_the_latest_event() {
    let mut slot = NotifySlot::new();
    slot.signal(true);
    slot.signal(false);
    assert_eq!(slot.try_take(), Some(false));
    assert_eq!(slot.try_take(), None);
}

#[test]
fn slot_feeds_the_failover_controller() {
    let mut ctrl = boot_power();
    let mut slot = NotifySlot::new();
    ctrl.init_main_power();

    // Two interrupts fire before the consumer wakes: only the newest
    // reading is serviced.
    slot.signal(true);
    slot.signal(false);
    if let Some(low_voltage) = slot.try_take() {
        ctrl.power_transition(low_voltage);
    }
    assert_eq!(ctrl.state(), PowerState::MainPower);

    slot.signal(true);
    if let Some(low_voltage) = slot.try_take() {
        ctrl.power_transition(low_voltage);
    }
    assert_eq!(ctrl.state(), PowerState::BackupPower);
}
