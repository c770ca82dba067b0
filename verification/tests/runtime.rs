use regolith_powerd::aggregator::TriggerSlot;
use regolith_powerd::settings::{PolicySnapshot, PowerButtonAction, SleepAction};
use regolith_powerd::supervisor::Supervisor;
use regolith_powerd::timeline::swayidle_args;

fn snapshot(ac_timeout: u32) -> PolicySnapshot {
    PolicySnapshot {
        idle_dim: false,
        idle_brightness: 30,
        idle_delay_seconds: 120,
        sleep_inactive_ac_timeout_seconds: ac_timeout,
        sleep_inactive_ac_mode: SleepAction::Suspend,
        sleep_inactive_battery_timeout_seconds: 600,
        sleep_inactive_battery_mode: SleepAction::Nothing,
        power_button_mode: PowerButtonAction::Nothing,
    }
}

#[test]
fn burst_of_notifications_coalesces_to_one_cycle() {
    let mut slot = TriggerSlot::new();
    // Three rapid changes before the consumer drains: the settings end up at
    // an AC timeout of 900 seconds.
    slot.notify();
    slot.notify();
    slot.notify();
    let current = snapshot(900);

    let mut cycles = 0;
    while slot.drain() {
        // The consumer reads the snapshot current at drain time.
        let args = swayidle_args(&current);
        assert_eq!(args[1], "900");
        cycles += 1;
    }
    assert_eq!(cycles, 1);
}

#[test]
fn startup_slot_holds_one_synthetic_trigger() {
    let mut slot = TriggerSlot::primed();
    assert!(slot.drain());
    assert!(!slot.drain());
}

#[test]
fn spawn_failure_leaves_supervisor_idle_and_recoverable() {
    let mut sup = Supervisor::new();

    // Reconfiguration #1: nothing to terminate, spawn succeeds.
    assert_eq!(sup.take_previous(), None);
    sup.record_spawn(Some(1));
    assert_eq!(sup.current(), Some(1));

    // Reconfiguration #2: previous helper is handed back for termination
    // first, then the spawn fails; the supervisor stays idle.
    assert_eq!(sup.take_previous(), Some(1));
    sup.record_spawn(None);
    assert_eq!(sup.current(), None);

    // Reconfiguration #3: a valid timeline arrives and spawning succeeds.
    assert_eq!(sup.take_previous(), None);
    sup.record_spawn(Some(2));
    assert_eq!(sup.current(), Some(2));
}

#[test]
fn previous_helper_taken_before_replacement_recorded() {
    let mut sup = Supervisor::new();
    sup.record_spawn(Some(7));
    let previous = sup.take_previous();
    assert_eq!(previous, Some(7));
    // Only after the previous handle was taken may a new spawn be recorded.
    sup.record_spawn(Some(8));
    assert_eq!(sup.current(), Some(8));
}
