use regolith_powerd::settings::{PolicySnapshot, PowerButtonAction, SleepAction};
use regolith_powerd::timeline::{compile_timeline, swayidle_args, Directive};

const LOCK_SCREEN: &str = "$(trawlcat wm.program.lock \"gtklock -d --background $(trawlcat regolith.lockscreen.wallpaper.file /dev/null)\")";
const BEFORE_SLEEP: &str = "swaymsg output '*' dpms off;$(trawlcat wm.program.lock \"gtklock -d --background $(trawlcat regolith.lockscreen.wallpaper.file /dev/null)\");playerctl -a pause;sleep 1";
const RESTORE_BRIGHTNESS: &str = "light -S $(cat $XDG_RUNTIME_DIR/screen_brightness_old.var)";

fn snapshot() -> PolicySnapshot {
    PolicySnapshot {
        idle_dim: false,
        idle_brightness: 30,
        idle_delay_seconds: 120,
        sleep_inactive_ac_timeout_seconds: 900,
        sleep_inactive_ac_mode: SleepAction::Nothing,
        sleep_inactive_battery_timeout_seconds: 600,
        sleep_inactive_battery_mode: SleepAction::Nothing,
        power_button_mode: PowerButtonAction::Nothing,
    }
}

#[test]
fn suspend_on_ac_scenario() {
    let s = PolicySnapshot {
        idle_dim: false,
        sleep_inactive_ac_mode: SleepAction::Suspend,
        sleep_inactive_ac_timeout_seconds: 600,
        sleep_inactive_battery_mode: SleepAction::Nothing,
        power_button_mode: PowerButtonAction::Suspend,
        ..snapshot()
    };
    let args = swayidle_args(&s);
    let expected: Vec<String> = vec![
        "timeout".to_owned(),
        "600".to_owned(),
        "\n            if on_ac_power; then\n                systemctl suspend\n            fi\n            ".to_owned(),
        "before-sleep".to_owned(),
        BEFORE_SLEEP.to_owned(),
        "after-resume".to_owned(),
        "swaymsg output '*' dpms on".to_owned(),
        "lock".to_owned(),
        LOCK_SCREEN.to_owned(),
    ];
    assert_eq!(args, expected);
}

#[test]
fn no_dim_pair_when_dim_disabled() {
    let s = PolicySnapshot {
        idle_dim: false,
        sleep_inactive_ac_mode: SleepAction::Blank,
        sleep_inactive_battery_mode: SleepAction::Suspend,
        ..snapshot()
    };
    for d in compile_timeline(&s) {
        match d {
            Directive::Timeout { command, .. } => {
                assert!(!command.contains("light"));
                assert!(!command.contains("curr_brightness"));
            }
            Directive::Resume { command } => {
                assert_ne!(command, RESTORE_BRIGHTNESS);
            }
            _ => {}
        }
    }
}

#[test]
fn dim_pair_adjacent_and_first() {
    let s = PolicySnapshot {
        idle_dim: true,
        idle_brightness: 30,
        idle_delay_seconds: 120,
        sleep_inactive_ac_mode: SleepAction::Suspend,
        ..snapshot()
    };
    let args = swayidle_args(&s);
    assert_eq!(args[0], "timeout");
    assert_eq!(args[1], "120");
    assert_eq!(
        args[2],
        "\n                export curr_brightness=$(light)\n                echo $curr_brightness | tee $XDG_RUNTIME_DIR/screen_brightness_old.var\n                if [ 1 -eq \"$(echo \"${curr_brightness} > 30\" | bc)\" ]; then\n                    light -S 30\n                fi\n                "
    );
    assert_eq!(args[3], "resume");
    assert_eq!(args[4], RESTORE_BRIGHTNESS);
}

#[test]
fn compilation_is_deterministic() {
    let s = PolicySnapshot {
        idle_dim: true,
        sleep_inactive_ac_mode: SleepAction::Blank,
        sleep_inactive_battery_mode: SleepAction::Logout,
        power_button_mode: PowerButtonAction::Interactive,
        ..snapshot()
    };
    assert_eq!(swayidle_args(&s), swayidle_args(&s));
}

#[test]
fn blank_mode_emits_timeout_and_resume() {
    let s = PolicySnapshot { sleep_inactive_ac_mode: SleepAction::Blank, ..snapshot() };
    let timeline = compile_timeline(&s);
    match &timeline[0] {
        Directive::Timeout { trigger_seconds, command } => {
            assert_eq!(*trigger_seconds, 900);
            assert!(command.contains("swaymsg output * dpms off"));
            assert!(command.contains("if on_ac_power; then"));
        }
        _ => panic!("expected a timeout directive first"),
    }
    match &timeline[1] {
        Directive::Resume { command } => {
            assert_eq!(command, "swaymsg output * dpms on");
        }
        _ => panic!("expected the paired resume directive second"),
    }
}

#[test]
fn single_action_modes_emit_timeout_only() {
    let cases = [
        (SleepAction::Suspend, "systemctl suspend"),
        (SleepAction::Hibernate, "systemctl hibernate"),
        (SleepAction::Shutdown, "poweroff"),
        (SleepAction::Logout, "gnome-session-quit --no-prompt"),
    ];
    for (mode, action) in cases {
        let s = PolicySnapshot { sleep_inactive_ac_mode: mode, ..snapshot() };
        let timeline = compile_timeline(&s);
        // one guarded AC timeout, no AC resume, then the three tail entries
        assert_eq!(timeline.len(), 4);
        match &timeline[0] {
            Directive::Timeout { trigger_seconds, command } => {
                assert_eq!(*trigger_seconds, 900);
                assert!(command.contains(action));
            }
            _ => panic!("expected a timeout directive first"),
        }
        assert!(matches!(&timeline[1], Directive::BeforeSleep { .. }));
    }
}

#[test]
fn inactive_modes_emit_nothing() {
    for mode in [SleepAction::Nothing, SleepAction::Interactive] {
        let s = PolicySnapshot {
            sleep_inactive_ac_mode: mode,
            sleep_inactive_battery_mode: mode,
            ..snapshot()
        };
        let timeline = compile_timeline(&s);
        assert_eq!(timeline.len(), 3);
        assert!(matches!(&timeline[0], Directive::BeforeSleep { .. }));
        assert!(matches!(&timeline[1], Directive::AfterResume { .. }));
        assert!(matches!(&timeline[2], Directive::LockScreen { .. }));
    }
}

#[test]
fn battery_mode_uses_negated_guard() {
    let s = PolicySnapshot {
        sleep_inactive_battery_mode: SleepAction::Hibernate,
        sleep_inactive_battery_timeout_seconds: 300,
        ..snapshot()
    };
    let args = swayidle_args(&s);
    assert_eq!(args[0], "timeout");
    assert_eq!(args[1], "300");
    assert_eq!(
        args[2],
        "\n            if ! on_ac_power; then\n                systemctl hibernate\n            fi\n            "
    );
}

#[test]
fn tail_directives_always_present() {
    let s = snapshot();
    let args = swayidle_args(&s);
    assert_eq!(
        args,
        vec![
            "before-sleep".to_owned(),
            BEFORE_SLEEP.to_owned(),
            "after-resume".to_owned(),
            "swaymsg output '*' dpms on".to_owned(),
            "lock".to_owned(),
            LOCK_SCREEN.to_owned(),
        ]
    );
}

#[test]
fn extreme_timeout_values_serialize_exactly() {
    let s = PolicySnapshot {
        sleep_inactive_ac_mode: SleepAction::Suspend,
        sleep_inactive_ac_timeout_seconds: u32::MAX,
        sleep_inactive_battery_mode: SleepAction::Suspend,
        sleep_inactive_battery_timeout_seconds: 0,
        ..snapshot()
    };
    let args = swayidle_args(&s);
    assert_eq!(args[1], "4294967295");
    assert_eq!(args[4], "0");
}

#[test]
fn zero_brightness_dim_script() {
    let s = PolicySnapshot {
        idle_dim: true,
        idle_brightness: 0,
        idle_delay_seconds: 0,
        ..snapshot()
    };
    let args = swayidle_args(&s);
    assert_eq!(args[1], "0");
    assert!(args[2].contains("${curr_brightness} > 0"));
    assert!(args[2].contains("light -S 0"));
}
