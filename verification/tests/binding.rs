use regolith_powerd::binding::{bind_command, resolve_power_button, unbind_command, BindingDirective};
use regolith_powerd::settings::PowerButtonAction;

#[test]
fn nothing_unbinds_the_power_key() {
    match resolve_power_button(PowerButtonAction::Nothing) {
        BindingDirective::Unbind { key } => assert_eq!(key, "XF86Poweroff"),
        BindingDirective::Rebind { .. } => panic!("expected an unbind directive"),
    }
}

#[test]
fn active_modes_rebind_with_nonempty_commands() {
    let cases = [
        (PowerButtonAction::Suspend, "systemctl suspend"),
        (PowerButtonAction::Hibernate, "systemctl hibernate"),
        (
            PowerButtonAction::Interactive,
            "swaynag -t warning -m 'Do you really want to shutdown' -b 'Shutdown' '/usr/bin/gnome-session-quit --power-off --no-prompt'",
        ),
    ];
    for (mode, expected) in cases {
        match resolve_power_button(mode) {
            BindingDirective::Rebind { key, command } => {
                assert_eq!(key, "XF86Poweroff");
                assert!(!command.is_empty());
                assert_eq!(command, expected);
            }
            BindingDirective::Unbind { .. } => panic!("expected a rebind directive"),
        }
    }
}

#[test]
fn binder_request_text() {
    assert_eq!(unbind_command("XF86Poweroff"), "unbindsym XF86Poweroff");
    assert_eq!(
        bind_command("XF86Poweroff", "systemctl suspend"),
        "bindsym XF86Poweroff exec \"systemctl suspend\""
    );
}
