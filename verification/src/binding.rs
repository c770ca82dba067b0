//! The power-button binding: resolving the configured button action into a
//! bind/unbind directive for the window manager, and the textual commands the
//! binder sends over the control channel.

use vstd::prelude::*;
use crate::settings::PowerButtonAction;

verus! {

/// The resolved instruction for the window manager's key-binding table.
pub enum BindingDirective {
    Unbind { key: String },
    Rebind { key: String, command: String },
}

/// Mathematical model of a binding directive.
#[verifier::ext_equal]
pub enum BindingModel {
    Unbind { key: Seq<char> },
    Rebind { key: Seq<char>, command: Seq<char> },
}

impl View for BindingDirective {
    type V = BindingModel;

    open spec fn view(&self) -> BindingModel {
        match self {
            BindingDirective::Unbind { key } => BindingModel::Unbind { key: key@ },
            BindingDirective::Rebind { key, command } => BindingModel::Rebind {
                key: key@,
                command: command@,
            },
        }
    }
}

/// The key symbol of the physical power button.
pub open spec fn power_key_spec() -> Seq<char> {
    "XF86Poweroff"@
}

/// The binding each power-button mode resolves to. `Nothing` unbinds the key;
/// every other mode rebinds it to a command.
pub open spec fn binding_spec(mode: PowerButtonAction) -> BindingModel {
    match mode {
        PowerButtonAction::Nothing => BindingModel::Unbind { key: power_key_spec() },
        PowerButtonAction::Suspend => BindingModel::Rebind {
            key: power_key_spec(),
            command: "systemctl suspend"@,
        },
        PowerButtonAction::Hibernate => BindingModel::Rebind {
            key: power_key_spec(),
            command: "systemctl hibernate"@,
        },
        PowerButtonAction::Interactive => BindingModel::Rebind {
            key: power_key_spec(),
            command:
                "swaynag -t warning -m 'Do you really want to shutdown' -b 'Shutdown' '/usr/bin/gnome-session-quit --power-off --no-prompt'"@,
        },
    }
}

/// Resolves the configured power-button mode into its binding directive.
pub fn resolve_power_button(mode: PowerButtonAction) -> (r: BindingDirective)
    ensures
        r@ == binding_spec(mode),
{
    match mode {
        PowerButtonAction::Nothing => BindingDirective::Unbind {
            key: "XF86Poweroff".to_owned(),
        },
        PowerButtonAction::Suspend => BindingDirective::Rebind {
            key: "XF86Poweroff".to_owned(),
            command: "systemctl suspend".to_owned(),
        },
        PowerButtonAction::Hibernate => BindingDirective::Rebind {
            key: "XF86Poweroff".to_owned(),
            command: "systemctl hibernate".to_owned(),
        },
        PowerButtonAction::Interactive => BindingDirective::Rebind {
            key: "XF86Poweroff".to_owned(),
            command:
                "swaynag -t warning -m 'Do you really want to shutdown' -b 'Shutdown' '/usr/bin/gnome-session-quit --power-off --no-prompt'".to_owned(),
        },
    }
}

/// The textual request that removes the binding of `key`.
pub open spec fn unbind_command_spec(key: Seq<char>) -> Seq<char> {
    "unbindsym "@ + key
}

pub fn unbind_command(key: &str) -> (r: String)
    ensures
        r@ == unbind_command_spec(key@),
{
    let mut s = "unbindsym ".to_owned();
    s.append(key);
    proof {
        assert(s@ =~= unbind_command_spec(key@));
    }
    s
}

/// The textual request that binds `key` to run `command`.
pub open spec fn bind_command_spec(key: Seq<char>, command: Seq<char>) -> Seq<char> {
    "bindsym "@ + key + " exec \""@ + command + "\""@
}

pub fn bind_command(key: &str, command: &str) -> (r: String)
    ensures
        r@ == bind_command_spec(key@, command@),
{
    let mut s = "bindsym ".to_owned();
    s.append(key);
    s.append(" exec \"");
    s.append(command);
    s.append("\"");
    proof {
        assert(s@ =~= bind_command_spec(key@, command@));
    }
    s
}

/// The power button is unbound exactly when its mode is `Nothing`; every other
/// mode rebinds it, always to a non-empty command on the power key.
pub proof fn lemma_power_button_binding(mode: PowerButtonAction)
    ensures
        mode == PowerButtonAction::Nothing <==> binding_spec(mode) is Unbind,
        mode != PowerButtonAction::Nothing ==> (binding_spec(mode) matches BindingModel::Rebind {
            key,
            command,
        } && key == power_key_spec() && command.len() > 0),
{
    reveal_strlit("systemctl suspend");
    reveal_strlit("systemctl hibernate");
    reveal_strlit(
        "swaynag -t warning -m 'Do you really want to shutdown' -b 'Shutdown' '/usr/bin/gnome-session-quit --power-off --no-prompt'",
    );
}

} // verus!
