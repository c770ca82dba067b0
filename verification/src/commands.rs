//! The shell command text the policy compiler emits: the dim/restore
//! brightness scripts, the power-source guards wrapped around sleep actions,
//! the fixed lifecycle commands, and the sleep-action resolution table.

use vstd::prelude::*;
use crate::decimal::{dec_spec, u32_string};
use crate::settings::SleepAction;

verus! {

// ---------------------------------------------------------------------------
// Fixed display and lifecycle commands
// ---------------------------------------------------------------------------

/// Command that turns every output off.
pub open spec fn display_off_spec() -> Seq<char> {
    "swaymsg output '*' dpms off"@
}

/// Command that turns every output back on.
pub open spec fn display_on_spec() -> Seq<char> {
    "swaymsg output '*' dpms on"@
}

pub fn display_off_command() -> (r: String)
    ensures
        r@ == display_off_spec(),
{
    "swaymsg output '*' dpms off".to_owned()
}

pub fn display_on_command() -> (r: String)
    ensures
        r@ == display_on_spec(),
{
    "swaymsg output '*' dpms on".to_owned()
}

/// Display-off action emitted for the `Blank` sleep mode.
pub open spec fn blank_off_spec() -> Seq<char> {
    "swaymsg output * dpms off"@
}

/// Display-on resume action paired with the `Blank` sleep mode.
pub open spec fn blank_on_spec() -> Seq<char> {
    "swaymsg output * dpms on"@
}

/// Built-in lock program used when the per-window-manager lookup is unset.
pub open spec fn default_lock_spec() -> Seq<char> {
    "gtklock -d --background $(trawlcat regolith.lockscreen.wallpaper.file /dev/null)"@
}

/// Lock-screen command: a per-window-manager lookup falling back to the
/// built-in default.
pub open spec fn lock_screen_spec() -> Seq<char> {
    "$(trawlcat wm.program.lock \""@ + default_lock_spec() + "\")"@
}

pub fn lock_screen_command() -> (r: String)
    ensures
        r@ == lock_screen_spec(),
{
    let mut s = "$(trawlcat wm.program.lock \"".to_owned();
    s.append("gtklock -d --background $(trawlcat regolith.lockscreen.wallpaper.file /dev/null)");
    s.append("\")");
    proof {
        assert(s@ =~= lock_screen_spec());
    }
    s
}

/// Command run when the system is about to sleep: display off, lock the
/// screen, pause media, then a short delay.
pub open spec fn before_sleep_spec() -> Seq<char> {
    display_off_spec() + ";"@ + lock_screen_spec() + ";"@ + "playerctl -a pause"@ + ";sleep 1"@
}

pub fn before_sleep_command() -> (r: String)
    ensures
        r@ == before_sleep_spec(),
{
    let mut s = display_off_command();
    s.append(";");
    let lock = lock_screen_command();
    s.append(lock.as_str());
    s.append(";");
    s.append("playerctl -a pause");
    s.append(";sleep 1");
    proof {
        assert(s@ =~= before_sleep_spec());
    }
    s
}

// ---------------------------------------------------------------------------
// Idle dimming
// ---------------------------------------------------------------------------

/// Script run when the idle-dim timeout fires: capture the current brightness
/// to a scratch file, then lower it to `brightness` only if the captured value
/// exceeds it (never raise it).
pub open spec fn dim_script_spec(brightness: u32) -> Seq<char> {
    "\n                export curr_brightness=$(light)\n                echo $curr_brightness | tee $XDG_RUNTIME_DIR/screen_brightness_old.var\n                if [ 1 -eq \"$(echo \"${curr_brightness} > "@
        + dec_spec(brightness as nat)
        + "\" | bc)\" ]; then\n                    light -S "@ + dec_spec(brightness as nat)
        + "\n                fi\n                "@
}

pub fn dim_script(brightness: u32) -> (r: String)
    ensures
        r@ == dim_script_spec(brightness),
{
    let level = u32_string(brightness);
    let mut s =
        "\n                export curr_brightness=$(light)\n                echo $curr_brightness | tee $XDG_RUNTIME_DIR/screen_brightness_old.var\n                if [ 1 -eq \"$(echo \"${curr_brightness} > ".to_owned();
    s.append(level.as_str());
    s.append("\" | bc)\" ]; then\n                    light -S ");
    s.append(level.as_str());
    s.append("\n                fi\n                ");
    proof {
        assert(s@ =~= dim_script_spec(brightness));
    }
    s
}

/// Script run on resume from the dim timeout: restore the captured brightness.
pub open spec fn restore_brightness_spec() -> Seq<char> {
    "light -S $(cat $XDG_RUNTIME_DIR/screen_brightness_old.var)"@
}

pub fn restore_brightness_command() -> (r: String)
    ensures
        r@ == restore_brightness_spec(),
{
    "light -S $(cat $XDG_RUNTIME_DIR/screen_brightness_old.var)".to_owned()
}

// ---------------------------------------------------------------------------
// Power-source guards
// ---------------------------------------------------------------------------

/// Wraps a sleep action so it runs only while on AC power.
pub open spec fn ac_guard_spec(action: Seq<char>) -> Seq<char> {
    "\n            if on_ac_power; then\n                "@ + action + "\n            fi\n            "@
}

pub fn ac_guard(action: &str) -> (r: String)
    ensures
        r@ == ac_guard_spec(action@),
{
    let mut s = "\n            if on_ac_power; then\n                ".to_owned();
    s.append(action);
    s.append("\n            fi\n            ");
    proof {
        assert(s@ =~= ac_guard_spec(action@));
    }
    s
}

/// Wraps a sleep action so it runs only while on battery power.
pub open spec fn battery_guard_spec(action: Seq<char>) -> Seq<char> {
    "\n            if ! on_ac_power; then\n                "@ + action + "\n            fi\n            "@
}

pub fn battery_guard(action: &str) -> (r: String)
    ensures
        r@ == battery_guard_spec(action@),
{
    let mut s = "\n            if ! on_ac_power; then\n                ".to_owned();
    s.append(action);
    s.append("\n            fi\n            ");
    proof {
        assert(s@ =~= battery_guard_spec(action@));
    }
    s
}

// ---------------------------------------------------------------------------
// Sleep-action resolution table
// ---------------------------------------------------------------------------

/// The on-timeout action for a sleep mode, or `None` when the mode produces no
/// action. `Interactive` has no defined confirmation policy and degrades to no
/// action so that compilation never fails.
pub open spec fn timeout_action_spec(a: SleepAction) -> Option<Seq<char>> {
    match a {
        SleepAction::Suspend => Some("systemctl suspend"@),
        SleepAction::Hibernate => Some("systemctl hibernate"@),
        SleepAction::Blank => Some(blank_off_spec()),
        SleepAction::Shutdown => Some("poweroff"@),
        SleepAction::Logout => Some("gnome-session-quit --no-prompt"@),
        SleepAction::Interactive => None,
        SleepAction::Nothing => None,
    }
}

/// The paired on-resume action: only `Blank` has one.
pub open spec fn resume_action_spec(a: SleepAction) -> Option<Seq<char>> {
    match a {
        SleepAction::Blank => Some(blank_on_spec()),
        _ => None,
    }
}

pub fn timeout_action(a: SleepAction) -> (r: Option<&'static str>)
    ensures
        r.deep_view() == timeout_action_spec(a),
{
    match a {
        SleepAction::Suspend => Some("systemctl suspend"),
        SleepAction::Hibernate => Some("systemctl hibernate"),
        SleepAction::Blank => Some("swaymsg output * dpms off"),
        SleepAction::Shutdown => Some("poweroff"),
        SleepAction::Logout => Some("gnome-session-quit --no-prompt"),
        SleepAction::Interactive => None,
        SleepAction::Nothing => None,
    }
}

pub fn resume_action(a: SleepAction) -> (r: Option<&'static str>)
    ensures
        r.deep_view() == resume_action_spec(a),
{
    match a {
        SleepAction::Blank => Some("swaymsg output * dpms on"),
        _ => None,
    }
}

} // verus!
