//! The action timeline: the ordered command sequence compiled from a settings
//! snapshot and handed to the idle helper, and its serialization into the
//! helper's argument vector.

use vstd::prelude::*;
use crate::commands::{
    ac_guard, ac_guard_spec, battery_guard, battery_guard_spec, before_sleep_command,
    blank_off_spec, blank_on_spec,
    before_sleep_spec, dim_script, dim_script_spec, display_on_command, display_on_spec,
    lock_screen_command, lock_screen_spec, restore_brightness_command, restore_brightness_spec,
    resume_action, resume_action_spec, timeout_action, timeout_action_spec,
};
use crate::decimal::{dec_spec, u32_string};
use crate::settings::{PolicySnapshot, SleepAction};

verus! {

/// One entry of the timeline. The helper associates behavior with the entry's
/// kind; a `Resume` is paired with the `Timeout` it follows.
pub enum Directive {
    Timeout { trigger_seconds: u32, command: String },
    Resume { command: String },
    BeforeSleep { command: String },
    AfterResume { command: String },
    LockScreen { command: String },
}

/// Mathematical model of a directive: the command as a character sequence.
#[verifier::ext_equal]
pub enum DirectiveModel {
    Timeout { trigger_seconds: u32, command: Seq<char> },
    Resume { command: Seq<char> },
    BeforeSleep { command: Seq<char> },
    AfterResume { command: Seq<char> },
    LockScreen { command: Seq<char> },
}

impl View for Directive {
    type V = DirectiveModel;

    open spec fn view(&self) -> DirectiveModel {
        match self {
            Directive::Timeout { trigger_seconds, command } => DirectiveModel::Timeout {
                trigger_seconds: *trigger_seconds,
                command: command@,
            },
            Directive::Resume { command } => DirectiveModel::Resume { command: command@ },
            Directive::BeforeSleep { command } => DirectiveModel::BeforeSleep {
                command: command@,
            },
            Directive::AfterResume { command } => DirectiveModel::AfterResume {
                command: command@,
            },
            Directive::LockScreen { command } => DirectiveModel::LockScreen { command: command@ },
        }
    }
}

impl DeepView for Directive {
    type V = DirectiveModel;

    open spec fn deep_view(&self) -> DirectiveModel {
        self.view()
    }
}

// ---------------------------------------------------------------------------
// The compiled timeline, as a specification
// ---------------------------------------------------------------------------

/// The dim timeout entry for a snapshot.
pub open spec fn dim_timeout_model(s: PolicySnapshot) -> DirectiveModel {
    DirectiveModel::Timeout {
        trigger_seconds: s.idle_delay_seconds,
        command: dim_script_spec(s.idle_brightness),
    }
}

/// The brightness-restore entry paired with the dim timeout.
pub open spec fn dim_resume_model() -> DirectiveModel {
    DirectiveModel::Resume { command: restore_brightness_spec() }
}

/// The dim pair, present exactly when idle dimming is enabled.
pub open spec fn dim_part_spec(s: PolicySnapshot) -> Seq<DirectiveModel> {
    if s.idle_dim {
        seq![dim_timeout_model(s), dim_resume_model()]
    } else {
        Seq::empty()
    }
}

/// The entries for one power source: a guarded timeout when the mode resolves
/// to an action, followed by its paired resume when the mode has one.
pub open spec fn powered_part_spec(mode: SleepAction, timeout_seconds: u32, on_ac: bool) -> Seq<
    DirectiveModel,
> {
    match timeout_action_spec(mode) {
        Some(action) => {
            let guarded = if on_ac {
                ac_guard_spec(action)
            } else {
                battery_guard_spec(action)
            };
            let timeout_entry = DirectiveModel::Timeout {
                trigger_seconds: timeout_seconds,
                command: guarded,
            };
            match resume_action_spec(mode) {
                Some(resume) => seq![
                    timeout_entry,
                    DirectiveModel::Resume { command: resume },
                ],
                None => seq![timeout_entry],
            }
        },
        None => Seq::empty(),
    }
}

/// The AC-power section of a snapshot's timeline.
pub open spec fn ac_part_spec(s: PolicySnapshot) -> Seq<DirectiveModel> {
    powered_part_spec(s.sleep_inactive_ac_mode, s.sleep_inactive_ac_timeout_seconds, true)
}

/// The battery-power section of a snapshot's timeline.
pub open spec fn battery_part_spec(s: PolicySnapshot) -> Seq<DirectiveModel> {
    powered_part_spec(
        s.sleep_inactive_battery_mode,
        s.sleep_inactive_battery_timeout_seconds,
        false,
    )
}

/// The unconditional tail: before-sleep hook, after-resume hook, lock command.
pub open spec fn tail_part_spec() -> Seq<DirectiveModel> {
    seq![
        DirectiveModel::BeforeSleep { command: before_sleep_spec() },
        DirectiveModel::AfterResume { command: display_on_spec() },
        DirectiveModel::LockScreen { command: lock_screen_spec() },
    ]
}

/// The full timeline compiled from a snapshot, in emission order.
pub open spec fn timeline_spec(s: PolicySnapshot) -> Seq<DirectiveModel> {
    dim_part_spec(s) + ac_part_spec(s) + battery_part_spec(s) + tail_part_spec()
}

// ---------------------------------------------------------------------------
// The compiler
// ---------------------------------------------------------------------------

/// Appends the directives for one power source.
fn push_powered(out: &mut Vec<Directive>, mode: SleepAction, timeout_seconds: u32, on_ac: bool)
    ensures
        final(out).deep_view() == old(out).deep_view() + powered_part_spec(
            mode,
            timeout_seconds,
            on_ac,
        ),
{
    match timeout_action(mode) {
        Some(action) => {
            let guarded = if on_ac {
                ac_guard(action)
            } else {
                battery_guard(action)
            };
            out.push(Directive::Timeout { trigger_seconds: timeout_seconds, command: guarded });
            match resume_action(mode) {
                Some(resume) => {
                    out.push(Directive::Resume { command: resume.to_owned() });
                },
                None => {},
            }
        },
        None => {},
    }
    proof {
        assert(out.deep_view() =~~= old(out).deep_view() + powered_part_spec(
            mode,
            timeout_seconds,
            on_ac,
        ));
    }
}

/// Compiles a settings snapshot into its action timeline. Compilation is a
/// pure function of the snapshot: it performs no observable effects and never
/// fails, for every snapshot value.
pub fn compile_timeline(s: &PolicySnapshot) -> (r: Vec<Directive>)
    ensures
        r.deep_view() == timeline_spec(*s),
{
    let mut out: Vec<Directive> = Vec::new();
    if s.idle_dim {
        out.push(
            Directive::Timeout {
                trigger_seconds: s.idle_delay_seconds,
                command: dim_script(s.idle_brightness),
            },
        );
        out.push(Directive::Resume { command: restore_brightness_command() });
    }
    proof {
        assert(out.deep_view() =~~= dim_part_spec(*s));
    }
    push_powered(&mut out, s.sleep_inactive_ac_mode, s.sleep_inactive_ac_timeout_seconds, true);
    push_powered(
        &mut out,
        s.sleep_inactive_battery_mode,
        s.sleep_inactive_battery_timeout_seconds,
        false,
    );
    out.push(Directive::BeforeSleep { command: before_sleep_command() });
    out.push(Directive::AfterResume { command: display_on_command() });
    out.push(Directive::LockScreen { command: lock_screen_command() });
    proof {
        assert(out.deep_view() =~~= timeline_spec(*s));
    }
    out
}

// ---------------------------------------------------------------------------
// Serialization into the helper's argument vector
// ---------------------------------------------------------------------------

/// The keyword/argument pair(s) one directive contributes to the helper's
/// argument vector.
pub open spec fn directive_args_spec(d: DirectiveModel) -> Seq<Seq<char>> {
    match d {
        DirectiveModel::Timeout { trigger_seconds, command } => seq![
            "timeout"@,
            dec_spec(trigger_seconds as nat),
            command,
        ],
        DirectiveModel::Resume { command } => seq!["resume"@, command],
        DirectiveModel::BeforeSleep { command } => seq!["before-sleep"@, command],
        DirectiveModel::AfterResume { command } => seq!["after-resume"@, command],
        DirectiveModel::LockScreen { command } => seq!["lock"@, command],
    }
}

/// The flattened argument vector of a timeline, in timeline order.
pub open spec fn timeline_args_spec(t: Seq<DirectiveModel>) -> Seq<Seq<char>>
    decreases t.len(),
{
    if t.len() == 0 {
        Seq::empty()
    } else {
        directive_args_spec(t[0]) + timeline_args_spec(t.drop_first())
    }
}

proof fn lemma_timeline_args_push(t: Seq<DirectiveModel>, d: DirectiveModel)
    ensures
        timeline_args_spec(t.push(d)) == timeline_args_spec(t) + directive_args_spec(d),
    decreases t.len(),
{
    if t.len() == 0 {
        assert(t.push(d).drop_first() =~= Seq::<DirectiveModel>::empty());
        assert(timeline_args_spec(Seq::<DirectiveModel>::empty()) == Seq::<Seq<char>>::empty());
        assert(t.push(d)[0] == d);
        assert(timeline_args_spec(t.push(d)) =~= timeline_args_spec(t) + directive_args_spec(d));
    } else {
        assert(t.push(d).drop_first() =~= t.drop_first().push(d));
        lemma_timeline_args_push(t.drop_first(), d);
        assert(t.push(d)[0] == t[0]);
        assert(timeline_args_spec(t.push(d)) == directive_args_spec(t[0]) + timeline_args_spec(
            t.drop_first().push(d),
        ));
        assert(timeline_args_spec(t) == directive_args_spec(t[0]) + timeline_args_spec(
            t.drop_first(),
        ));
        assert(timeline_args_spec(t.push(d)) =~= timeline_args_spec(t) + directive_args_spec(d));
    }
}

/// Serializes one directive as its keyword followed by its arguments.
pub fn directive_args(d: &Directive) -> (r: Vec<String>)
    ensures
        r.deep_view() == directive_args_spec(d.deep_view()),
{
    let mut v: Vec<String> = Vec::new();
    match d {
        Directive::Timeout { trigger_seconds, command } => {
            v.push("timeout".to_owned());
            v.push(u32_string(*trigger_seconds));
            v.push(command.clone());
        },
        Directive::Resume { command } => {
            v.push("resume".to_owned());
            v.push(command.clone());
        },
        Directive::BeforeSleep { command } => {
            v.push("before-sleep".to_owned());
            v.push(command.clone());
        },
        Directive::AfterResume { command } => {
            v.push("after-resume".to_owned());
            v.push(command.clone());
        },
        Directive::LockScreen { command } => {
            v.push("lock".to_owned());
            v.push(command.clone());
        },
    }
    proof {
        assert(v.deep_view() =~~= directive_args_spec(d.deep_view()));
    }
    v
}

/// Serializes a timeline into the helper's argument vector.
pub fn timeline_args(t: &Vec<Directive>) -> (r: Vec<String>)
    ensures
        r.deep_view() == timeline_args_spec(t.deep_view()),
{
    let mut args: Vec<String> = Vec::new();
    let mut i: usize = 0;
    while i < t.len()
        invariant
            i <= t.len(),
            args.deep_view() == timeline_args_spec(t.deep_view().subrange(0, i as int)),
        decreases t.len() - i,
    {
        let mut part = directive_args(&t[i]);
        args.append(&mut part);
        proof {
            assert(t.deep_view().subrange(0, i + 1 as int) =~= t.deep_view().subrange(
                0,
                i as int,
            ).push(t.deep_view()[i as int]));
            lemma_timeline_args_push(t.deep_view().subrange(0, i as int), t.deep_view()[i as int]);
            assert(args.deep_view() =~~= timeline_args_spec(
                t.deep_view().subrange(0, i + 1 as int),
            ));
        }
        i = i + 1;
    }
    proof {
        assert(t.deep_view().subrange(0, t.len() as int) =~= t.deep_view());
    }
    args
}

/// Compiles a snapshot and serializes the result: the exact argument vector
/// (after the helper's wait flag) with which the idle helper is spawned.
pub fn swayidle_args(s: &PolicySnapshot) -> (r: Vec<String>)
    ensures
        r.deep_view() == timeline_args_spec(timeline_spec(*s)),
{
    let timeline = compile_timeline(s);
    timeline_args(&timeline)
}

// ---------------------------------------------------------------------------
// Laws of the compiled timeline
// ---------------------------------------------------------------------------

/// Compilation is deterministic: equal snapshots compile to equal timelines,
/// and serialize to identical argument vectors. Together with the contracts of
/// `compile_timeline` and `swayidle_args`, compiling the same snapshot twice
/// yields byte-identical results.
pub proof fn lemma_compile_deterministic(s1: PolicySnapshot, s2: PolicySnapshot)
    requires
        s1 == s2,
    ensures
        timeline_spec(s1) == timeline_spec(s2),
        timeline_args_spec(timeline_spec(s1)) == timeline_args_spec(timeline_spec(s2)),
{
}

/// The timeline is laid out in fixed section order: the dim pair, the AC
/// section, the battery section, then the three unconditional tail entries.
pub proof fn lemma_timeline_sections(s: PolicySnapshot)
    ensures
        ({
            let t = timeline_spec(s);
            let nd = dim_part_spec(s).len() as int;
            let na = ac_part_spec(s).len() as int;
            let nb = battery_part_spec(s).len() as int;
            &&& t.len() == nd + na + nb + 3
            &&& t.subrange(0, nd) == dim_part_spec(s)
            &&& t.subrange(nd, nd + na) == ac_part_spec(s)
            &&& t.subrange(nd + na, nd + na + nb) == battery_part_spec(s)
            &&& t.subrange(nd + na + nb, t.len() as int) == tail_part_spec()
        }),
{
    let t = timeline_spec(s);
    let nd = dim_part_spec(s).len() as int;
    let na = ac_part_spec(s).len() as int;
    let nb = battery_part_spec(s).len() as int;
    assert(t.subrange(0, nd) =~= dim_part_spec(s));
    assert(t.subrange(nd, nd + na) =~= ac_part_spec(s));
    assert(t.subrange(nd + na, nd + na + nb) =~= battery_part_spec(s));
    assert(t.subrange(nd + na + nb, t.len() as int) =~= tail_part_spec());
}

/// When idle dimming is enabled, the dim timeout stands first in the
/// timeline and its paired brightness-restore resume is directly adjacent,
/// in that order.
pub proof fn lemma_dim_pair_adjacent(s: PolicySnapshot)
    requires
        s.idle_dim,
    ensures
        timeline_spec(s).len() >= 2,
        timeline_spec(s)[0] == dim_timeout_model(s),
        timeline_spec(s)[1] == dim_resume_model(),
{
}

/// The guard wrapped around a sleep action never equals the dim script: their
/// shapes differ at a fixed character position.
proof fn lemma_guard_ne_dim_script(action: Seq<char>, brightness: u32, on_ac: bool)
    ensures
        (if on_ac {
            ac_guard_spec(action)
        } else {
            battery_guard_spec(action)
        }) != dim_script_spec(brightness),
{
    reveal_strlit("\n            if on_ac_power; then\n                ");
    reveal_strlit("\n            if ! on_ac_power; then\n                ");
    reveal_strlit(
        "\n                export curr_brightness=$(light)\n                echo $curr_brightness | tee $XDG_RUNTIME_DIR/screen_brightness_old.var\n                if [ 1 -eq \"$(echo \"${curr_brightness} > ",
    );
    let g = if on_ac {
        ac_guard_spec(action)
    } else {
        battery_guard_spec(action)
    };
    assert(g[13] == 'i');
    assert(dim_script_spec(brightness)[13] == ' ');
}

/// The blank-mode resume command differs from the brightness-restore command.
proof fn lemma_blank_on_ne_restore()
    ensures
        blank_on_spec() != restore_brightness_spec(),
{
    reveal_strlit("swaymsg output * dpms on");
    reveal_strlit("light -S $(cat $XDG_RUNTIME_DIR/screen_brightness_old.var)");
    assert(blank_on_spec().len() != restore_brightness_spec().len());
}

/// No entry of a power-source section is the dim timeout or its paired
/// brightness restore.
proof fn lemma_powered_part_no_dim(
    s: PolicySnapshot,
    mode: SleepAction,
    timeout_seconds: u32,
    on_ac: bool,
)
    ensures
        forall|i: int|
            0 <= i < powered_part_spec(mode, timeout_seconds, on_ac).len() ==> (#[trigger] powered_part_spec(
                mode,
                timeout_seconds,
                on_ac,
            )[i]) != dim_timeout_model(s) && powered_part_spec(mode, timeout_seconds, on_ac)[i]
                != dim_resume_model(),
{
    let p = powered_part_spec(mode, timeout_seconds, on_ac);
    match timeout_action_spec(mode) {
        Some(action) => {
            lemma_guard_ne_dim_script(action, s.idle_brightness, on_ac);
            assert(p[0] != dim_timeout_model(s));
            assert(p[0] != dim_resume_model());
            match resume_action_spec(mode) {
                Some(resume) => {
                    lemma_blank_on_ne_restore();
                    assert(resume == blank_on_spec());
                    assert(p[1] != dim_timeout_model(s));
                    assert(p[1] != dim_resume_model());
                },
                None => {},
            }
        },
        None => {},
    }
    assert forall|i: int| 0 <= i < p.len() implies (#[trigger] p[i]) != dim_timeout_model(s) && p[i]
        != dim_resume_model() by {
        if i != 0 {
            assert(i == 1);
        }
    }
}

/// When idle dimming is disabled, the compiled timeline contains neither the
/// dim timeout nor its paired brightness-restore resume.
pub proof fn lemma_no_dim_when_disabled(s: PolicySnapshot)
    requires
        !s.idle_dim,
    ensures
        forall|i: int|
            0 <= i < timeline_spec(s).len() ==> (#[trigger] timeline_spec(s)[i])
                != dim_timeout_model(s) && timeline_spec(s)[i] != dim_resume_model(),
{
    let t = timeline_spec(s);
    let a = ac_part_spec(s);
    let b = battery_part_spec(s);
    let tail = tail_part_spec();
    lemma_powered_part_no_dim(s, s.sleep_inactive_ac_mode, s.sleep_inactive_ac_timeout_seconds, true);
    lemma_powered_part_no_dim(
        s,
        s.sleep_inactive_battery_mode,
        s.sleep_inactive_battery_timeout_seconds,
        false,
    );
    assert forall|i: int| 0 <= i < t.len() implies (#[trigger] t[i]) != dim_timeout_model(s) && t[i]
        != dim_resume_model() by {
        assert(dim_part_spec(s).len() == 0);
        if i < a.len() {
            assert(t[i] == a[i]);
        } else if i < a.len() + b.len() {
            assert(t[i] == b[i - a.len()]);
        } else {
            let j = i - a.len() - b.len();
            assert(t[i] == tail[j]);
            assert(tail[0] != dim_timeout_model(s) && tail[0] != dim_resume_model());
            assert(tail[1] != dim_timeout_model(s) && tail[1] != dim_resume_model());
            assert(tail[2] != dim_timeout_model(s) && tail[2] != dim_resume_model());
        }
    }
}

/// The model of the guarded timeout entry for one power source.
pub open spec fn guarded_timeout_model(timeout_seconds: u32, on_ac: bool, action: Seq<char>) -> DirectiveModel {
    DirectiveModel::Timeout {
        trigger_seconds: timeout_seconds,
        command: if on_ac {
            ac_guard_spec(action)
        } else {
            battery_guard_spec(action)
        },
    }
}

/// The fixed resolution table for one power source, entry by entry: `Blank`
/// alone emits both a timeout and its paired resume, directly adjacent and in
/// that order; `Suspend`, `Hibernate`, `Shutdown` and `Logout` emit only the
/// timeout; `Interactive` (no defined policy) and `Nothing` emit nothing.
pub proof fn lemma_sleep_mode_directives(mode: SleepAction, timeout_seconds: u32, on_ac: bool)
    ensures
        mode == SleepAction::Blank ==> (powered_part_spec(mode, timeout_seconds, on_ac) == seq![
            guarded_timeout_model(timeout_seconds, on_ac, blank_off_spec()),
            DirectiveModel::Resume { command: blank_on_spec() },
        ]),
        mode == SleepAction::Suspend ==> (powered_part_spec(mode, timeout_seconds, on_ac) == seq![
            guarded_timeout_model(timeout_seconds, on_ac, "systemctl suspend"@),
        ]),
        mode == SleepAction::Hibernate ==> (powered_part_spec(mode, timeout_seconds, on_ac) == seq![
            guarded_timeout_model(timeout_seconds, on_ac, "systemctl hibernate"@),
        ]),
        mode == SleepAction::Shutdown ==> (powered_part_spec(mode, timeout_seconds, on_ac) == seq![
            guarded_timeout_model(timeout_seconds, on_ac, "poweroff"@),
        ]),
        mode == SleepAction::Logout ==> (powered_part_spec(mode, timeout_seconds, on_ac) == seq![
            guarded_timeout_model(timeout_seconds, on_ac, "gnome-session-quit --no-prompt"@),
        ]),
        mode == SleepAction::Interactive || mode == SleepAction::Nothing ==> (powered_part_spec(
            mode,
            timeout_seconds,
            on_ac,
        ) == Seq::<DirectiveModel>::empty()),
{
    let p = powered_part_spec(mode, timeout_seconds, on_ac);
    match mode {
        SleepAction::Blank => {
            assert(p =~= seq![
                guarded_timeout_model(timeout_seconds, on_ac, blank_off_spec()),
                DirectiveModel::Resume { command: blank_on_spec() },
            ]);
        },
        SleepAction::Suspend => {
            assert(p =~= seq![guarded_timeout_model(timeout_seconds, on_ac, "systemctl suspend"@)]);
        },
        SleepAction::Hibernate => {
            assert(p =~= seq![
                guarded_timeout_model(timeout_seconds, on_ac, "systemctl hibernate"@),
            ]);
        },
        SleepAction::Shutdown => {
            assert(p =~= seq![guarded_timeout_model(timeout_seconds, on_ac, "poweroff"@)]);
        },
        SleepAction::Logout => {
            assert(p =~= seq![
                guarded_timeout_model(timeout_seconds, on_ac, "gnome-session-quit --no-prompt"@),
            ]);
        },
        SleepAction::Interactive => {
            assert(p =~= Seq::<DirectiveModel>::empty());
        },
        SleepAction::Nothing => {
            assert(p =~= Seq::<DirectiveModel>::empty());
        },
    }
}

} // verus!
