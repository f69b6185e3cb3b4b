//! What the cat chases, decided once per animation tick (about ten a second).
//!
//! A viewer's click relayed from Twitch Heat comes first, in every mode. Otherwise
//! the mode decides: in sleep mode the cat stays where it is; in mouse mode it chases
//! the pointer; in autonomous mode it wanders, or strolls under a window that has
//! kept the focus for a minute; in the ball mode it chases the yarn ball, and rests
//! after catching it before a new ball appears. A Twitch click counts for a while
//! only: an older one is ignored.

use vstd::prelude::*;
use crate::text::str_eq;
use crate::pet::State;

verus! {

/// The behavior modes, as the settings name them.
#[derive(PartialEq, Eq, Structural, Clone, Copy, Debug)]
pub enum Mode {
    /// `Pelote`: chase the yarn ball.
    Yarn,
    /// `Autonome`: wander, or dock under the focused window.
    Autonomous,
    /// `Sommeil`: stay and sleep.
    Sleep,
    /// `Souris`: chase the mouse pointer.
    Mouse,
    /// Any other name.
    Other,
}

/// The mode a setting's name selects.
pub open spec fn mode_of(name: Seq<char>) -> Mode {
    if name == "Pelote"@ {
        Mode::Yarn
    } else if name == "Autonome"@ {
        Mode::Autonomous
    } else if name == "Sommeil"@ {
        Mode::Sleep
    } else if name == "Souris"@ {
        Mode::Mouse
    } else {
        Mode::Other
    }
}

impl Mode {
    /// The mode a setting's name selects.
    pub fn from_name(name: &str) -> (m: Mode)
        ensures
            m == mode_of(name@),
    {
        if str_eq(name, "Pelote") {
            Mode::Yarn
        } else if str_eq(name, "Autonome") {
            Mode::Autonomous
        } else if str_eq(name, "Sommeil") {
            Mode::Sleep
        } else if str_eq(name, "Souris") {
            Mode::Mouse
        } else {
            Mode::Other
        }
    }

    /// The mode's position in the dashboard's list: ball, autonomous, mouse, sleep.
    pub fn dashboard_index(self) -> (r: Option<u32>)
        ensures
            r == match self {
                Mode::Yarn => Some(0u32),
                Mode::Autonomous => Some(1u32),
                Mode::Mouse => Some(2u32),
                Mode::Sleep => Some(3u32),
                Mode::Other => None,
            },
    {
        match self {
            Mode::Yarn => Some(0),
            Mode::Autonomous => Some(1),
            Mode::Mouse => Some(2),
            Mode::Sleep => Some(3),
            Mode::Other => None,
        }
    }

    /// Whether the yarn ball is out in this mode when the mode is taken: only in the
    /// ball mode.
    pub fn keeps_ball(self) -> (r: bool)
        ensures
            r == (self == Mode::Yarn),
    {
        match self {
            Mode::Yarn => true,
            _ => false,
        }
    }
}

/// What the cat does in a tick.
#[derive(PartialEq, Eq, Structural, Clone, Copy, Debug)]
pub enum Behavior {
    /// Chases the last click relayed from Twitch Heat.
    Twitch,
    /// Stays where it is, and so falls asleep.
    Sleep,
    /// Strolls under the window that has kept the focus.
    Dock,
    /// Wanders toward random places.
    Wander,
    /// Chases the yarn ball.
    Yarn,
    /// Chases the mouse pointer.
    Mouse,
}

/// The behavior of a tick: a Twitch click first; then sleep mode; then the pointer
/// in mouse mode; then, in autonomous mode, docking when a window has kept the focus
/// long enough, else wandering; the ball in every other mode.
pub open spec fn behavior_of(twitch_active: bool, mode: Mode, docked: bool) -> Behavior {
    if twitch_active {
        Behavior::Twitch
    } else if mode == Mode::Sleep {
        Behavior::Sleep
    } else if mode == Mode::Mouse {
        Behavior::Mouse
    } else if mode == Mode::Autonomous {
        if docked {
            Behavior::Dock
        } else {
            Behavior::Wander
        }
    } else {
        Behavior::Yarn
    }
}

/// The behavior of a tick.
pub fn choose_behavior(twitch_active: bool, mode: Mode, docked: bool) -> (b: Behavior)
    ensures
        b == behavior_of(twitch_active, mode, docked),
{
    if twitch_active {
        Behavior::Twitch
    } else {
        match mode {
            Mode::Sleep => Behavior::Sleep,
            Mode::Mouse => Behavior::Mouse,
            Mode::Autonomous => if docked {
                Behavior::Dock
            } else {
                Behavior::Wander
            },
            _ => Behavior::Yarn,
        }
    }
}

/// The label a behavior is shown with in the debug overlay.
pub open spec fn behavior_label(b: Behavior) -> Seq<char> {
    match b {
        Behavior::Twitch => "twitch"@,
        Behavior::Sleep => "sommeil"@,
        Behavior::Dock => "dock"@,
        Behavior::Wander => "errance"@,
        Behavior::Yarn => "pelote"@,
        Behavior::Mouse => "souris"@,
    }
}

impl Behavior {
    /// What the cat does with its target: in sleep mode it stays and settles down
    /// wherever it is (`Rest`); otherwise it chases the target (`Chase`).
    pub fn pet_state(self) -> (s: State)
        ensures
            s is Rest <==> self == Behavior::Sleep,
    {
        match self {
            Behavior::Sleep => State::Rest,
            _ => State::Chase,
        }
    }

    /// The label the behavior is shown with in the debug overlay.
    pub fn label(self) -> (s: &'static str)
        ensures
            s@ == behavior_label(self),
    {
        match self {
            Behavior::Twitch => "twitch",
            Behavior::Sleep => "sommeil",
            Behavior::Dock => "dock",
            Behavior::Wander => "errance",
            Behavior::Yarn => "pelote",
            Behavior::Mouse => "souris",
        }
    }
}

/// What the mouse mode does in a tick.
#[derive(PartialEq, Eq, Structural, Clone, Copy, Debug)]
pub enum MousePlan {
    /// Chase the pointer's position.
    ChasePointer,
    /// The pointer's position is unknown: stay where it is.
    Stay,
}

/// The plan of the mouse mode: chase the pointer where its position is known,
/// stay otherwise.
pub fn mouse_plan(cursor_valid: bool) -> (plan: MousePlan)
    ensures
        plan == (if cursor_valid { MousePlan::ChasePointer } else { MousePlan::Stay }),
{
    if cursor_valid {
        MousePlan::ChasePointer
    } else {
        MousePlan::Stay
    }
}

/// How long a Twitch click is chased, in milliseconds; an older click is ignored.
pub const TWITCH_TIMEOUT_MS: u64 = 10000;

/// Whether a Twitch click still counts: one was received, at most
/// `TWITCH_TIMEOUT_MS` milliseconds ago.
pub open spec fn twitch_live_spec(active: bool, age_ms: u64) -> bool {
    active && age_ms <= TWITCH_TIMEOUT_MS
}

/// Whether a Twitch click still counts, from whether one was received and its age
/// in milliseconds.
pub fn twitch_live(active: bool, age_ms: u64) -> (r: bool)
    ensures
        r == twitch_live_spec(active, age_ms),
{
    active && age_ms <= TWITCH_TIMEOUT_MS
}

/// A click older than the timeout is ignored: the tick follows the mode.
pub proof fn law_old_click_ignored(mode: Mode, docked: bool, age_ms: u64)
    requires
        age_ms > TWITCH_TIMEOUT_MS,
    ensures
        behavior_of(twitch_live_spec(true, age_ms), mode, docked) == behavior_of(false, mode, docked),
        behavior_of(twitch_live_spec(true, age_ms), mode, docked) != Behavior::Twitch,
{
}

/// Without a live Twitch click, each mode keeps to its own behavior: sleep mode
/// sleeps, mouse mode chases the pointer, the ball mode (and any unknown mode) plays
/// with the ball, and autonomous mode docks or wanders; the dock flag matters in
/// autonomous mode only.
pub proof fn law_modes_keep_to_their_behavior(docked: bool)
    ensures
        behavior_of(false, Mode::Sleep, docked) == Behavior::Sleep,
        behavior_of(false, Mode::Mouse, docked) == Behavior::Mouse,
        behavior_of(false, Mode::Yarn, docked) == Behavior::Yarn,
        behavior_of(false, Mode::Other, docked) == Behavior::Yarn,
        behavior_of(false, Mode::Autonomous, true) == Behavior::Dock,
        behavior_of(false, Mode::Autonomous, false) == Behavior::Wander,
{
}

/// The dock flag changes nothing outside autonomous mode, and the cat docks only
/// in autonomous mode: in every other mode the behavior is the same whether or not
/// a window has kept the focus.
pub proof fn law_dock_only_in_autonomous(twitch: bool, mode: Mode)
    ensures
        mode != Mode::Autonomous ==> behavior_of(twitch, mode, true) == behavior_of(twitch, mode, false),
        behavior_of(twitch, mode, true) == Behavior::Dock ==> mode == Mode::Autonomous && !twitch,
        behavior_of(twitch, mode, false) != Behavior::Dock,
{
}

/// The mouse mode chases the pointer unless a Twitch click counts.
pub proof fn law_mouse_mode_chases_pointer(docked: bool)
    ensures
        behavior_of(false, Mode::Mouse, docked) == Behavior::Mouse,
{
}

/// Seconds a window must keep the focus before the cat docks under it.
pub const DOCK_DELAY_SECS: u64 = 60;

/// Whether the cat docks under the focused window: there is one, and it has kept
/// the focus for at least a minute.
pub fn is_docked(valid: bool, focused_secs: u64) -> (r: bool)
    ensures
        r == (valid && focused_secs >= DOCK_DELAY_SECS),
{
    valid && focused_secs >= DOCK_DELAY_SECS
}

/// Seconds left before the cat docks (zero or less once docked).
pub fn dock_countdown(focused_secs: u64) -> (r: i64)
    requires
        focused_secs <= i64::MAX,
    ensures
        r == DOCK_DELAY_SECS - focused_secs,
{
    (DOCK_DELAY_SECS as i64) - (focused_secs as i64)
}

/// Ticks the cat rests after catching the ball, before a new ball appears.
pub const REST_TICKS: i32 = 25;

/// What the ball mode does in a tick.
#[derive(PartialEq, Eq, Structural, Clone, Copy, Debug)]
pub enum YarnPlan {
    /// The ball is out: move it, and chase its center.
    ChaseBall,
    /// The cat rests where it is.
    Rest,
    /// Bring a new ball out, and chase it.
    Respawn,
}

/// The plan of a tick in the ball mode, and the rest left after it.
pub open spec fn yarn_step(rest: int, ball_out: bool) -> (YarnPlan, int) {
    if ball_out {
        (YarnPlan::ChaseBall, rest)
    } else if rest > 0 {
        (YarnPlan::Rest, rest - 1)
    } else {
        (YarnPlan::Respawn, rest)
    }
}

/// The rest left after `k` ticks without a ball, from `rest`.
pub open spec fn rest_after(rest: int, k: nat) -> int
    decreases k,
{
    if k == 0 {
        rest
    } else {
        yarn_step(rest_after(rest, (k - 1) as nat), false).1
    }
}

/// The ball mode's rest countdown.
pub struct YarnPlay {
    rest: i32,
}

impl YarnPlay {
    /// Ticks of rest left.
    pub closed spec fn rest(&self) -> i32 {
        self.rest
    }

    /// Well-formed: the rest left is between none and a full rest.
    pub open spec fn wf(&self) -> bool {
        0 <= self.rest() <= REST_TICKS
    }

    /// No rest pending.
    pub fn new() -> (p: YarnPlay)
        ensures
            p.wf(),
            p.rest() == 0,
    {
        YarnPlay { rest: 0 }
    }

    /// The plan of this tick, counting one tick of rest down where the cat rests.
    pub fn next(&mut self, ball_out: bool) -> (plan: YarnPlan)
        requires
            old(self).wf(),
        ensures
            final(self).wf(),
            (plan, final(self).rest() as int) == yarn_step(old(self).rest() as int, ball_out),
    {
        if ball_out {
            YarnPlan::ChaseBall
        } else if self.rest > 0 {
            self.rest = self.rest - 1;
            YarnPlan::Rest
        } else {
            YarnPlan::Respawn
        }
    }

    /// The cat caught the ball: a full rest begins.
    pub fn caught(&mut self)
        ensures
            final(self).wf(),
            final(self).rest() == REST_TICKS,
    {
        self.rest = REST_TICKS;
    }
}

proof fn lemma_rest_after(k: nat)
    requires
        k <= REST_TICKS,
    ensures
        rest_after(REST_TICKS as int, k) == REST_TICKS - k,
    decreases k,
{
    if k > 0 {
        lemma_rest_after((k - 1) as nat);
    }
}

/// Once the ball is caught, the cat rests for exactly `REST_TICKS` ticks, and a new
/// ball appears on the tick after.
pub proof fn law_rest_then_new_ball(k: nat)
    ensures
        k < REST_TICKS ==> yarn_step(rest_after(REST_TICKS as int, k), false).0 == YarnPlan::Rest,
        k == REST_TICKS ==> yarn_step(rest_after(REST_TICKS as int, k), false).0 == YarnPlan::Respawn,
{
    if k <= REST_TICKS {
        lemma_rest_after(k);
    }
}

/// A click relayed from Twitch takes priority over every mode.
pub proof fn law_twitch_first(mode: Mode, docked: bool)
    ensures
        behavior_of(true, mode, docked) == Behavior::Twitch,
{
}

/// What changed in the shared settings since they were last looked at.
#[derive(PartialEq, Eq, Structural, Clone, Copy, Debug)]
pub struct ControlEvents {
    /// The dashboard was asked for again.
    pub open_dashboard: bool,
    /// A setting changed: reload the skin, ball and scale.
    pub reload: bool,
}

/// The last version of the settings, and the last dashboard request, acted upon.
pub struct ControlWatch {
    seen_version: u64,
    seen_open: u64,
}

impl ControlWatch {
    /// The settings version last acted upon.
    pub closed spec fn version_seen(&self) -> u64 {
        self.seen_version
    }

    /// The dashboard request last acted upon.
    pub closed spec fn open_seen(&self) -> u64 {
        self.seen_open
    }

    /// Nothing acted upon yet: both counters at zero.
    pub fn new() -> (w: ControlWatch)
        ensures
            w.version_seen() == 0,
            w.open_seen() == 0,
    {
        ControlWatch { seen_version: 0, seen_open: 0 }
    }

    /// Compares the shared counters with those last acted upon, and takes them.
    pub fn poll(&mut self, version: u64, open_config: u64) -> (ev: ControlEvents)
        ensures
            ev == poll_events(old(self).version_seen(), old(self).open_seen(), version, open_config),
            final(self).open_seen() == open_config,
            final(self).version_seen() == version,
    {
        let open_dashboard = open_config != self.seen_open;
        let reload = version != self.seen_version;
        self.seen_open = open_config;
        self.seen_version = version;
        ControlEvents { open_dashboard, reload }
    }
}

/// The window that has the focus, as far as the cat needs it: its address, and
/// whether there is one.
pub struct FocusWatch {
    addr: String,
    valid: bool,
}

impl FocusWatch {
    /// The address of the focused window (empty when none).
    pub closed spec fn address(&self) -> Seq<char> {
        self.addr@
    }

    /// Whether a window has the focus.
    pub closed spec fn has_focus(&self) -> bool {
        self.valid
    }

    /// No window known.
    pub fn new() -> (w: FocusWatch)
        ensures
            w.address() == Seq::<char>::empty(),
            !w.has_focus(),
    {
        FocusWatch { addr: String::new(), valid: false }
    }

    /// Whether a window has the focus.
    pub fn valid(&self) -> (r: bool)
        ensures
            r == self.has_focus(),
    {
        self.valid
    }

    /// Takes in the focused window's address, or `None` when no window has the
    /// focus. Returns whether the focus time starts over: when the address differs
    /// from the one held, which is empty after the focus was lost.
    pub fn observe(&mut self, addr: Option<String>) -> (restart: bool)
        ensures
            (final(self).address(), restart) == observe_step(old(self).address(), match addr {
                Some(a) => Some(a@),
                None => None,
            }),
            final(self).has_focus() == addr is Some,
    {
        match addr {
            Some(a) => {
                let restart = !(a == self.addr);
                if restart {
                    self.addr = a;
                }
                self.valid = true;
                restart
            },
            None => {
                self.valid = false;
                self.addr = String::new();
                false
            },
        }
    }
}

/// What polling reports, for counters last acted upon `(seen_version, seen_open)`.
pub open spec fn poll_events(seen_version: u64, seen_open: u64, version: u64, open_config: u64) -> ControlEvents {
    ControlEvents { open_dashboard: open_config != seen_open, reload: version != seen_version }
}

/// Each change of the settings is acted upon once: a second poll with the same
/// counters, after the first took them, reports nothing.
pub proof fn law_poll_once(seen_version: u64, seen_open: u64, version: u64, open_config: u64)
    ensures
        poll_events(version, open_config, version, open_config) == (ControlEvents { open_dashboard: false, reload: false }),
        (version != seen_version) == poll_events(seen_version, seen_open, version, open_config).reload,
{
}

/// The watch after observing `addr`, from address `held`, and whether the focus time
/// starts over.
pub open spec fn observe_step(held: Seq<char>, addr: Option<Seq<char>>) -> (Seq<char>, bool) {
    match addr {
        Some(a) => (a, a != held),
        None => (Seq::empty(), false),
    }
}

/// The focus time of a window runs on while it keeps the focus: observing the
/// same window again does not restart it. It starts over when the window takes the
/// focus back after the focus was lost.
pub proof fn law_focus_time(held: Seq<char>, a: Seq<char>)
    ensures
        observe_step(observe_step(held, Some(a)).0, Some(a)).1 == false,
        a.len() > 0 ==> observe_step(observe_step(observe_step(held, Some(a)).0, None).0, Some(a)).1 == true,
{
}

} // verus!
