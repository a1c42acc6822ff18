//! Session state machine and timing store.
//!
//! `EventHandler` tracks the session-relative clock, the alive/dead state
//! with its post-death grace window, and the last-occurrence time of every
//! click category and raw button edge. All times are microseconds of
//! session time, starting at zero on level init or reset.

use vstd::prelude::*;

use crate::clickpack::Button;
use crate::clickpack::ButtonEdge;
use crate::clickpack::ClickType;
use crate::clickpack::Timings;
use crate::clickpack::spec_bucket;
use crate::clickpack::bucket_delta;

verus! {

/// Grace window applied by `on_death` when no window was configured, in
/// microseconds (half a second).
pub const DEATH_WINDOW_DEFAULT: u64 = 500000;

/// Last-occurrence time, in session microseconds, of every click category
/// and of every raw button edge. Zero means "never, session start".
#[derive(Clone, Copy, PartialEq, Eq, Structural, Debug)]
pub struct ClickTimes {
    pub click: u64,
    pub release: u64,
    pub hardclick: u64,
    pub hardrelease: u64,
    pub softclick: u64,
    pub softrelease: u64,
    pub microclick: u64,
    pub microrelease: u64,
    pub jump: u64,
    pub left: u64,
    pub right: u64,
}

impl Default for ClickTimes {
    fn default() -> (t: Self)
        ensures
            t == ClickTimes::spec_empty(),
    {
        ClickTimes {
            click: 0,
            release: 0,
            hardclick: 0,
            hardrelease: 0,
            softclick: 0,
            softrelease: 0,
            microclick: 0,
            microrelease: 0,
            jump: 0,
            left: 0,
            right: 0,
        }
    }
}

impl ClickTimes {
    /// Every slot at zero: the history of a fresh session.
    pub open spec fn spec_empty() -> ClickTimes {
        ClickTimes {
            click: 0,
            release: 0,
            hardclick: 0,
            hardrelease: 0,
            softclick: 0,
            softrelease: 0,
            microclick: 0,
            microrelease: 0,
            jump: 0,
            left: 0,
            right: 0,
        }
    }

    /// The last time any edge of `button` was observed.
    pub open spec fn button_slot(self, button: Button) -> u64 {
        match button {
            Button::Jump => self.jump,
            Button::Left => self.left,
            Button::Right => self.right,
        }
    }

    /// The last time an edge classified to `typ`; the `Silent` sentinel has
    /// no slot and reads as zero.
    pub open spec fn category_slot(self, typ: ClickType) -> u64 {
        match typ {
            ClickType::HardClick => self.hardclick,
            ClickType::HardRelease => self.hardrelease,
            ClickType::SoftClick => self.softclick,
            ClickType::SoftRelease => self.softrelease,
            ClickType::Click => self.click,
            ClickType::Release => self.release,
            ClickType::MicroClick => self.microclick,
            ClickType::MicroRelease => self.microrelease,
            ClickType::Silent => 0,
        }
    }

    /// `self` with the slot of `button` set to `t`.
    pub open spec fn with_button_slot(self, button: Button, t: u64) -> ClickTimes {
        match button {
            Button::Jump => ClickTimes { jump: t, ..self },
            Button::Left => ClickTimes { left: t, ..self },
            Button::Right => ClickTimes { right: t, ..self },
        }
    }

    /// `self` with the slot of category `typ` set to `t`; setting the
    /// `Silent` sentinel changes nothing.
    pub open spec fn with_category_slot(self, typ: ClickType, t: u64) -> ClickTimes {
        match typ {
            ClickType::HardClick => ClickTimes { hardclick: t, ..self },
            ClickType::HardRelease => ClickTimes { hardrelease: t, ..self },
            ClickType::SoftClick => ClickTimes { softclick: t, ..self },
            ClickType::SoftRelease => ClickTimes { softrelease: t, ..self },
            ClickType::Click => ClickTimes { click: t, ..self },
            ClickType::Release => ClickTimes { release: t, ..self },
            ClickType::MicroClick => ClickTimes { microclick: t, ..self },
            ClickType::MicroRelease => ClickTimes { microrelease: t, ..self },
            ClickType::Silent => self,
        }
    }

    /// Every slot is at most `t`.
    pub open spec fn bounded_by(self, t: u64) -> bool {
        &&& self.click <= t
        &&& self.release <= t
        &&& self.hardclick <= t
        &&& self.hardrelease <= t
        &&& self.softclick <= t
        &&& self.softrelease <= t
        &&& self.microclick <= t
        &&& self.microrelease <= t
        &&& self.jump <= t
        &&& self.left <= t
        &&& self.right <= t
    }

    /// Every slot of `self` is at most the matching slot of `other`.
    pub open spec fn pointwise_le(self, other: ClickTimes) -> bool {
        &&& self.click <= other.click
        &&& self.release <= other.release
        &&& self.hardclick <= other.hardclick
        &&& self.hardrelease <= other.hardrelease
        &&& self.softclick <= other.softclick
        &&& self.softrelease <= other.softrelease
        &&& self.microclick <= other.microclick
        &&& self.microrelease <= other.microrelease
        &&& self.jump <= other.jump
        &&& self.left <= other.left
        &&& self.right <= other.right
    }
}

/// The gap between the current time and the last recorded time; a slot that
/// lies in the future (which a well-driven session never produces) reads as
/// a zero gap.
pub open spec fn spec_delta(now: u64, last: u64) -> u64 {
    if now >= last {
        (now - last) as u64
    } else {
        0
    }
}

/// History update of one classified edge: both the raw per-button slot and
/// the resolved category slot move to the edge's time.
pub open spec fn spec_record(
    times: ClickTimes,
    button: Button,
    typ: ClickType,
    t: u64,
) -> ClickTimes {
    times.with_button_slot(button, t).with_category_slot(typ, t)
}

/// The category an edge classifies to, from the gap since the last edge of
/// the same button.
pub open spec fn spec_classify(
    times: ClickTimes,
    edge: ButtonEdge,
    timings: Timings,
) -> ClickType {
    spec_bucket(spec_delta(edge.timestamp, times.button_slot(edge.button)), timings, edge.pressed)
}

/// The history after classifying a whole sequence of edges in order.
pub open spec fn spec_classify_all(
    times: ClickTimes,
    edges: Seq<ButtonEdge>,
    timings: Timings,
) -> ClickTimes
    decreases edges.len(),
{
    if edges.len() == 0 {
        times
    } else {
        spec_classify_all(
            spec_record(times, edges[0].button, spec_classify(times, edges[0], timings), edges[0].timestamp),
            edges.drop_first(),
            timings,
        )
    }
}

/// A reference time stored per click category and per raw button edge,
/// kept beside a category for display.
#[derive(Clone, Copy, PartialEq, Eq, Structural, Debug)]
pub struct ClickTime {
    pub time: u64,
    pub typ: ClickType,
}

impl Default for ClickTime {
    fn default() -> (c: Self)
        ensures
            c.time == 0,
            c.typ == ClickType::Silent,
    {
        ClickTime { time: 0, typ: ClickType::Silent }
    }
}

/// Session state machine: level-relative clock, alive/dead state with a
/// grace window after death, and the timing history. Lifecycle calls are
/// tolerated in any order and applied defensively; none of them rejects a
/// transition.
#[derive(Clone, PartialEq, Eq, Structural, Debug)]
pub struct EventHandler {
    pub prev_times: ClickTimes,
    pub is_in_level: bool,
    pub playlayer_time: u64,
    pub dead_timer: Option<u64>,
    pub dead_timer_limit: u64,
}

impl Default for EventHandler {
    fn default() -> (h: Self)
        ensures
            h.prev_times == ClickTimes::spec_empty(),
            !h.is_in_level,
            h.playlayer_time == 0,
            h.dead_timer is None,
            h.dead_timer_limit == DEATH_WINDOW_DEFAULT,
    {
        EventHandler {
            prev_times: ClickTimes::default(),
            is_in_level: false,
            playlayer_time: 0,
            dead_timer: None,
            dead_timer_limit: DEATH_WINDOW_DEFAULT,
        }
    }
}

impl EventHandler {
    /// A fresh handler: out of any level, clock at zero, alive, empty
    /// history, default grace window.
    pub fn new() -> (h: Self)
        ensures
            h.prev_times == ClickTimes::spec_empty(),
            !h.is_in_level,
            h.playlayer_time == 0,
            h.dead_timer is None,
            h.dead_timer_limit == DEATH_WINDOW_DEFAULT,
    {
        Self::default()
    }

    /// Record a raw button action at the current level time, as observed:
    /// a left press lands in the plain click slot, a left release in the
    /// plain release slot, a right press and release in the hard slots, and
    /// any other button leaves the history unchanged.
    pub fn on_action(&mut self, button: Button, player2: bool, push: bool)
        ensures
            final(self).prev_times == old(self).spec_action_times(button, push, old(self).playlayer_time),
            final(self).is_in_level == old(self).is_in_level,
            final(self).playlayer_time == old(self).playlayer_time,
            final(self).dead_timer == old(self).dead_timer,
            final(self).dead_timer_limit == old(self).dead_timer_limit,
    {
        let current_time = self.playlayer_time;
        match (button, push) {
            (Button::Left, true) => self.prev_times.click = current_time,
            (Button::Left, false) => self.prev_times.release = current_time,
            (Button::Right, true) => self.prev_times.hardclick = current_time,
            (Button::Right, false) => self.prev_times.hardrelease = current_time,
            _ => {},
        }
    }

    /// The history after recording a raw action of `button` at `time`.
    pub open spec fn spec_action_times(self, button: Button, push: bool, time: u64) -> ClickTimes {
        match (button, push) {
            (Button::Left, true) => ClickTimes { click: time, ..self.prev_times },
            (Button::Left, false) => ClickTimes { release: time, ..self.prev_times },
            (Button::Right, true) => ClickTimes { hardclick: time, ..self.prev_times },
            (Button::Right, false) => ClickTimes { hardrelease: time, ..self.prev_times },
            _ => self.prev_times,
        }
    }

    /// Level reset: clock back to zero, grace window cleared, history
    /// cleared. Whether the session is inside a level does not change.
    pub fn on_reset(&mut self)
        ensures
            final(self).prev_times == ClickTimes::spec_empty(),
            final(self).playlayer_time == 0,
            final(self).dead_timer is None,
            final(self).is_in_level == old(self).is_in_level,
            final(self).dead_timer_limit == old(self).dead_timer_limit,
    {
        self.playlayer_time = 0;
        self.dead_timer = None;
        self.prev_times = ClickTimes::default();
    }

    /// Level init: the session becomes active with the clock at zero and no
    /// pending grace window. The history is kept, as a reset follows from
    /// the host where one is wanted.
    pub fn on_init(&mut self, _playlayer_addr: usize)
        ensures
            final(self).is_in_level,
            final(self).playlayer_time == 0,
            final(self).dead_timer is None,
            final(self).prev_times == old(self).prev_times,
            final(self).dead_timer_limit == old(self).dead_timer_limit,
    {
        self.is_in_level = true;
        self.playlayer_time = 0;
        self.dead_timer = None;
    }

    /// Level exit: the session becomes inactive, clock and grace window
    /// cleared.
    pub fn on_exit(&mut self)
        ensures
            !final(self).is_in_level,
            final(self).playlayer_time == 0,
            final(self).dead_timer is None,
            final(self).prev_times == old(self).prev_times,
            final(self).dead_timer_limit == old(self).dead_timer_limit,
    {
        self.is_in_level = false;
        self.playlayer_time = 0;
        self.dead_timer = None;
    }

    /// Player death: the grace window opens at zero elapsed with the default
    /// length. Applied defensively in any state.
    pub fn on_death(&mut self)
        ensures
            final(self).dead_timer == Some(0u64),
            final(self).dead_timer_limit == DEATH_WINDOW_DEFAULT,
            final(self).is_in_level == old(self).is_in_level,
            final(self).playlayer_time == old(self).playlayer_time,
            final(self).prev_times == old(self).prev_times,
    {
        self.dead_timer = Some(0);
        self.dead_timer_limit = DEATH_WINDOW_DEFAULT;
    }

    /// Player death with a configured grace window: the window opens at zero
    /// elapsed and runs for `spec_death_window(base, offset, negative)`
    /// microseconds.
    pub fn on_death_configured(&mut self, base: u64, offset: u64, negative: bool)
        requires
            !negative ==> base + offset <= u64::MAX,
        ensures
            final(self).dead_timer == Some(0u64),
            final(self).dead_timer_limit == spec_death_window(base, offset, negative),
            final(self).is_in_level == old(self).is_in_level,
            final(self).playlayer_time == old(self).playlayer_time,
            final(self).prev_times == old(self).prev_times,
    {
        self.dead_timer = Some(0);
        self.dead_timer_limit = death_window(base, offset, negative);
    }

    /// Per-frame update. While in a level the clock advances by `dt`; while
    /// the grace window is open its elapsed time advances by `dt` and the
    /// window closes once the elapsed time reaches its limit.
    pub fn on_update(&mut self, dt: u64)
        requires
            old(self).is_in_level ==> old(self).playlayer_time + dt <= u64::MAX,
            old(self).dead_timer matches Some(e) ==> e + dt <= u64::MAX,
        ensures
            final(self).playlayer_time == if old(self).is_in_level {
                (old(self).playlayer_time + dt) as u64
            } else {
                old(self).playlayer_time
            },
            final(self).dead_timer == match old(self).dead_timer {
                None => None::<u64>,
                Some(e) => if e + dt >= old(self).dead_timer_limit {
                    None::<u64>
                } else {
                    Some((e + dt) as u64)
                },
            },
            final(self).is_in_level == old(self).is_in_level,
            final(self).prev_times == old(self).prev_times,
            final(self).dead_timer_limit == old(self).dead_timer_limit,
    {
        if self.is_in_level {
            self.playlayer_time = self.playlayer_time + dt;
        }
        match self.dead_timer {
            Some(elapsed) => {
                let advanced = elapsed + dt;
                if advanced >= self.dead_timer_limit {
                    self.dead_timer = None;
                } else {
                    self.dead_timer = Some(advanced);
                }
            },
            None => {},
        }
    }

    /// The session is inside the post-death grace window.
    pub fn is_dead(&self) -> (b: bool)
        ensures
            b == (self.dead_timer is Some),
    {
        self.dead_timer.is_some()
    }

    /// The session-relative clock, in microseconds.
    pub fn get_level_time(&self) -> (t: u64)
        ensures
            t == self.playlayer_time,
    {
        self.playlayer_time
    }

    /// Whether state alone asks to drop a click. The handler itself never
    /// does: suppression is the ignore policy's and the death gate's job.
    pub fn should_ignore_click(&self, _click_type: ClickType) -> (b: bool)
        ensures
            !b,
    {
        false
    }

    /// The recorded time of the raw slot a button action lands in; buttons
    /// without a raw action slot read as zero.
    pub fn get_click_timing(&self, button: Button, push: bool) -> (t: u64)
        ensures
            t == self.spec_click_timing(button, push),
    {
        match (button, push) {
            (Button::Left, true) => self.prev_times.click,
            (Button::Left, false) => self.prev_times.release,
            (Button::Right, true) => self.prev_times.hardclick,
            (Button::Right, false) => self.prev_times.hardrelease,
            _ => 0,
        }
    }

    /// The slot read by `get_click_timing` and written by `update_timing`.
    pub open spec fn spec_click_timing(self, button: Button, push: bool) -> u64 {
        match (button, push) {
            (Button::Left, true) => self.prev_times.click,
            (Button::Left, false) => self.prev_times.release,
            (Button::Right, true) => self.prev_times.hardclick,
            (Button::Right, false) => self.prev_times.hardrelease,
            _ => 0,
        }
    }

    /// Overwrite the raw slot of a button action with `time`.
    pub fn update_timing(&mut self, button: Button, push: bool, time: u64)
        ensures
            final(self).prev_times == old(self).spec_action_times(button, push, time),
            final(self).is_in_level == old(self).is_in_level,
            final(self).playlayer_time == old(self).playlayer_time,
            final(self).dead_timer == old(self).dead_timer,
            final(self).dead_timer_limit == old(self).dead_timer_limit,
    {
        match (button, push) {
            (Button::Left, true) => self.prev_times.click = time,
            (Button::Left, false) => self.prev_times.release = time,
            (Button::Right, true) => self.prev_times.hardclick = time,
            (Button::Right, false) => self.prev_times.hardrelease = time,
            _ => {},
        }
    }

    /// Clear the whole timing history.
    pub fn reset_timings(&mut self)
        ensures
            final(self).prev_times == ClickTimes::spec_empty(),
            final(self).is_in_level == old(self).is_in_level,
            final(self).playlayer_time == old(self).playlayer_time,
            final(self).dead_timer == old(self).dead_timer,
            final(self).dead_timer_limit == old(self).dead_timer_limit,
    {
        self.prev_times = ClickTimes::default();
    }

    /// Elapsed time inside the grace window, if one is open.
    pub fn get_death_timer(&self) -> (t: Option<u64>)
        ensures
            t == self.dead_timer,
    {
        self.dead_timer
    }

    /// Inside a level and not in the grace window.
    pub fn is_level_active(&self) -> (b: bool)
        ensures
            b == (self.is_in_level && self.dead_timer is None),
    {
        self.is_in_level && self.dead_timer.is_none()
    }

    /// The gap between `now` and the last time an edge classified to `typ`:
    /// the elapsed-since-last-same-category value that the volume and pitch
    /// policies consume.
    pub fn elapsed_since_category(&self, typ: ClickType, now: u64) -> (d: u64)
        ensures
            d == spec_delta(now, self.prev_times.category_slot(typ)),
    {
        let last = match typ {
            ClickType::HardClick => self.prev_times.hardclick,
            ClickType::HardRelease => self.prev_times.hardrelease,
            ClickType::SoftClick => self.prev_times.softclick,
            ClickType::SoftRelease => self.prev_times.softrelease,
            ClickType::Click => self.prev_times.click,
            ClickType::Release => self.prev_times.release,
            ClickType::MicroClick => self.prev_times.microclick,
            ClickType::MicroRelease => self.prev_times.microrelease,
            ClickType::Silent => 0,
        };
        if now >= last {
            now - last
        } else {
            0
        }
    }

    /// Classify one observed edge against the thresholds and record it: the
    /// gap since the last edge of the same button selects the category, and
    /// both the raw button slot and the resolved category slot move to the
    /// edge's time. History is recorded even when the result is later
    /// suppressed, so the next gap stays correct.
    pub fn classify(&mut self, edge: ButtonEdge, timings: &Timings) -> (c: ClickType)
        ensures
            c == spec_classify(old(self).prev_times, edge, *timings),
            c != ClickType::Silent,
            final(self).prev_times == spec_record(old(self).prev_times, edge.button, c, edge.timestamp),
            final(self).is_in_level == old(self).is_in_level,
            final(self).playlayer_time == old(self).playlayer_time,
            final(self).dead_timer == old(self).dead_timer,
            final(self).dead_timer_limit == old(self).dead_timer_limit,
    {
        let last = match edge.button {
            Button::Jump => self.prev_times.jump,
            Button::Left => self.prev_times.left,
            Button::Right => self.prev_times.right,
        };
        let delta = if edge.timestamp >= last {
            edge.timestamp - last
        } else {
            0
        };
        let category = bucket_delta(delta, timings, edge.pressed);
        match edge.button {
            Button::Jump => self.prev_times.jump = edge.timestamp,
            Button::Left => self.prev_times.left = edge.timestamp,
            Button::Right => self.prev_times.right = edge.timestamp,
        }
        match category {
            ClickType::HardClick => self.prev_times.hardclick = edge.timestamp,
            ClickType::HardRelease => self.prev_times.hardrelease = edge.timestamp,
            ClickType::SoftClick => self.prev_times.softclick = edge.timestamp,
            ClickType::SoftRelease => self.prev_times.softrelease = edge.timestamp,
            ClickType::Click => self.prev_times.click = edge.timestamp,
            ClickType::Release => self.prev_times.release = edge.timestamp,
            ClickType::MicroClick => self.prev_times.microclick = edge.timestamp,
            ClickType::MicroRelease => self.prev_times.microrelease = edge.timestamp,
            ClickType::Silent => {},
        }
        category
    }
}

/// Length of the post-death grace window from its configuration: the offset
/// widens the base delay, and the negative flag turns the offset into a
/// shortening instead, never below zero.
pub open spec fn spec_death_window(base: u64, offset: u64, negative: bool) -> u64 {
    if negative {
        if base >= offset {
            (base - offset) as u64
        } else {
            0
        }
    } else {
        (base + offset) as u64
    }
}

/// Compute the grace-window length from the configured base delay, offset,
/// and negative flag.
pub fn death_window(base: u64, offset: u64, negative: bool) -> (w: u64)
    requires
        !negative ==> base + offset <= u64::MAX,
    ensures
        w == spec_death_window(base, offset, negative),
{
    if negative {
        if base >= offset {
            base - offset
        } else {
            0
        }
    } else {
        base + offset
    }
}

} // verus!
