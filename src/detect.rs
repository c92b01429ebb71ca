use vstd::prelude::*;
use vstd::string::*;

use crate::ieee::{float_lt, float_max, is_finite, is_nan, order_key, Binary64};
use crate::number::{decimal, decimal_text, has_prefix};

verus! {

/// The record kept across polls and restarts.
#[derive(Clone, Debug)]
pub struct MonitorState {
    pub last_displayed_all_time: Option<Binary64>,
    pub last_displayed_boot_best: Option<Binary64>,
    pub last_uptime_secs: Option<u64>,
    pub last_boot_marker: Option<String>,
    /// Highest value ever seen in either device metric; never decreases.
    pub tool_global_all_time_best: Binary64,
    /// Highest hashrate (TH/s) recorded.
    pub tool_best_hashrate_ths: Option<Binary64>,
    /// Lowest efficiency (J/TH) recorded.
    pub tool_best_efficiency_j_per_th: Option<Binary64>,
    pub _note: Option<String>,
}

/// `MonitorState` with its strings seen as character sequences.
pub struct StateView {
    pub last_displayed_all_time: Option<Binary64>,
    pub last_displayed_boot_best: Option<Binary64>,
    pub last_uptime_secs: Option<u64>,
    pub last_boot_marker: Option<Seq<char>>,
    pub tool_global_all_time_best: Binary64,
    pub tool_best_hashrate_ths: Option<Binary64>,
    pub tool_best_efficiency_j_per_th: Option<Binary64>,
    pub note: Option<Seq<char>>,
}

pub open spec fn opt_view(o: Option<String>) -> Option<Seq<char>> {
    match o {
        Some(s) => Some(s@),
        None => None,
    }
}

impl View for MonitorState {
    type V = StateView;

    open spec fn view(&self) -> StateView {
        StateView {
            last_displayed_all_time: self.last_displayed_all_time,
            last_displayed_boot_best: self.last_displayed_boot_best,
            last_uptime_secs: self.last_uptime_secs,
            last_boot_marker: opt_view(self.last_boot_marker),
            tool_global_all_time_best: self.tool_global_all_time_best,
            tool_best_hashrate_ths: self.tool_best_hashrate_ths,
            tool_best_efficiency_j_per_th: self.tool_best_efficiency_j_per_th,
            note: opt_view(self._note),
        }
    }
}

/// The state of a first run: nothing seen, global best `+0.0`.
pub open spec fn fresh_state() -> StateView {
    StateView {
        last_displayed_all_time: None,
        last_displayed_boot_best: None,
        last_uptime_secs: None,
        last_boot_marker: None,
        tool_global_all_time_best: Binary64(0),
        tool_best_hashrate_ths: None,
        tool_best_efficiency_j_per_th: None,
        note: None,
    }
}

impl MonitorState {
    pub fn new() -> (r: MonitorState)
        ensures
            r@ == fresh_state(),
    {
        MonitorState {
            last_displayed_all_time: None,
            last_displayed_boot_best: None,
            last_uptime_secs: None,
            last_boot_marker: None,
            tool_global_all_time_best: Binary64(0),
            tool_best_hashrate_ths: None,
            tool_best_efficiency_j_per_th: None,
            _note: None,
        }
    }
}

/// The two values the device displays; both finite after extraction.
#[derive(Clone, Copy, Debug, PartialEq, Eq, Structural)]
pub struct Displayed {
    pub all_time: Binary64,
    pub boot_best: Binary64,
}

/// The optional signals of one reading.
#[derive(Clone, Debug)]
pub struct Metrics {
    pub uptime_secs: Option<u64>,
    pub boot_id: Option<String>,
    pub hashrate_ths: Option<Binary64>,
    pub efficiency_j_per_th: Option<Binary64>,
}

pub struct MetricsView {
    pub uptime_secs: Option<u64>,
    pub boot_id: Option<Seq<char>>,
    pub hashrate_ths: Option<Binary64>,
    pub efficiency_j_per_th: Option<Binary64>,
}

impl View for Metrics {
    type V = MetricsView;

    open spec fn view(&self) -> MetricsView {
        MetricsView {
            uptime_secs: self.uptime_secs,
            boot_id: opt_view(self.boot_id),
            hashrate_ths: self.hashrate_ths,
            efficiency_j_per_th: self.efficiency_j_per_th,
        }
    }
}

/// Minimum improvements before an extremum is recorded.
#[derive(Clone, Copy, Debug, PartialEq, Eq, Structural)]
pub struct Thresholds {
    pub epsilon_hashrate_ths: Binary64,
    pub epsilon_efficiency_j_per_th: Binary64,
}

/// The outcomes of the floating-point differences that detection needs,
/// taken against the state as it stands before the call. A flag is read
/// only where the state holds the value it was computed against.
#[derive(Clone, Copy, Debug, PartialEq, Eq, Structural)]
pub struct Margins {
    /// `boot_best + f64::EPSILON < last_displayed_boot_best`.
    pub boot_best_dropped: bool,
    /// `hashrate_ths - tool_best_hashrate_ths >= epsilon_hashrate_ths`.
    pub hashrate_gain_reached: bool,
    /// `tool_best_efficiency_j_per_th - efficiency_j_per_th >= epsilon_efficiency_j_per_th`.
    pub efficiency_gain_reached: bool,
}

/// What one reading changed.
#[derive(Clone, Copy, Debug, PartialEq, Eq, Structural)]
pub struct DetectionOutcome {
    pub boot_detected: bool,
    pub new_device_all_time_best: Option<Binary64>,
    pub new_device_boot_best: Option<Binary64>,
    pub new_tool_all_time_best: Option<Binary64>,
    pub new_tool_best_hashrate_ths: Option<Binary64>,
    pub new_tool_best_efficiency_j_per_th: Option<Binary64>,
}

pub open spec fn uptime_tag() -> Seq<char> {
    seq!['u', 'p', 't', 'i', 'm', 'e', ':']
}

/// A marker that was derived from uptime rather than from a boot identifier.
pub open spec fn is_uptime_marker(m: Seq<char>) -> bool {
    uptime_tag().is_prefix_of(m)
}

/// The boot identifier when present, else `"uptime:"` and the uptime.
pub open spec fn marker_of(boot_id: Option<Seq<char>>, uptime: Option<u64>) -> Option<Seq<char>> {
    match boot_id {
        Some(id) => Some(id),
        None => match uptime {
            Some(up) => Some(uptime_tag() + decimal(up as nat)),
            None => None,
        },
    }
}

/// The earlier marker came from an identifier and the new identifier differs.
pub open spec fn boot_id_changed(prev: Option<Seq<char>>, cur: Option<Seq<char>>) -> bool {
    match (prev, cur) {
        (Some(p), Some(c)) => !is_uptime_marker(p) && p != c,
        _ => false,
    }
}

/// Reboot detection, first applicable signal wins: identifier, then uptime
/// (when both readings have one), then a drop of the boot best.
pub open spec fn reboot_seen(s: StateView, m: MetricsView, g: Margins) -> bool {
    if boot_id_changed(s.last_boot_marker, m.boot_id) {
        true
    } else if s.last_uptime_secs.is_some() && m.uptime_secs.is_some() {
        m.uptime_secs.unwrap() < s.last_uptime_secs.unwrap()
    } else if s.last_displayed_boot_best.is_some() {
        g.boot_best_dropped
    } else {
        false
    }
}

/// No earlier value, or the new one is strictly larger.
pub open spec fn rises(prev: Option<Binary64>, cur: Binary64) -> bool {
    match prev {
        Some(p) => float_lt(p.0, cur.0),
        None => true,
    }
}

pub open spec fn is_usable(v: Option<Binary64>) -> bool {
    v.is_some() && is_finite(v.unwrap().0)
}

pub open spec fn candidate(d: Displayed) -> Binary64 {
    Binary64(float_max(d.all_time.0, d.boot_best.0))
}

pub open spec fn global_record(s: StateView, d: Displayed) -> bool {
    float_lt(s.tool_global_all_time_best.0, candidate(d).0)
}

pub open spec fn hashrate_record(s: StateView, m: MetricsView, g: Margins) -> bool {
    is_usable(m.hashrate_ths) && (s.tool_best_hashrate_ths.is_none() || g.hashrate_gain_reached)
}

pub open spec fn efficiency_record(s: StateView, m: MetricsView, g: Margins) -> bool {
    is_usable(m.efficiency_j_per_th) && (s.tool_best_efficiency_j_per_th.is_none()
        || g.efficiency_gain_reached)
}

pub open spec fn outcome_of(s: StateView, d: Displayed, m: MetricsView, g: Margins) -> DetectionOutcome {
    DetectionOutcome {
        boot_detected: reboot_seen(s, m, g),
        new_device_all_time_best: if rises(s.last_displayed_all_time, d.all_time) {
            Some(d.all_time)
        } else {
            None
        },
        new_device_boot_best: if rises(s.last_displayed_boot_best, d.boot_best) {
            Some(d.boot_best)
        } else {
            None
        },
        new_tool_all_time_best: if global_record(s, d) {
            Some(candidate(d))
        } else {
            None
        },
        new_tool_best_hashrate_ths: if hashrate_record(s, m, g) {
            m.hashrate_ths
        } else {
            None
        },
        new_tool_best_efficiency_j_per_th: if efficiency_record(s, m, g) {
            m.efficiency_j_per_th
        } else {
            None
        },
    }
}

pub open spec fn next_state(s: StateView, d: Displayed, m: MetricsView, g: Margins) -> StateView {
    StateView {
        last_displayed_all_time: Some(d.all_time),
        last_displayed_boot_best: Some(d.boot_best),
        last_uptime_secs: m.uptime_secs,
        last_boot_marker: marker_of(m.boot_id, m.uptime_secs),
        tool_global_all_time_best: if global_record(s, d) {
            candidate(d)
        } else {
            s.tool_global_all_time_best
        },
        tool_best_hashrate_ths: if hashrate_record(s, m, g) {
            m.hashrate_ths
        } else {
            s.tool_best_hashrate_ths
        },
        tool_best_efficiency_j_per_th: if efficiency_record(s, m, g) {
            m.efficiency_j_per_th
        } else {
            s.tool_best_efficiency_j_per_th
        },
        note: s.note,
    }
}

/// Whether `m` starts with `"uptime:"`.
pub fn has_uptime_tag(m: &str) -> (r: bool)
    ensures
        r == is_uptime_marker(m@),
{
    let tag = "uptime:";
    proof {
        reveal_strlit("uptime:");
    }
    assert(tag@ =~= uptime_tag());
    has_prefix(m, tag)
}

/// The boot marker of a reading.
pub fn boot_marker(boot_id: &Option<String>, uptime: Option<u64>) -> (r: Option<String>)
    ensures
        opt_view(r) == marker_of(opt_view(*boot_id), uptime),
{
    match boot_id {
        Some(id) => Some(id.clone()),
        None => match uptime {
            Some(up) => {
                let tag = "uptime:";
                proof {
                    reveal_strlit("uptime:");
                }
                let mut s = String::from_str(tag);
                let digits = decimal_text(up);
                s.append(digits.as_str());
                assert(s@ =~= uptime_tag() + decimal(up as nat));
                Some(s)
            },
            None => None,
        },
    }
}

/// Turns one reading into events and updates `state`: reboot detection
/// first, then the device bests, the global best and the two extrema, each
/// rule on its own.
pub fn detect_changes(
    state: &mut MonitorState,
    displayed: Displayed,
    metrics: Metrics,
    margins: Margins,
) -> (out: DetectionOutcome)
    ensures
        out == outcome_of(old(state)@, displayed, metrics@, margins),
        final(state)@ == next_state(old(state)@, displayed, metrics@, margins),
{
    let boot_id_changed = match (&state.last_boot_marker, &metrics.boot_id) {
        (Some(prev), Some(cur)) => !has_uptime_tag(prev.as_str()) && !prev.eq(cur),
        _ => false,
    };
    let boot_detected = if boot_id_changed {
        true
    } else if state.last_uptime_secs.is_some() && metrics.uptime_secs.is_some() {
        metrics.uptime_secs.unwrap() < state.last_uptime_secs.unwrap()
    } else if state.last_displayed_boot_best.is_some() {
        margins.boot_best_dropped
    } else {
        false
    };

    state.last_boot_marker = boot_marker(&metrics.boot_id, metrics.uptime_secs);
    state.last_uptime_secs = metrics.uptime_secs;

    let new_device_boot_best = match state.last_displayed_boot_best {
        Some(prev) => if displayed.boot_best.gt(&prev) { Some(displayed.boot_best) } else { None },
        None => Some(displayed.boot_best),
    };
    let new_device_all_time_best = match state.last_displayed_all_time {
        Some(prev) => if displayed.all_time.gt(&prev) { Some(displayed.all_time) } else { None },
        None => Some(displayed.all_time),
    };
    state.last_displayed_boot_best = Some(displayed.boot_best);
    state.last_displayed_all_time = Some(displayed.all_time);

    let candidate = displayed.all_time.max(&displayed.boot_best);
    let new_tool_all_time_best = if candidate.gt(&state.tool_global_all_time_best) {
        state.tool_global_all_time_best = candidate;
        Some(candidate)
    } else {
        None
    };

    let mut new_tool_best_hashrate_ths = None;
    if let Some(h) = metrics.hashrate_ths {
        if h.is_finite() {
            let is_better = match state.tool_best_hashrate_ths {
                Some(_) => margins.hashrate_gain_reached,
                None => true,
            };
            if is_better {
                state.tool_best_hashrate_ths = Some(h);
                new_tool_best_hashrate_ths = Some(h);
            }
        }
    }

    let mut new_tool_best_efficiency_j_per_th = None;
    if let Some(e) = metrics.efficiency_j_per_th {
        if e.is_finite() {
            let is_better = match state.tool_best_efficiency_j_per_th {
                Some(_) => margins.efficiency_gain_reached,
                None => true,
            };
            if is_better {
                state.tool_best_efficiency_j_per_th = Some(e);
                new_tool_best_efficiency_j_per_th = Some(e);
            }
        }
    }

    DetectionOutcome {
        boot_detected,
        new_device_all_time_best,
        new_device_boot_best,
        new_tool_all_time_best,
        new_tool_best_hashrate_ths,
        new_tool_best_efficiency_j_per_th,
    }
}

/// A boot identifier that differs from an earlier identifier-based marker
/// means a reboot, whatever the uptime did.
pub proof fn lemma_new_boot_id_is_reboot(s: StateView, d: Displayed, m: MetricsView, g: Margins)
    requires
        s.last_boot_marker.is_some(),
        !is_uptime_marker(s.last_boot_marker.unwrap()),
        m.boot_id.is_some(),
        m.boot_id.unwrap() != s.last_boot_marker.unwrap(),
    ensures
        outcome_of(s, d, m, g).boot_detected,
{
}

/// An uptime lower than the one seen before means a reboot.
pub proof fn lemma_uptime_drop_is_reboot(s: StateView, d: Displayed, m: MetricsView, g: Margins)
    requires
        s.last_uptime_secs.is_some(),
        m.uptime_secs.is_some(),
        m.uptime_secs.unwrap() < s.last_uptime_secs.unwrap(),
    ensures
        outcome_of(s, d, m, g).boot_detected,
{
}

/// Without identifier or uptime in the reading, a boot best that dropped by
/// more than the float epsilon means a reboot.
pub proof fn lemma_boot_best_drop_is_reboot(s: StateView, d: Displayed, m: MetricsView, g: Margins)
    requires
        m.boot_id.is_none(),
        m.uptime_secs.is_none(),
        s.last_displayed_boot_best.is_some(),
        g.boot_best_dropped,
    ensures
        outcome_of(s, d, m, g).boot_detected,
{
}

/// The first reading of a fresh state is a new device boot best and a new
/// device all-time best, and no reboot.
pub proof fn lemma_first_reading_sets_device_bests(d: Displayed, m: MetricsView, g: Margins)
    ensures
        outcome_of(fresh_state(), d, m, g).new_device_boot_best == Some(d.boot_best),
        outcome_of(fresh_state(), d, m, g).new_device_all_time_best == Some(d.all_time),
        !outcome_of(fresh_state(), d, m, g).boot_detected,
{
}

/// A boot best strictly above the stored one is an event; an equal or lower
/// one is none. Either way the stored value becomes the device's report; the
/// all-time value follows the same rule.
pub proof fn lemma_device_bests_follow_device(s: StateView, d: Displayed, m: MetricsView, g: Margins)
    requires
        s.last_displayed_boot_best.is_some(),
        s.last_displayed_all_time.is_some(),
    ensures
        float_lt(s.last_displayed_boot_best.unwrap().0, d.boot_best.0)
            ==> outcome_of(s, d, m, g).new_device_boot_best == Some(d.boot_best),
        !float_lt(s.last_displayed_boot_best.unwrap().0, d.boot_best.0)
            ==> outcome_of(s, d, m, g).new_device_boot_best.is_none(),
        float_lt(s.last_displayed_all_time.unwrap().0, d.all_time.0)
            ==> outcome_of(s, d, m, g).new_device_all_time_best == Some(d.all_time),
        !float_lt(s.last_displayed_all_time.unwrap().0, d.all_time.0)
            ==> outcome_of(s, d, m, g).new_device_all_time_best.is_none(),
        next_state(s, d, m, g).last_displayed_boot_best == Some(d.boot_best),
        next_state(s, d, m, g).last_displayed_all_time == Some(d.all_time),
{
}

/// Once a hashrate best is stored, a gain below the threshold changes
/// nothing, and a finite gain that reaches it is recorded; the same holds,
/// downwards, of efficiency.
pub proof fn lemma_extrema_hysteresis(s: StateView, d: Displayed, m: MetricsView, g: Margins)
    requires
        s.tool_best_hashrate_ths.is_some(),
        s.tool_best_efficiency_j_per_th.is_some(),
    ensures
        !g.hashrate_gain_reached ==> outcome_of(s, d, m, g).new_tool_best_hashrate_ths.is_none()
            && next_state(s, d, m, g).tool_best_hashrate_ths == s.tool_best_hashrate_ths,
        g.hashrate_gain_reached && is_usable(m.hashrate_ths)
            ==> outcome_of(s, d, m, g).new_tool_best_hashrate_ths == m.hashrate_ths
            && next_state(s, d, m, g).tool_best_hashrate_ths == m.hashrate_ths,
        !g.efficiency_gain_reached
            ==> outcome_of(s, d, m, g).new_tool_best_efficiency_j_per_th.is_none()
            && next_state(s, d, m, g).tool_best_efficiency_j_per_th
            == s.tool_best_efficiency_j_per_th,
        g.efficiency_gain_reached && is_usable(m.efficiency_j_per_th)
            ==> outcome_of(s, d, m, g).new_tool_best_efficiency_j_per_th == m.efficiency_j_per_th
            && next_state(s, d, m, g).tool_best_efficiency_j_per_th == m.efficiency_j_per_th,
{
}

/// A live metric that is absent or not finite leaves its extremum alone and
/// raises no event.
pub proof fn lemma_unusable_metrics_skipped(s: StateView, d: Displayed, m: MetricsView, g: Margins)
    ensures
        !is_usable(m.hashrate_ths) ==> outcome_of(s, d, m, g).new_tool_best_hashrate_ths.is_none()
            && next_state(s, d, m, g).tool_best_hashrate_ths == s.tool_best_hashrate_ths,
        !is_usable(m.efficiency_j_per_th)
            ==> outcome_of(s, d, m, g).new_tool_best_efficiency_j_per_th.is_none()
            && next_state(s, d, m, g).tool_best_efficiency_j_per_th
            == s.tool_best_efficiency_j_per_th,
{
}

/// The global best never decreases and never becomes NaN.
pub proof fn lemma_global_best_monotone(s: StateView, d: Displayed, m: MetricsView, g: Margins)
    requires
        !is_nan(s.tool_global_all_time_best.0),
    ensures
        !is_nan(next_state(s, d, m, g).tool_global_all_time_best.0),
        order_key(next_state(s, d, m, g).tool_global_all_time_best.0) >= order_key(
            s.tool_global_all_time_best.0,
        ),
        outcome_of(s, d, m, g).new_tool_all_time_best.is_some() ==> outcome_of(
            s,
            d,
            m,
            g,
        ).new_tool_all_time_best == Some(next_state(s, d, m, g).tool_global_all_time_best),
{
}

/// Each call records the reading's uptime and marker, reboot or not.
pub proof fn lemma_marker_always_updated(s: StateView, d: Displayed, m: MetricsView, g: Margins)
    ensures
        next_state(s, d, m, g).last_uptime_secs == m.uptime_secs,
        next_state(s, d, m, g).last_boot_marker == marker_of(m.boot_id, m.uptime_secs),
{
}

} // verus!
