//! Per-channel zoom state, the shared time window and the active channel.
//!
//! Zoom is exponential in the scroll input: each scroll unit divides the
//! scale by 1.005. Rather than compounding a floating-point factor frame by
//! frame, the viewport keeps the cumulative scroll as an integer level, in
//! thousandths of a scroll unit. A channel's half-range is then
//! `initial_zoom / 1.005^(level / 1000)` and the time window is
//! `initial_plot_time / 1.005^(level / 1000)`: a positive number for every
//! level, and scrolling back by the same amount restores it exactly.
use crate::window::{downsample_spans, spans_of, Span};
use vstd::prelude::*;

verus! {

/// Display state of a set of channels sharing one time axis.
pub struct Viewport {
    /// Label of each channel.
    pub names: Vec<String>,
    /// Zoom level of each channel, indexed like `names`.
    pub zoom_levels: Vec<i64>,
    /// The channel whose scale drives the vertical axis.
    pub active: usize,
    /// Zoom level of the shared time window.
    pub time_level: i64,
    /// Target number of rendered points per channel.
    pub points_per_channel: usize,
}

/// What a viewport's contracts speak of: its levels and its active channel.
pub struct ViewportView {
    pub zoom_levels: Seq<i64>,
    pub active: int,
    pub time_level: i64,
}

impl View for Viewport {
    type V = ViewportView;

    open spec fn view(&self) -> ViewportView {
        ViewportView { zoom_levels: self.zoom_levels@, active: self.active as int, time_level: self.time_level }
    }
}

/// A level moved by `delta`, held to the range of `i64`.
pub open spec fn level_after_scroll(level: i64, delta: int) -> i64 {
    if level + delta > i64::MAX {
        i64::MAX
    } else if level + delta < i64::MIN {
        i64::MIN
    } else {
        (level + delta) as i64
    }
}

/// The effect of one frame's scroll input. Without hover or without scroll
/// nothing changes; with the time modifier held the time window is zoomed,
/// otherwise the active channel's scale.
pub open spec fn scroll_view(v: ViewportView, hovered: bool, delta: int, time_modifier: bool) -> ViewportView {
    if !hovered || delta == 0 {
        v
    } else if time_modifier {
        ViewportView { time_level: level_after_scroll(v.time_level, delta), ..v }
    } else {
        ViewportView {
            zoom_levels: v.zoom_levels.update(v.active, level_after_scroll(v.zoom_levels[v.active], delta)),
            ..v
        }
    }
}

/// The active channel after a request to select channel `n` out of
/// `count`: an index past the last channel is ignored.
pub open spec fn selected(active: int, count: int, n: int) -> int {
    if n < count {
        n
    } else {
        active
    }
}

pub fn scroll_level(level: i64, delta: i64) -> (r: i64)
    ensures
        r == level_after_scroll(level, delta as int),
{
    if delta > 0 && level > i64::MAX - delta {
        i64::MAX
    } else if delta < 0 && level < i64::MIN - delta {
        i64::MIN
    } else {
        level + delta
    }
}

impl Viewport {
    pub open spec fn wf(&self) -> bool {
        &&& self.names@.len() > 0
        &&& self.zoom_levels@.len() == self.names@.len()
        &&& self.active < self.names@.len()
        &&& self.points_per_channel > 0
    }

    /// A viewport over the named channels, the first one active, every
    /// level at zero (the initial scales).
    pub fn new(names: Vec<String>, points_per_channel: usize) -> (r: Viewport)
        requires
            names@.len() > 0,
            points_per_channel > 0,
        ensures
            r.wf(),
            r.names@ == names@,
            r.active == 0,
            r.time_level == 0,
            r.points_per_channel == points_per_channel,
            forall|i: int| 0 <= i < r.zoom_levels@.len() ==> r.zoom_levels@[i] == 0,
    {
        let zoom_levels: Vec<i64> = vec![0; names.len()];
        Viewport { names, zoom_levels, active: 0, time_level: 0, points_per_channel }
    }

    pub fn channel_count(&self) -> (r: usize)
        ensures
            r == self.names@.len(),
    {
        self.names.len()
    }

    /// Zoom level of the active channel.
    pub fn active_zoom_level(&self) -> (r: i64)
        requires
            self.wf(),
        ensures
            r == self.zoom_levels@[self.active as int],
    {
        self.zoom_levels[self.active]
    }

    /// Makes channel `n` the active one; an index past the last channel is
    /// ignored. No channel's zoom changes.
    pub fn select_channel(&mut self, n: usize)
        requires
            old(self).wf(),
        ensures
            final(self).wf(),
            final(self).active == selected(old(self).active as int, old(self).names@.len() as int, n as int),
            final(self).zoom_levels@ == old(self).zoom_levels@,
            final(self).time_level == old(self).time_level,
            final(self).names@ == old(self).names@,
            final(self).points_per_channel == old(self).points_per_channel,
    {
        if n < self.names.len() {
            self.active = n;
        }
    }

    /// Applies one frame's scroll input, `delta` in thousandths of a scroll
    /// unit.
    pub fn scroll(&mut self, hovered: bool, delta: i64, time_modifier: bool)
        requires
            old(self).wf(),
        ensures
            final(self).wf(),
            final(self)@ == scroll_view(old(self)@, hovered, delta as int, time_modifier),
            final(self).names@ == old(self).names@,
            final(self).points_per_channel == old(self).points_per_channel,
    {
        if hovered && delta != 0 {
            if time_modifier {
                self.time_level = scroll_level(self.time_level, delta);
            } else {
                let a = self.active;
                let level = scroll_level(self.zoom_levels[a], delta);
                self.zoom_levels.set(a, level);
            }
        }
    }

    /// The spans of the points to render for a history of `len` samples and
    /// a window of `values_per_window` samples.
    pub fn spans(&self, len: usize, values_per_window: usize) -> (r: Vec<Span>)
        requires
            self.wf(),
        ensures
            r@ == spans_of(len as nat, values_per_window as nat, self.points_per_channel as nat),
    {
        downsample_spans(len, values_per_window, self.points_per_channel)
    }
}

/// Scrolling by `delta` and then by `-delta` leaves every level as it was,
/// as long as the first step did not run past the range of a level.
pub proof fn lemma_scroll_round_trip(v: ViewportView, hovered: bool, delta: int, time_modifier: bool)
    requires
        0 <= v.active < v.zoom_levels.len(),
        i64::MIN <= v.time_level + delta <= i64::MAX,
        i64::MIN <= v.zoom_levels[v.active] + delta <= i64::MAX,
    ensures
        scroll_view(scroll_view(v, hovered, delta, time_modifier), hovered, -delta, time_modifier) == v,
{
    let w = scroll_view(scroll_view(v, hovered, delta, time_modifier), hovered, -delta, time_modifier);
    if hovered && delta != 0 && !time_modifier {
        assert(w.zoom_levels =~= v.zoom_levels);
    }
}

/// Selecting a channel index past the last channel leaves the active
/// channel as it was.
pub proof fn lemma_select_out_of_range(active: int, count: int, n: int)
    requires
        n >= count,
    ensures
        selected(active, count, n) == active,
{
}

} // verus!
