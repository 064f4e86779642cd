//! Windowing arithmetic of the downsampler: which raw samples are visible,
//! how they are grouped, and where each rendered point sits in time.
use vstd::prelude::*;

verus! {

/// Number of raw samples averaged into one rendered point: the window
/// length divided by the point budget, but never less than one.
pub open spec fn group_size_of(values_per_window: nat, points_per_channel: nat) -> nat {
    if values_per_window / points_per_channel >= 1 {
        values_per_window / points_per_channel
    } else {
        1
    }
}

/// Index of the first visible sample: the start of the window, rounded down
/// to a multiple of the group size so that groups stay aligned from frame
/// to frame. A window longer than the history starts at zero.
pub open spec fn first_index_of(len: nat, values_per_window: nat, group_size: nat) -> nat {
    let start: nat = if len > values_per_window { (len - values_per_window) as nat } else { 0 };
    start / group_size * group_size
}

/// One rendered point: the raw samples `start .. end` are averaged into it,
/// and `samples_ago` counts how far its first sample lies before the end
/// of the history (its time is `-samples_ago / sample_rate`).
#[derive(Clone, Copy, Debug, PartialEq, Eq)]
pub struct Span {
    pub start: usize,
    pub end: usize,
    pub samples_ago: usize,
}

/// The span of point `i` of a window that starts at `first` and is cut into
/// groups of `group_size` samples, over a history of `len` samples.
pub open spec fn span_at(len: nat, first: nat, group_size: nat, i: nat) -> Span {
    let start = first + i * group_size;
    Span {
        start: start as usize,
        end: (start + group_size) as usize,
        samples_ago: (len - start) as usize,
    }
}

/// All points of the visible window, oldest first: one per complete group of
/// the suffix that starts at the first visible index; a trailing partial
/// group is dropped.
pub open spec fn spans_of(len: nat, values_per_window: nat, points_per_channel: nat) -> Seq<Span> {
    let g = group_size_of(values_per_window, points_per_channel);
    let first = first_index_of(len, values_per_window, g);
    let n = ((len - first) as nat) / g;
    Seq::new(n, |i: int| span_at(len, first, g, i as nat))
}

pub fn group_size(values_per_window: usize, points_per_channel: usize) -> (r: usize)
    requires
        points_per_channel > 0,
    ensures
        r == group_size_of(values_per_window as nat, points_per_channel as nat),
        r >= 1,
{
    let g = values_per_window / points_per_channel;
    if g >= 1 {
        g
    } else {
        1
    }
}

proof fn lemma_round_down(x: nat, g: nat)
    requires
        g > 0,
    ensures
        x / g * g <= x,
        x - x / g * g < g,
{
    assert(x / g * g <= x && x - x / g * g < g) by (nonlinear_arith)
        requires
            g > 0,
    {
        vstd::arithmetic::div_mod::lemma_fundamental_div_mod(x as int, g as int);
    }
}

pub fn first_index(len: usize, values_per_window: usize, group_size: usize) -> (r: usize)
    requires
        group_size > 0,
    ensures
        r == first_index_of(len as nat, values_per_window as nat, group_size as nat),
        r <= len,
{
    let start: usize = if len > values_per_window { len - values_per_window } else { 0 };
    proof {
        lemma_round_down(start as nat, group_size as nat);
    }
    start / group_size * group_size
}

proof fn lemma_group_fits(suffix: nat, g: nat, i: nat)
    requires
        g > 0,
        i < suffix / g,
    ensures
        (i + 1) * g <= suffix,
{
    assert((i + 1) * g <= suffix) by (nonlinear_arith)
        requires
            g > 0,
            i < suffix / g,
    {
        vstd::arithmetic::div_mod::lemma_fundamental_div_mod(suffix as int, g as int);
        assert((i + 1) * g <= (suffix / g) * g) by (nonlinear_arith)
            requires
                g > 0,
                i + 1 <= suffix / g,
        ;
    }
}

/// The spans of every point of the visible window of a history of `len`
/// samples, for a window of `values_per_window` samples and a budget of
/// `points_per_channel` points.
pub fn downsample_spans(len: usize, values_per_window: usize, points_per_channel: usize) -> (r: Vec<Span>)
    requires
        points_per_channel > 0,
    ensures
        r@ == spans_of(len as nat, values_per_window as nat, points_per_channel as nat),
{
    let g = group_size(values_per_window, points_per_channel);
    let first = first_index(len, values_per_window, g);
    let n = (len - first) / g;
    let mut out: Vec<Span> = Vec::with_capacity(n);
    let mut i: usize = 0;
    while i < n
        invariant
            g >= 1,
            first <= len,
            n == (len - first) as nat / g as nat,
            i <= n,
            out@.len() == i,
            forall|k: int| 0 <= k < i ==> out@[k] == span_at(len as nat, first as nat, g as nat, k as nat),
        decreases n - i,
    {
        proof {
            lemma_group_fits((len - first) as nat, g as nat, i as nat);
            assert(i * g + g == (i + 1) * g) by (nonlinear_arith);
        }
        let start = first + i * g;
        out.push(Span { start, end: start + g, samples_ago: len - start });
        i = i + 1;
    }
    proof {
        let spec_spans = spans_of(len as nat, values_per_window as nat, points_per_channel as nat);
        assert(out@ =~= spec_spans);
    }
    out
}

/// Every point of the window lies inside the history, the points follow one
/// another without gaps, and the time of each point is strictly later than
/// the time of the one before (it lies strictly fewer samples in the past).
pub proof fn lemma_spans_ordered(len: usize, values_per_window: usize, points_per_channel: usize, i: int, j: int)
    requires
        points_per_channel > 0,
        0 <= i < j < spans_of(len as nat, values_per_window as nat, points_per_channel as nat).len(),
    ensures
        ({
            let s = spans_of(len as nat, values_per_window as nat, points_per_channel as nat);
            &&& s[j].samples_ago < s[i].samples_ago
            &&& s[i].start < s[i].end <= s[j].start
            &&& s[j].end <= len
            &&& j == i + 1 ==> s[i].end == s[j].start
        }),
{
    let g = group_size_of(values_per_window as nat, points_per_channel as nat);
    let first = first_index_of(len as nat, values_per_window as nat, g);
    let suffix = (len - first) as nat;
    let start: nat = if len > values_per_window { (len - values_per_window) as nat } else { 0 };
    lemma_round_down(start, g);
    lemma_group_fits(suffix, g, j as nat);
    assert(i * g + g <= j * g) by (nonlinear_arith)
        requires
            i < j,
            g > 0,
    ;
    assert((j + 1) * g == j * g + g) by (nonlinear_arith);
    assert((i + 1) * g == i * g + g) by (nonlinear_arith);
    assert(0 <= i * g) by (nonlinear_arith)
        requires
            i >= 0,
            g > 0,
    ;
}

/// The points cover the visible window: their first sample lies at most
/// one group before the start of the window (at the start of the history
/// when the window is longer than it), and fewer than one group of the most
/// recent samples is left out at the end.
pub proof fn lemma_spans_cover_window(len: usize, values_per_window: usize, points_per_channel: usize)
    requires
        points_per_channel > 0,
    ensures
        ({
            let g = group_size_of(values_per_window as nat, points_per_channel as nat);
            let first = first_index_of(len as nat, values_per_window as nat, g);
            let n = spans_of(len as nat, values_per_window as nat, points_per_channel as nat).len();
            &&& len > values_per_window ==> first <= len - values_per_window < first + g
            &&& len <= values_per_window ==> first == 0
            &&& first + n * g <= len < first + n * g + g
        }),
{
    let g = group_size_of(values_per_window as nat, points_per_channel as nat);
    let start: nat = if len > values_per_window { (len - values_per_window) as nat } else { 0 };
    lemma_round_down(start, g);
    let first = first_index_of(len as nat, values_per_window as nat, g);
    lemma_round_down((len - first) as nat, g);
    assert(((len - first) as nat) / g * g == spans_of(len as nat, values_per_window as nat, points_per_channel as nat).len() * g);
}

/// Downsampling depends on its inputs alone: two results for the same
/// history length, window and budget are the same.
pub proof fn lemma_spans_deterministic(
    a: Seq<Span>,
    b: Seq<Span>,
    len: usize,
    values_per_window: usize,
    points_per_channel: usize,
)
    requires
        a == spans_of(len as nat, values_per_window as nat, points_per_channel as nat),
        b == spans_of(len as nat, values_per_window as nat, points_per_channel as nat),
    ensures
        a == b,
{
}

} // verus!
