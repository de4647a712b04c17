use vstd::prelude::*;

verus! {

/// Width of the visible x-axis window, in ticks.
pub const WINDOW_WIDTH: u64 = 100;

/// How many points older than the visible window are kept for scrolling back.
pub const SCROLLBACK_MARGIN: usize = 100;

/// The most points either series retains: one per tick of the visible
/// window, both ends included, plus the scrollback margin.
pub const HISTORY_CAP: usize = 201;

/// A point of a series: the tick at which it was sampled and the value, in
/// parts per million.
#[derive(Clone, Copy, Debug, PartialEq, Eq, Structural)]
pub struct Point {
    pub x: u64,
    pub y: u32,
}

/// A point with unbounded coordinates.
pub struct PointView {
    pub x: nat,
    pub y: nat,
}

impl View for Point {
    type V = PointView;

    open spec fn view(&self) -> PointView {
        PointView { x: self.x as nat, y: self.y as nat }
    }
}

/// The last `cap` elements of `s`, or all of `s` where it has no more.
pub open spec fn keep_last<T>(s: Seq<T>, cap: nat) -> Seq<T> {
    if s.len() > cap {
        s.subrange(s.len() - cap, s.len() as int)
    } else {
        s
    }
}

/// The views of a sequence of points.
pub open spec fn points_view(s: Seq<Point>) -> Seq<PointView> {
    Seq::new(s.len(), |i: int| s[i]@)
}

/// Mathematical model of the two series and their shared x-axis.
pub struct SeriesView {
    /// Retained event-loop utilisation points, oldest first.
    pub elu: Seq<PointView>,
    /// Retained CPU points, oldest first.
    pub cpu: Seq<PointView>,
    /// The x-coordinate of the newest point; 0 before the first.
    pub latest: nat,
}

impl SeriesView {
    /// No points yet.
    pub open spec fn empty() -> SeriesView {
        SeriesView { elu: Seq::empty(), cpu: Seq::empty(), latest: 0 }
    }

    /// One tick later: both series gain a point at the next x, and the
    /// oldest points leave once the cap is passed.
    pub open spec fn push(self, elu: nat, cpu: nat) -> SeriesView {
        let x = self.latest + 1;
        SeriesView {
            elu: keep_last(self.elu.push(PointView { x, y: elu }), HISTORY_CAP as nat),
            cpu: keep_last(self.cpu.push(PointView { x, y: cpu }), HISTORY_CAP as nat),
            latest: x,
        }
    }

    /// Upper bound of the visible x-axis: the right edge of the initial
    /// window until the newest x lies beyond it, the newest x from then on.
    pub open spec fn end(self) -> nat {
        if self.latest > WINDOW_WIDTH {
            self.latest
        } else {
            WINDOW_WIDTH as nat
        }
    }

    /// Lower bound of the visible x-axis.
    pub open spec fn start(self) -> nat {
        (self.end() - WINDOW_WIDTH) as nat
    }

    /// How many points each series retains after `latest` ticks.
    pub open spec fn retained(self) -> nat {
        if self.latest < HISTORY_CAP {
            self.latest
        } else {
            HISTORY_CAP as nat
        }
    }

    /// The x-coordinate of the point at index `i`: the retained points are
    /// those of the last `retained()` ticks, ending at `latest`.
    pub open spec fn x_at(self, i: int) -> int {
        self.latest - self.retained() + 1 + i
    }

    /// What holds of every value reached from `empty()` by pushes: each
    /// series holds one point per retained tick, in the order of the ticks.
    pub open spec fn wf(self) -> bool {
        &&& self.elu.len() == self.retained()
        &&& self.cpu.len() == self.retained()
        &&& forall|i: int| 0 <= i < self.elu.len() ==> (#[trigger] self.elu[i]).x == self.x_at(i)
        &&& forall|i: int| 0 <= i < self.cpu.len() ==> (#[trigger] self.cpu[i]).x == self.x_at(i)
    }

    /// The state after the samples of `samples` were pushed in order, each a
    /// pair of utilisation and CPU value.
    pub open spec fn push_all(self, samples: Seq<(nat, nat)>) -> SeriesView
        decreases samples.len(),
    {
        if samples.len() == 0 {
            self
        } else {
            self.push_all(samples.drop_last()).push(samples.last().0, samples.last().1)
        }
    }
}

/// A push keeps a well-formed value well-formed.
pub proof fn lemma_push_preserves_wf(s: SeriesView, elu: nat, cpu: nat)
    requires
        s.wf(),
    ensures
        s.push(elu, cpu).wf(),
{
    let t = s.push(elu, cpu);
    assert forall|i: int| 0 <= i < t.elu.len() implies (#[trigger] t.elu[i]).x == t.x_at(i) by {}
    assert forall|i: int| 0 <= i < t.cpu.len() implies (#[trigger] t.cpu[i]).x == t.x_at(i) by {}
}

/// Every state reached from the empty one by pushes is well-formed, and its
/// newest x counts the pushes.
pub proof fn lemma_reachable_wf(samples: Seq<(nat, nat)>)
    ensures
        SeriesView::empty().push_all(samples).wf(),
        SeriesView::empty().push_all(samples).latest == samples.len(),
    decreases samples.len(),
{
    if samples.len() > 0 {
        lemma_reachable_wf(samples.drop_last());
        lemma_push_preserves_wf(
            SeriesView::empty().push_all(samples.drop_last()),
            samples.last().0,
            samples.last().1,
        );
    }
}

/// The visible window keeps its width: a push moves both bounds by the same
/// amount, which is one tick once the newest x has reached the right edge of
/// the initial window, and nothing before that.
pub proof fn lemma_window_width_constant(s: SeriesView, elu: nat, cpu: nat)
    ensures
        s.push(elu, cpu).end() - s.push(elu, cpu).start() == s.end() - s.start(),
        s.end() - s.start() == WINDOW_WIDTH,
        s.latest >= WINDOW_WIDTH ==> s.push(elu, cpu).start() == s.start() + 1 && s.push(
            elu,
            cpu,
        ).end() == s.end() + 1,
        s.latest < WINDOW_WIDTH ==> s.push(elu, cpu).start() == s.start() && s.push(
            elu,
            cpu,
        ).end() == s.end(),
{
}

/// Every tick that the visible window shows is still retained: the point
/// sampled at a visible x stands at the index that `x_at` assigns to it.
pub proof fn lemma_visible_points_retained(s: SeriesView, x: nat)
    requires
        s.wf(),
        s.start() <= x <= s.end(),
        1 <= x <= s.latest,
    ensures
        0 <= x - s.x_at(0) < s.elu.len(),
        s.elu[x - s.x_at(0)].x == x,
        s.cpu[x - s.x_at(0)].x == x,
{
}

/// Appends `p` to `points` and evicts the oldest points beyond the cap.
fn push_capped(points: &mut Vec<Point>, p: Point)
    ensures
        points_view(final(points)@) == keep_last(
            points_view(old(points)@).push(p@),
            HISTORY_CAP as nat,
        ),
{
    points.push(p);
    let ghost grown = points@;
    while points.len() > HISTORY_CAP
        invariant
            points@.len() <= grown.len(),
            points@.len() >= HISTORY_CAP || points@.len() == grown.len(),
            points@ == grown.subrange(grown.len() - points@.len(), grown.len() as int),
        decreases points@.len(),
    {
        let _ = points.remove(0);
    }
}

/// The two charted series, utilisation and CPU, over one shared x-axis that
/// counts ticks, with the sliding window that the chart shows.
pub struct TimeSeries {
    elu: Vec<Point>,
    cpu: Vec<Point>,
    latest: u64,
}

impl View for TimeSeries {
    type V = SeriesView;

    closed spec fn view(&self) -> SeriesView {
        SeriesView {
            elu: points_view(self.elu@),
            cpu: points_view(self.cpu@),
            latest: self.latest as nat,
        }
    }
}

impl TimeSeries {
    /// No points, and the window over the first `WINDOW_WIDTH` ticks.
    pub fn new() -> (r: TimeSeries)
        ensures
            r@ == SeriesView::empty(),
            r@.wf(),
    {
        let r = TimeSeries { elu: Vec::new(), cpu: Vec::new(), latest: 0 };
        assert(r@.elu =~= Seq::empty() && r@.cpu =~= Seq::empty());
        r
    }

    /// Records the values observed at one tick, in parts per million.
    pub fn push(&mut self, elu_ppm: u32, cpu_ppm: u32)
        requires
            old(self)@.latest < u64::MAX,
        ensures
            final(self)@ == old(self)@.push(elu_ppm as nat, cpu_ppm as nat),
            old(self)@.wf() ==> final(self)@.wf(),
    {
        proof {
            if self@.wf() {
                lemma_push_preserves_wf(self@, elu_ppm as nat, cpu_ppm as nat);
            }
        }
        let x: u64 = self.latest + 1;
        push_capped(&mut self.elu, Point { x, y: elu_ppm });
        push_capped(&mut self.cpu, Point { x, y: cpu_ppm });
        self.latest = x;
    }

    /// The x-coordinate of the newest point; 0 before the first.
    pub fn latest(&self) -> (r: u64)
        ensures
            r == self@.latest,
    {
        self.latest
    }

    /// The bounds of the visible x-axis, lower first.
    pub fn window(&self) -> (r: (u64, u64))
        ensures
            r.0 == self@.start(),
            r.1 == self@.end(),
    {
        if self.latest > WINDOW_WIDTH {
            (self.latest - WINDOW_WIDTH, self.latest)
        } else {
            (0, WINDOW_WIDTH)
        }
    }

    /// How many utilisation points are retained.
    pub fn len(&self) -> (r: usize)
        ensures
            r == self@.elu.len(),
    {
        self.elu.len()
    }

    /// The retained utilisation points, oldest first.
    pub fn elu_points(&self) -> (r: &Vec<Point>)
        ensures
            points_view(r@) == self@.elu,
    {
        &self.elu
    }

    /// The retained CPU points, oldest first.
    pub fn cpu_points(&self) -> (r: &Vec<Point>)
        ensures
            points_view(r@) == self@.cpu,
    {
        &self.cpu
    }
}

} // verus!
