//! The recent history of a server's metrics, kept as a fixed window, and the
//! geometry of the line charts drawn from it.
use std::collections::VecDeque;
use vstd::prelude::*;

verus! {

/// How many samples of each metric the history keeps.
pub const MAX_POINTS: usize = 150;

/// The last `MAX_POINTS` elements of `s`, or all of them if there are fewer.
pub open spec fn last_points<A>(s: Seq<A>) -> Seq<A> {
    if s.len() > MAX_POINTS {
        s.subrange(s.len() - MAX_POINTS, s.len() as int)
    } else {
        s
    }
}

/// CPU, memory and tick-rate samples with the time of each, oldest first.
#[derive(Clone, Debug, PartialEq, Default)]
pub struct MetricsHistory<T> {
    pub cpu_data: VecDeque<T>,
    pub memory_data: VecDeque<T>,
    pub tps_data: VecDeque<T>,
    pub timestamps: VecDeque<String>,
}

impl<T> MetricsHistory<T> {
    /// The four series are equally long and no longer than the window.
    pub open spec fn wf(&self) -> bool {
        &&& self.cpu_data@.len() == self.memory_data@.len()
        &&& self.cpu_data@.len() == self.tps_data@.len()
        &&& self.cpu_data@.len() == self.timestamps@.len()
        &&& self.cpu_data@.len() <= MAX_POINTS
    }

    /// An empty history.
    pub fn new() -> (r: Self)
        ensures
            r.wf(),
            r.cpu_data@.len() == 0,
    {
        MetricsHistory {
            cpu_data: VecDeque::new(),
            memory_data: VecDeque::new(),
            tps_data: VecDeque::new(),
            timestamps: VecDeque::new(),
        }
    }

    /// Appends one sample of each metric; once the window is full the oldest
    /// sample of each series is dropped.
    pub fn add_data(&mut self, cpu: T, memory: T, tps: T, timestamp: String)
        requires
            old(self).wf(),
        ensures
            final(self).wf(),
            final(self).cpu_data@ == last_points(old(self).cpu_data@.push(cpu)),
            final(self).memory_data@ == last_points(old(self).memory_data@.push(memory)),
            final(self).tps_data@ == last_points(old(self).tps_data@.push(tps)),
            final(self).timestamps@ == last_points(old(self).timestamps@.push(timestamp)),
    {
        self.cpu_data.push_back(cpu);
        self.memory_data.push_back(memory);
        self.tps_data.push_back(tps);
        self.timestamps.push_back(timestamp);
        if self.cpu_data.len() > MAX_POINTS {
            self.cpu_data.pop_front();
            self.memory_data.pop_front();
            self.tps_data.pop_front();
            self.timestamps.pop_front();
        }
        assert(self.cpu_data@ =~= last_points(old(self).cpu_data@.push(cpu)));
        assert(self.memory_data@ =~= last_points(old(self).memory_data@.push(memory)));
        assert(self.tps_data@ =~= last_points(old(self).tps_data@.push(tps)));
        assert(self.timestamps@ =~= last_points(old(self).timestamps@.push(timestamp)));
    }
}

/// Space left of the chart for the value labels.
pub const PAD_LEFT: i64 = 36;

/// Space right of the chart.
pub const PAD_RIGHT: i64 = 8;

/// Space above the chart.
pub const PAD_TOP: i64 = 8;

/// Space below the chart.
pub const PAD_BOTTOM: i64 = 18;

/// The smallest width and height a chart is given.
pub const MIN_SIDE: i64 = 10;

/// Horizontal distance between neighbouring samples.
pub const POINT_SPACING: i64 = 4;

/// The rectangle of a canvas that a chart's lines fill.
#[derive(Clone, Copy, Debug, PartialEq, Eq, Structural)]
pub struct PlotArea {
    pub x0: i64,
    pub y0: i64,
    pub width: i64,
    pub height: i64,
}

/// The larger of `a` and `b`.
pub open spec fn larger(a: int, b: int) -> int {
    if a >= b {
        a
    } else {
        b
    }
}

impl PlotArea {
    /// The chart inside a canvas of the given size, after the padding.
    pub fn new(canvas_width: u32, canvas_height: u32) -> (r: PlotArea)
        ensures
            r.wf(),
            r.x0 == PAD_LEFT,
            r.y0 == PAD_TOP,
            r.width == larger(canvas_width - PAD_LEFT - PAD_RIGHT, MIN_SIDE as int),
            r.height == larger(canvas_height - PAD_TOP - PAD_BOTTOM, MIN_SIDE as int),
    {
        let w: i64 = canvas_width as i64 - PAD_LEFT - PAD_RIGHT;
        let h: i64 = canvas_height as i64 - PAD_TOP - PAD_BOTTOM;
        PlotArea {
            x0: PAD_LEFT,
            y0: PAD_TOP,
            width: if w >= MIN_SIDE {
                w
            } else {
                MIN_SIDE
            },
            height: if h >= MIN_SIDE {
                h
            } else {
                MIN_SIDE
            },
        }
    }

    /// The area's sides are at least `MIN_SIDE` and fit a canvas.
    pub open spec fn wf(&self) -> bool {
        &&& MIN_SIDE <= self.width <= u32::MAX
        &&& MIN_SIDE <= self.height <= u32::MAX
        &&& 0 <= self.x0 <= u32::MAX
        &&& 0 <= self.y0 <= u32::MAX
    }

    /// How many samples fit side by side.
    pub open spec fn capacity_view(&self) -> int {
        larger(self.width / POINT_SPACING, 1)
    }

    /// How many samples fit side by side.
    pub fn capacity(&self) -> (r: usize)
        requires
            self.wf(),
        ensures
            r == self.capacity_view(),
    {
        let c = self.width / POINT_SPACING;
        if c >= 1 {
            c as usize
        } else {
            1
        }
    }

    /// Which of `len` samples are drawn: the newest ones that fit, as the
    /// position of the first and how many.
    pub fn window(&self, len: usize) -> (r: (usize, usize))
        requires
            self.wf(),
        ensures
            r.1 == (if len <= self.capacity_view() {
                len as int
            } else {
                self.capacity_view()
            }),
            r.0 + r.1 == len,
    {
        let cap = self.capacity();
        let visible = if len <= cap {
            len
        } else {
            cap
        };
        (len - visible, visible)
    }

    /// The horizontal position of the `i`-th of `visible` drawn samples; the
    /// newest sits at the right edge.
    pub fn point_x(&self, visible: usize, i: usize) -> (r: i64)
        requires
            self.wf(),
            i < visible,
            visible <= self.capacity_view(),
        ensures
            r == self.x0 + self.width - (visible - 1 - i) * POINT_SPACING,
            self.x0 <= r <= self.x0 + self.width,
    {
        let back: i64 = (visible - 1 - i) as i64;
        assert(back * POINT_SPACING <= self.width) by (nonlinear_arith)
            requires
                back < visible,
                visible <= larger(self.width / POINT_SPACING, 1),
                self.width >= MIN_SIDE,
                POINT_SPACING == 4,
                back >= 0,
        ;
        self.x0 + self.width - back * POINT_SPACING
    }
}

} // verus!
