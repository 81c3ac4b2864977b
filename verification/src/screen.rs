//! Monitors, as the platform reports them, and the size of the display
//! that they make up together.

use vstd::prelude::*;
use crate::geometry::{Rect, Size};

verus! {

/// One monitor: where it lies on the virtual screen, and the part of it
/// that is left for windows.
#[derive(Clone, Copy, Debug, PartialEq, Eq, Structural)]
pub struct Monitor {
    pub primary: bool,
    pub rect: Rect,
    pub work_rect: Rect,
}

/// The flag by which the platform marks the primary monitor.
pub const MONITOR_PRIMARY: u32 = 1;

impl Monitor {
    pub fn new(primary: bool, rect: Rect, work_rect: Rect) -> (r: Monitor)
        ensures
            r == (Monitor { primary, rect, work_rect }),
    {
        Monitor { primary, rect, work_rect }
    }

    pub fn is_primary(&self) -> (r: bool)
        ensures
            r == self.primary,
    {
        self.primary
    }

    /// Where the monitor lies on the virtual screen.
    pub fn virtual_rect(&self) -> (r: Rect)
        ensures
            r == self.rect,
    {
        self.rect
    }

    /// The part of the monitor that is left for windows.
    pub fn virtual_work_rect(&self) -> (r: Rect)
        ensures
            r == self.work_rect,
    {
        self.work_rect
    }
}

/// The monitor that a report of the platform describes: it is the primary
/// one where the flags are exactly the mark of the primary monitor.
pub fn monitor_from_info(flags: u32, monitor: (i32, i32, i32, i32), work: (i32, i32, i32, i32)) -> (r:
    Monitor)
    ensures
        r == (Monitor {
            primary: flags == MONITOR_PRIMARY,
            rect: Rect {
                x0: monitor.0 as i64,
                y0: monitor.1 as i64,
                x1: monitor.2 as i64,
                y1: monitor.3 as i64,
            },
            work_rect: Rect {
                x0: work.0 as i64,
                y0: work.1 as i64,
                x1: work.2 as i64,
                y1: work.3 as i64,
            },
        }),
{
    Monitor {
        primary: flags == MONITOR_PRIMARY,
        rect: Rect {
            x0: monitor.0 as i64,
            y0: monitor.1 as i64,
            x1: monitor.2 as i64,
            y1: monitor.3 as i64,
        },
        work_rect: Rect {
            x0: work.0 as i64,
            y0: work.1 as i64,
            x1: work.2 as i64,
            y1: work.3 as i64,
        },
    }
}

/// The monitors of a list of screens, each given by its frame and the part
/// of the frame that is visible: the first screen is the primary monitor.
pub open spec fn spec_monitors(frames: Seq<(Rect, Rect)>) -> Seq<Monitor> {
    Seq::new(
        frames.len(),
        |i: int| Monitor { primary: i == 0, rect: frames[i].0, work_rect: frames[i].1 },
    )
}

/// The monitors of the screens that the platform lists.
pub fn get_monitors(frames: &Vec<(Rect, Rect)>) -> (r: Vec<Monitor>)
    ensures
        r@ == spec_monitors(frames@),
{
    let mut monitors: Vec<Monitor> = Vec::new();
    let mut idx: usize = 0;
    while idx < frames.len()
        invariant
            idx <= frames.len(),
            monitors@ == spec_monitors(frames@.take(idx as int)),
        decreases frames.len() - idx,
    {
        monitors.push(Monitor::new(idx == 0, frames[idx].0, frames[idx].1));
        assert(monitors@ =~= spec_monitors(frames@.take(idx + 1)));
        idx += 1;
    }
    assert(frames@.take(frames.len() as int) =~= frames@);
    monitors
}

/// The smallest rectangle that holds the empty rectangle at the origin and
/// the first `n` monitors.
pub open spec fn spec_bounds(monitors: Seq<Monitor>, n: int) -> Rect
    decreases n,
{
    if n <= 0 {
        Rect { x0: 0, y0: 0, x1: 0, y1: 0 }
    } else {
        spec_bounds(monitors, n - 1).spec_union(monitors[n - 1].rect)
    }
}

/// The size of the display: of the smallest rectangle that holds the
/// origin and every monitor.
pub fn get_display_size(monitors: &Vec<Monitor>) -> (r: Size)
    ensures
        r == spec_bounds(monitors@, monitors.len() as int).spec_size(),
{
    let mut rect = Rect::zero();
    let mut i: usize = 0;
    while i < monitors.len()
        invariant
            i <= monitors.len(),
            rect == spec_bounds(monitors@, i as int),
        decreases monitors.len() - i,
    {
        rect = rect.union(monitors[i].virtual_rect());
        i += 1;
    }
    rect.size()
}

} // verus!
