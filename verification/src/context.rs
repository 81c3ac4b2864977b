//! What a node can ask of its surroundings while it handles a phase: the
//! environment it reads, the requests it leaves, and the surface it paints on.

use vstd::prelude::*;
use crate::event::{Command, IdSource, WidgetId};
use crate::geometry::{Point, Rect, Size, Vec2};

verus! {

/// Theme keys.
pub const PRIMARY_LIGHT: u64 = 1;

pub const BACKGROUND_LIGHT: u64 = 2;

pub const BACKGROUND_DARK: u64 = 3;

pub const BUTTON_DARK: u64 = 4;

pub const BORDER_DARK: u64 = 5;

pub const LABEL_COLOR: u64 = 6;

/// The value read for a key that the environment does not hold.
pub const MISSING_VALUE: i64 = 0;

/// A read-only lookup from keys to values, shared by the whole tree during a
/// round.
#[derive(Clone, Debug)]
pub struct Env {
    pub entries: Vec<(u64, i64)>,
}

/// The value of the first entry for `key` at or behind `from`.
pub open spec fn lookup_from(entries: Seq<(u64, i64)>, key: u64, from: int) -> Option<i64>
    decreases entries.len() - from,
{
    if from >= entries.len() || from < 0 {
        None
    } else if entries[from].0 == key {
        Some(entries[from].1)
    } else {
        lookup_from(entries, key, from + 1)
    }
}

/// The colours of the built-in theme.
pub const THEME_PRIMARY_LIGHT: i64 = 0x5c_c4_ff;

pub const THEME_BACKGROUND_LIGHT: i64 = 0x3a_3a_3a;

pub const THEME_BACKGROUND_DARK: i64 = 0x31_31_31;

pub const THEME_BUTTON_DARK: i64 = 0x00_00_00;

pub const THEME_BORDER_DARK: i64 = 0x3a_3a_3a;

pub const THEME_LABEL_COLOR: i64 = 0xf0_f0_ea;

/// The entries of the built-in theme.
pub open spec fn spec_theme() -> Seq<(u64, i64)> {
    seq![
        (PRIMARY_LIGHT, THEME_PRIMARY_LIGHT),
        (BACKGROUND_LIGHT, THEME_BACKGROUND_LIGHT),
        (BACKGROUND_DARK, THEME_BACKGROUND_DARK),
        (BUTTON_DARK, THEME_BUTTON_DARK),
        (BORDER_DARK, THEME_BORDER_DARK),
        (LABEL_COLOR, THEME_LABEL_COLOR),
    ]
}

impl Env {
    /// The environment that holds the built-in theme.
    pub fn theme() -> (r: Env)
        ensures
            r.entries@ == spec_theme(),
    {
        let mut entries: Vec<(u64, i64)> = Vec::new();
        entries.push((PRIMARY_LIGHT, THEME_PRIMARY_LIGHT));
        entries.push((BACKGROUND_LIGHT, THEME_BACKGROUND_LIGHT));
        entries.push((BACKGROUND_DARK, THEME_BACKGROUND_DARK));
        entries.push((BUTTON_DARK, THEME_BUTTON_DARK));
        entries.push((BORDER_DARK, THEME_BORDER_DARK));
        entries.push((LABEL_COLOR, THEME_LABEL_COLOR));
        assert(entries@ =~= spec_theme());
        Env { entries }
    }

    /// An environment without entries.
    pub fn new() -> (r: Env)
        ensures
            r.entries@ == Seq::<(u64, i64)>::empty(),
    {
        Env { entries: Vec::new() }
    }

    /// This environment with one more entry. An earlier entry for the same
    /// key stays in force.
    pub fn adding(self, key: u64, value: i64) -> (r: Env)
        ensures
            r.entries@ == self.entries@.push((key, value)),
    {
        let mut entries = self.entries;
        entries.push((key, value));
        Env { entries }
    }

    /// The value for `key`.
    pub fn get(&self, key: u64) -> (r: Option<i64>)
        ensures
            r == lookup_from(self.entries@, key, 0),
    {
        let mut i: usize = 0;
        while i < self.entries.len()
            invariant
                i <= self.entries.len(),
                lookup_from(self.entries@, key, 0) == lookup_from(self.entries@, key, i as int),
            decreases self.entries.len() - i,
        {
            if self.entries[i].0 == key {
                return Some(self.entries[i].1);
            }
            i += 1;
        }
        None
    }

    /// What `colour` reads.
    pub open spec fn spec_colour(&self, key: u64) -> i64 {
        match lookup_from(self.entries@, key, 0) {
            Some(v) => v,
            None => MISSING_VALUE,
        }
    }

    /// The value for `key`, or the fallback where the key is missing.
    pub fn colour(&self, key: u64) -> (r: i64)
        ensures
            r == self.spec_colour(key),
    {
        match self.get(key) {
            Some(v) => v,
            None => MISSING_VALUE,
        }
    }
}

/// Follow-up work that a node asks for.
#[derive(Clone, Copy, Debug, PartialEq, Eq, Structural)]
pub struct Requests {
    pub paint: bool,
    pub layout: bool,
    pub anim_frame: bool,
    pub children_changed: bool,
    pub update: bool,
}

impl Requests {
    /// Nothing asked for.
    pub fn none() -> (r: Requests)
        ensures
            r == Self::spec_none(),
    {
        Requests {
            paint: false,
            layout: false,
            anim_frame: false,
            children_changed: false,
            update: false,
        }
    }

    pub open spec fn spec_none() -> Requests {
        Requests {
            paint: false,
            layout: false,
            anim_frame: false,
            children_changed: false,
            update: false,
        }
    }

    /// Everything that either asks for.
    pub open spec fn spec_merge(self, other: Requests) -> Requests {
        Requests {
            paint: self.paint || other.paint,
            layout: self.layout || other.layout,
            anim_frame: self.anim_frame || other.anim_frame,
            children_changed: self.children_changed || other.children_changed,
            update: self.update || other.update,
        }
    }

    pub fn merge(self, other: Requests) -> (r: Requests)
        ensures
            r == self.spec_merge(other),
    {
        Requests {
            paint: self.paint || other.paint,
            layout: self.layout || other.layout,
            anim_frame: self.anim_frame || other.anim_frame,
            children_changed: self.children_changed || other.children_changed,
            update: self.update || other.update,
        }
    }
}

/// What a node sees of itself while it handles a phase.
#[derive(Clone, Copy, Debug, PartialEq, Eq, Structural)]
pub struct Frame {
    pub widget_id: WidgetId,
    pub is_hot: bool,
    pub is_active: bool,
    pub has_focus: bool,
    pub size: Size,
}

/// The context of the event phase.
#[derive(Debug)]
pub struct EventCtx {
    pub frame: Frame,
    pub is_handled: bool,
    pub requests: Requests,
    pub commands: Vec<Command>,
    pub ids: IdSource,
}

/// The context of the lifecycle phase.
#[derive(Debug)]
pub struct LifeCycleCtx {
    pub frame: Frame,
    pub requests: Requests,
    pub commands: Vec<Command>,
    pub ids: IdSource,
}

/// The context of the update phase.
#[derive(Debug)]
pub struct UpdateCtx {
    pub frame: Frame,
    pub requests: Requests,
    pub commands: Vec<Command>,
    pub ids: IdSource,
}

/// A layout that had to be mended.
#[derive(Clone, Copy, Debug, PartialEq, Eq, Structural)]
pub enum LayoutWarning {
    /// A child asked for an unbounded width.
    InfiniteWidth(WidgetId),
    /// A child asked for an unbounded height.
    InfiniteHeight(WidgetId),
    /// A child's size lay outside its constraints and was brought inside.
    Unconstrained(WidgetId),
}

/// The warnings that a size calls for: one for each side that is unbounded.
pub open spec fn spec_size_warnings(id: WidgetId, size: Size) -> Seq<LayoutWarning> {
    let w = if size.width == crate::geometry::INFINITE {
        seq![LayoutWarning::InfiniteWidth(id)]
    } else {
        Seq::empty()
    };
    if size.height == crate::geometry::INFINITE {
        w.push(LayoutWarning::InfiniteHeight(id))
    } else {
        w
    }
}

/// The context of the layout phase.
#[derive(Debug)]
pub struct LayoutCtx {
    pub frame: Frame,
    pub commands: Vec<Command>,
    pub warnings: Vec<LayoutWarning>,
}

/// One instruction to the paint surface. Positions are in the frame of the
/// node that paints, origin top left, y downwards.
#[derive(Clone, Debug)]
pub enum PaintOp {
    /// Remember transform and clip.
    Save,
    /// Go back to what the matching `Save` remembered.
    Restore,
    /// Move the frame.
    Translate(Vec2),
    /// Paint only inside the rectangle from now on.
    Clip(Rect),
    Fill { rect: Rect, colour: i64 },
    StrokeLine { from: Point, to: Point, colour: i64, width: i64 },
    StrokeRect { rect: Rect, colour: i64, width: i64 },
    Text { origin: Point, text: String, colour: i64 },
    /// Turn the frame clockwise by this many quarter turns.
    QuarterTurns(u8),
    /// The mark that closes a tab.
    CloseMark { origin: Point, colour: i64 },
    /// What stands in for the body of a tab for which none could be built.
    MissingTab { key: u64 },
}

/// The context of the paint phase: the draw instructions issued so far.
#[derive(Debug)]
pub struct PaintCtx {
    pub frame: Frame,
    pub ops: Vec<PaintOp>,
}

impl Frame {
    /// The frame of a node that has not been laid out.
    pub fn of(widget_id: WidgetId) -> (r: Frame)
        ensures
            r == (Frame {
                widget_id,
                is_hot: false,
                is_active: false,
                has_focus: false,
                size: Size { width: 0, height: 0 },
            }),
    {
        Frame {
            widget_id,
            is_hot: false,
            is_active: false,
            has_focus: false,
            size: Size { width: 0, height: 0 },
        }
    }
}

impl EventCtx {
    /// A fresh context for the node with the given frame.
    pub fn new(frame: Frame, ids: IdSource) -> (r: EventCtx)
        ensures
            r.frame == frame,
            r.ids == ids,
            !r.is_handled,
            r.requests == Requests::spec_none(),
            r.commands@ == Seq::<Command>::empty(),
    {
        EventCtx { frame, is_handled: false, requests: Requests::none(), commands: Vec::new(), ids }
    }

    pub fn request_paint(&mut self)
        ensures
            *final(self) == (EventCtx {
                requests: Requests { paint: true, ..old(self).requests },
                ..*old(self)
            }),
    {
        self.requests.paint = true;
    }

    pub fn request_layout(&mut self)
        ensures
            *final(self) == (EventCtx {
                requests: Requests { layout: true, ..old(self).requests },
                ..*old(self)
            }),
    {
        self.requests.layout = true;
    }

    pub fn request_anim_frame(&mut self)
        ensures
            *final(self) == (EventCtx {
                requests: Requests { anim_frame: true, ..old(self).requests },
                ..*old(self)
            }),
    {
        self.requests.anim_frame = true;
    }

    /// Asks for an update pass over this node although its data may look the same.
    pub fn request_update(&mut self)
        ensures
            *final(self) == (EventCtx {
                requests: Requests { update: true, ..old(self).requests },
                ..*old(self)
            }),
    {
        self.requests.update = true;
    }

    pub fn children_changed(&mut self)
        ensures
            *final(self) == (EventCtx {
                requests: Requests { children_changed: true, ..old(self).requests },
                ..*old(self)
            }),
    {
        self.requests.children_changed = true;
    }

    /// Marks the event as handled: no sibling will see it.
    pub fn set_handled(&mut self)
        ensures
            *final(self) == (EventCtx { is_handled: true, ..*old(self) }),
    {
        self.is_handled = true;
    }

    pub fn is_handled(&self) -> (r: bool)
        ensures
            r == self.is_handled,
    {
        self.is_handled
    }

    /// Takes or releases the pointer.
    pub fn set_active(&mut self, active: bool)
        ensures
            *final(self) == (EventCtx {
                frame: Frame { is_active: active, ..old(self).frame },
                ..*old(self)
            }),
    {
        self.frame.is_active = active;
    }

    pub fn is_active(&self) -> (r: bool)
        ensures
            r == self.frame.is_active,
    {
        self.frame.is_active
    }

    pub fn is_hot(&self) -> (r: bool)
        ensures
            r == self.frame.is_hot,
    {
        self.frame.is_hot
    }

    pub fn size(&self) -> (r: Size)
        ensures
            r == self.frame.size,
    {
        self.frame.size
    }

    pub fn widget_id(&self) -> (r: WidgetId)
        ensures
            r == self.frame.widget_id,
    {
        self.frame.widget_id
    }

    /// Posts a command for the next round.
    pub fn submit_command(&mut self, command: Command)
        ensures
            final(self).commands@ == old(self).commands@.push(command),
            final(self).frame == old(self).frame,
            final(self).is_handled == old(self).is_handled,
            final(self).requests == old(self).requests,
            final(self).ids == old(self).ids,
    {
        self.commands.push(command);
    }
}

impl LifeCycleCtx {
    /// A fresh context for the node with the given frame.
    pub fn new(frame: Frame, ids: IdSource) -> (r: LifeCycleCtx)
        ensures
            r.frame == frame,
            r.ids == ids,
            r.requests == Requests::spec_none(),
            r.commands@ == Seq::<Command>::empty(),
    {
        LifeCycleCtx { frame, requests: Requests::none(), commands: Vec::new(), ids }
    }

    pub fn request_paint(&mut self)
        ensures
            *final(self) == (LifeCycleCtx {
                requests: Requests { paint: true, ..old(self).requests },
                ..*old(self)
            }),
    {
        self.requests.paint = true;
    }

    pub fn request_layout(&mut self)
        ensures
            *final(self) == (LifeCycleCtx {
                requests: Requests { layout: true, ..old(self).requests },
                ..*old(self)
            }),
    {
        self.requests.layout = true;
    }

    pub fn request_anim_frame(&mut self)
        ensures
            *final(self) == (LifeCycleCtx {
                requests: Requests { anim_frame: true, ..old(self).requests },
                ..*old(self)
            }),
    {
        self.requests.anim_frame = true;
    }

    pub fn children_changed(&mut self)
        ensures
            *final(self) == (LifeCycleCtx {
                requests: Requests { children_changed: true, ..old(self).requests },
                ..*old(self)
            }),
    {
        self.requests.children_changed = true;
    }

    /// Posts a command for the next round.
    pub fn submit_command(&mut self, command: Command)
        ensures
            final(self).commands@ == old(self).commands@.push(command),
            final(self).frame == old(self).frame,
            final(self).requests == old(self).requests,
            final(self).ids == old(self).ids,
    {
        self.commands.push(command);
    }
}

impl UpdateCtx {
    /// A fresh context for the node with the given frame.
    pub fn new(frame: Frame, ids: IdSource) -> (r: UpdateCtx)
        ensures
            r.frame == frame,
            r.ids == ids,
            r.requests == Requests::spec_none(),
            r.commands@ == Seq::<Command>::empty(),
    {
        UpdateCtx { frame, requests: Requests::none(), commands: Vec::new(), ids }
    }

    pub fn request_paint(&mut self)
        ensures
            *final(self) == (UpdateCtx {
                requests: Requests { paint: true, ..old(self).requests },
                ..*old(self)
            }),
    {
        self.requests.paint = true;
    }

    pub fn request_layout(&mut self)
        ensures
            *final(self) == (UpdateCtx {
                requests: Requests { layout: true, ..old(self).requests },
                ..*old(self)
            }),
    {
        self.requests.layout = true;
    }

    pub fn request_anim_frame(&mut self)
        ensures
            *final(self) == (UpdateCtx {
                requests: Requests { anim_frame: true, ..old(self).requests },
                ..*old(self)
            }),
    {
        self.requests.anim_frame = true;
    }

    pub fn children_changed(&mut self)
        ensures
            *final(self) == (UpdateCtx {
                requests: Requests { children_changed: true, ..old(self).requests },
                ..*old(self)
            }),
    {
        self.requests.children_changed = true;
    }

    pub fn size(&self) -> (r: Size)
        ensures
            r == self.frame.size,
    {
        self.frame.size
    }

    /// Posts a command for the next round.
    pub fn submit_command(&mut self, command: Command)
        ensures
            final(self).commands@ == old(self).commands@.push(command),
            final(self).frame == old(self).frame,
            final(self).requests == old(self).requests,
            final(self).ids == old(self).ids,
    {
        self.commands.push(command);
    }
}

impl LayoutCtx {
    /// A fresh context for the node with the given frame.
    pub fn new(frame: Frame) -> (r: LayoutCtx)
        ensures
            r.frame == frame,
            r.commands@ == Seq::<Command>::empty(),
            r.warnings@ == Seq::<LayoutWarning>::empty(),
    {
        LayoutCtx { frame, commands: Vec::new(), warnings: Vec::new() }
    }

    /// Posts a command for the next round.
    pub fn submit_command(&mut self, command: Command)
        ensures
            final(self).commands@ == old(self).commands@.push(command),
            final(self).frame == old(self).frame,
            final(self).warnings == old(self).warnings,
    {
        self.commands.push(command);
    }

    /// Records a warning for each side of `size` that is unbounded, on
    /// behalf of the node `id`.
    pub fn warn_of_size(&mut self, id: WidgetId, size: Size)
        ensures
            final(self).warnings@ == old(self).warnings@ + spec_size_warnings(id, size),
            final(self).frame == old(self).frame,
            final(self).commands == old(self).commands,
    {
        if size.width == crate::geometry::INFINITE {
            self.warn(LayoutWarning::InfiniteWidth(id));
        }
        if size.height == crate::geometry::INFINITE {
            self.warn(LayoutWarning::InfiniteHeight(id));
        }
        assert(self.warnings@ =~= old(self).warnings@ + spec_size_warnings(id, size));
    }

    /// Records that a layout had to be mended.
    pub fn warn(&mut self, warning: LayoutWarning)
        ensures
            final(self).warnings@ == old(self).warnings@.push(warning),
            final(self).frame == old(self).frame,
            final(self).commands == old(self).commands,
    {
        self.warnings.push(warning);
    }
}

impl PaintCtx {
    /// An empty surface for the node with the given frame.
    pub fn new(frame: Frame) -> (r: PaintCtx)
        ensures
            r.frame == frame,
            r.ops@ == Seq::<PaintOp>::empty(),
    {
        PaintCtx { frame, ops: Vec::new() }
    }

    pub fn size(&self) -> (r: Size)
        ensures
            r == self.frame.size,
    {
        self.frame.size
    }

    /// Issues one instruction.
    pub fn emit(&mut self, op: PaintOp)
        ensures
            final(self).ops@ == old(self).ops@.push(op),
            final(self).frame == old(self).frame,
    {
        self.ops.push(op);
    }

    pub fn save(&mut self)
        ensures
            final(self).ops@ == old(self).ops@.push(PaintOp::Save),
            final(self).frame == old(self).frame,
    {
        self.ops.push(PaintOp::Save);
    }

    pub fn restore(&mut self)
        ensures
            final(self).ops@ == old(self).ops@.push(PaintOp::Restore),
            final(self).frame == old(self).frame,
    {
        self.ops.push(PaintOp::Restore);
    }

    pub fn translate(&mut self, by: Vec2)
        ensures
            final(self).ops@ == old(self).ops@.push(PaintOp::Translate(by)),
            final(self).frame == old(self).frame,
    {
        self.ops.push(PaintOp::Translate(by));
    }

    pub fn clip(&mut self, rect: Rect)
        ensures
            final(self).ops@ == old(self).ops@.push(PaintOp::Clip(rect)),
            final(self).frame == old(self).frame,
    {
        self.ops.push(PaintOp::Clip(rect));
    }

    pub fn fill(&mut self, rect: Rect, colour: i64)
        ensures
            final(self).ops@ == old(self).ops@.push(PaintOp::Fill { rect, colour }),
            final(self).frame == old(self).frame,
    {
        self.ops.push(PaintOp::Fill { rect, colour });
    }

    pub fn stroke_line(&mut self, from: Point, to: Point, colour: i64, width: i64)
        ensures
            final(self).ops@ == old(self).ops@.push(PaintOp::StrokeLine { from, to, colour, width }),
            final(self).frame == old(self).frame,
    {
        self.ops.push(PaintOp::StrokeLine { from, to, colour, width });
    }

    pub fn stroke_rect(&mut self, rect: Rect, colour: i64, width: i64)
        ensures
            final(self).ops@ == old(self).ops@.push(PaintOp::StrokeRect { rect, colour, width }),
            final(self).frame == old(self).frame,
    {
        self.ops.push(PaintOp::StrokeRect { rect, colour, width });
    }

    pub fn quarter_turns(&mut self, turns: u8)
        ensures
            final(self).ops@ == old(self).ops@.push(PaintOp::QuarterTurns(turns)),
            final(self).frame == old(self).frame,
    {
        self.ops.push(PaintOp::QuarterTurns(turns));
    }

    pub fn close_mark(&mut self, origin: Point, colour: i64)
        ensures
            final(self).ops@ == old(self).ops@.push(PaintOp::CloseMark { origin, colour }),
            final(self).frame == old(self).frame,
    {
        self.ops.push(PaintOp::CloseMark { origin, colour });
    }

    pub fn text(&mut self, origin: Point, text: String, colour: i64)
        ensures
            final(self).ops@ == old(self).ops@.push(PaintOp::Text { origin, text, colour }),
            final(self).frame == old(self).frame,
    {
        self.ops.push(PaintOp::Text { origin, text, colour });
    }
}

} // verus!
