//! Shapes and styles.
//!
//! The engine never evaluates geometry itself: a path is carried as a plain
//! sequence of events whose coordinates are 32-bit float words, and handed on
//! to the tessellation collaborator at build time. Fill and stroke styles
//! reference a color record by its [`ColorId`]; image patterns are an
//! acknowledged extension point, not implemented, and requesting one fails
//! with a distinct error rather than silently falling back to a color fill.

use vstd::prelude::*;

use crate::ids::ColorId;
use crate::ids::ImageId;

verus! {

/// One step of a path outline; coordinates are float words.
#[derive(Copy, Clone, Debug, PartialEq, Eq, Structural)]
pub enum PathEvent {
    MoveTo { x: u32, y: u32 },
    LineTo { x: u32, y: u32 },
    Close,
}

/// A path outline: the ordered events a path builder recorded.
#[derive(Debug, PartialEq, Eq)]
pub struct PathData {
    events: Vec<PathEvent>,
}

impl View for PathData {
    type V = Seq<PathEvent>;

    closed spec fn view(&self) -> Seq<PathEvent> {
        self.events@
    }
}

impl Clone for PathData {
    /// A deep copy holding the same events.
    fn clone(&self) -> (r: Self)
        ensures
            r@ == self@,
    {
        let events = self.events.clone();
        proof {
            assert(events@ =~= self.events@);
        }
        PathData { events }
    }
}

impl PathData {
    /// An empty outline.
    pub fn new() -> (r: Self)
        ensures
            r@ =~= Seq::<PathEvent>::empty(),
    {
        PathData { events: Vec::new() }
    }

    /// Starts a new sub-path at the given position.
    pub fn move_to(&mut self, x: u32, y: u32)
        ensures
            final(self)@ =~= old(self)@.push(PathEvent::MoveTo { x, y }),
    {
        self.events.push(PathEvent::MoveTo { x, y });
    }

    /// Extends the current sub-path with a straight segment.
    pub fn line_to(&mut self, x: u32, y: u32)
        ensures
            final(self)@ =~= old(self)@.push(PathEvent::LineTo { x, y }),
    {
        self.events.push(PathEvent::LineTo { x, y });
    }

    /// Closes the current sub-path.
    pub fn close(&mut self)
        ensures
            final(self)@ =~= old(self)@.push(PathEvent::Close),
    {
        self.events.push(PathEvent::Close);
    }

    /// The recorded events, in order.
    pub fn events(&self) -> (r: &Vec<PathEvent>)
        ensures
            r@ == self@,
    {
        &self.events
    }
}

/// A shape a draw operation can record. Only paths are tessellated so far;
/// circles are an acknowledged extension point.
#[derive(Debug, PartialEq, Eq)]
pub enum Shape {
    Path { path: PathData, tolerance: u32 },
    Circle { center_x: u32, center_y: u32, radius: u32, tolerance: u32 },
}

impl Shape {
    /// Whether the shape is a path, the one kind the tessellation glue
    /// supports.
    pub open spec fn is_path(self) -> bool {
        self is Path
    }
}

/// An axis-aligned rectangle of float words, selecting the region an image
/// pattern would sample.
#[derive(Copy, Clone, Debug, PartialEq, Eq, Structural)]
pub struct Rect {
    pub min_x: u32,
    pub min_y: u32,
    pub max_x: u32,
    pub max_y: u32,
}

/// What a fill or stroke is painted with.
#[derive(Copy, Clone, Debug, PartialEq, Structural, Eq)]
pub enum Pattern {
    Color(ColorId),
    Image(Rect, ImageId),
}

/// How a fill operation is painted.
#[derive(Copy, Clone, Debug, PartialEq, Structural, Eq)]
pub struct FillStyle {
    pub pattern: Pattern,
}

/// How a stroke operation is painted.
#[derive(Copy, Clone, Debug, PartialEq, Structural, Eq)]
pub struct StrokeStyle {
    pub pattern: Pattern,
}

/// Whether a fill is composited opaquely; transparent fills are an
/// acknowledged extension point.
#[derive(Copy, Clone, Debug, PartialEq, Eq, Structural)]
pub enum FillType {
    Opaque,
    Transparent,
}

/// Stroke tessellation options, captured by value when the stroke is
/// recorded: the line width word also written into the stroke primitive, and
/// the tessellation tolerance, both float words.
#[derive(Copy, Clone, Debug, PartialEq, Eq, Structural)]
pub struct StrokeOptions {
    pub line_width: u32,
    pub tolerance: u32,
}

} // verus!
