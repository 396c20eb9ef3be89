//! The drawable actions: one variant for each tool, with the geometry and
//! the style that the action was drawn with.

use vstd::prelude::*;
use image::DynamicImage;
use crate::color::Color;
use crate::geometry::{distance, distance_squared, floor_sqrt, Point};
use crate::transform::Transform;

verus! {

/// `String::push` appends one character to the end of the string.
pub assume_specification[ String::push ](s: &mut String, ch: char)
    ensures
        final(s)@ == old(s)@.push(ch),
;

/// The drawing mode that is armed. Exactly one is armed at a time.
#[derive(Clone, Copy, Debug, PartialEq, Eq, Structural)]
pub enum Selection {
    Pen,
    Highlighter,
    Rectangle,
    Circle,
    Ellipse,
    Arrow,
    Text,
    Crop,
}

impl Default for Selection {
    /// The pen is armed where nothing else was chosen.
    fn default() -> (s: Selection)
        ensures
            s == Selection::Pen,
    {
        Selection::Pen
    }
}

/// The stroke width of an action that no style was given to, in pixels.
pub const DEFAULT_STROKE: u32 = 2;

/// One drawable operation. Every variant but `Crop` starts with the global
/// transform that was in force when the action was made.
#[derive(Clone, Debug, PartialEq)]
pub enum Action {
    /// A freehand stroke: transform, points, colour, stroke width.
    Pen(Transform, Vec<Point>, Color, u32),
    /// A translucent freehand stroke: transform, points, colour, stroke width.
    Highlighter(Transform, Vec<Point>, Color, u32),
    /// A rectangle: transform, two corners, colour, fill flag, stroke width.
    Rectangle(Transform, Point, Point, Color, bool, u32),
    /// A circle: transform, centre, radius, colour, fill flag, stroke width.
    Circle(Transform, Point, u64, Color, bool, u32),
    /// An ellipse inscribed in a rectangle: transform, two corners, colour,
    /// fill flag, stroke width.
    Ellipse(Transform, Point, Point, Color, bool, u32),
    /// An arrow: transform, start, end, colour, stroke width.
    Arrow(Transform, Point, Point, Color, u32),
    /// A line of text: transform, anchor, characters, colour.
    Text(Transform, Point, String, Color),
    /// A crop rectangle in view coordinates, with the flattened picture it
    /// cuts from once the host has supplied one.
    Crop(Option<DynamicImage>, Point, Point),
}

/// What an [`Action`] holds, with sequences in place of vectors and strings.
pub enum ActionView {
    Pen(Transform, Seq<Point>, Color, u32),
    Highlighter(Transform, Seq<Point>, Color, u32),
    Rectangle(Transform, Point, Point, Color, bool, u32),
    Circle(Transform, Point, u64, Color, bool, u32),
    Ellipse(Transform, Point, Point, Color, bool, u32),
    Arrow(Transform, Point, Point, Color, u32),
    Text(Transform, Point, Seq<char>, Color),
    Crop(Option<DynamicImage>, Point, Point),
}

impl View for Action {
    type V = ActionView;

    open spec fn view(&self) -> ActionView {
        match *self {
            Action::Pen(t, points, c, s) => ActionView::Pen(t, points@, c, s),
            Action::Highlighter(t, points, c, s) => ActionView::Highlighter(t, points@, c, s),
            Action::Rectangle(t, p, q, c, fill, s) => ActionView::Rectangle(t, p, q, c, fill, s),
            Action::Circle(t, p, r, c, fill, s) => ActionView::Circle(t, p, r, c, fill, s),
            Action::Ellipse(t, p, q, c, fill, s) => ActionView::Ellipse(t, p, q, c, fill, s),
            Action::Arrow(t, p, q, c, s) => ActionView::Arrow(t, p, q, c, s),
            Action::Text(t, p, text, c) => ActionView::Text(t, p, text@, c),
            Action::Crop(snapshot, p, q) => ActionView::Crop(snapshot, p, q),
        }
    }
}

/// The radius of the circle about `center` through `cursor`, in whole pixels.
pub open spec fn radius_to(center: Point, cursor: Point) -> u64 {
    floor_sqrt(distance_squared(center, cursor)) as u64
}

impl ActionView {
    /// The tool that makes this variant.
    pub open spec fn kind(self) -> Selection {
        match self {
            ActionView::Pen(..) => Selection::Pen,
            ActionView::Highlighter(..) => Selection::Highlighter,
            ActionView::Rectangle(..) => Selection::Rectangle,
            ActionView::Circle(..) => Selection::Circle,
            ActionView::Ellipse(..) => Selection::Ellipse,
            ActionView::Arrow(..) => Selection::Arrow,
            ActionView::Text(..) => Selection::Text,
            ActionView::Crop(..) => Selection::Crop,
        }
    }

    /// The action of the given tool with nothing drawn yet: no points, all
    /// positions at the origin, radius zero, no text, no snapshot; identity
    /// transform, red, unfilled, default stroke width.
    pub open spec fn blank(tool: Selection) -> ActionView {
        let t = Transform { a: 1, b: 0, c: 0, d: 1, e: 0, f: 0 };
        let o = Point { x: 0, y: 0 };
        let red = Color::red();
        match tool {
            Selection::Pen => ActionView::Pen(t, Seq::empty(), red, DEFAULT_STROKE),
            Selection::Highlighter => ActionView::Highlighter(t, Seq::empty(), red, DEFAULT_STROKE),
            Selection::Rectangle => ActionView::Rectangle(t, o, o, red, false, DEFAULT_STROKE),
            Selection::Circle => ActionView::Circle(t, o, 0, red, false, DEFAULT_STROKE),
            Selection::Ellipse => ActionView::Ellipse(t, o, o, red, false, DEFAULT_STROKE),
            Selection::Arrow => ActionView::Arrow(t, o, o, red, DEFAULT_STROKE),
            Selection::Text => ActionView::Text(t, o, Seq::empty(), red),
            Selection::Crop => ActionView::Crop(None, o, o),
        }
    }

    /// The same action with the given transform, colour and stroke width.
    /// Text has no stroke width, and a crop rectangle has no style at all.
    pub open spec fn stamped(self, transform: Transform, color: Color, stroke: u32) -> ActionView {
        match self {
            ActionView::Pen(_, points, _, _) => ActionView::Pen(transform, points, color, stroke),
            ActionView::Highlighter(_, points, _, _) => ActionView::Highlighter(
                transform,
                points,
                color,
                stroke,
            ),
            ActionView::Rectangle(_, p, q, _, fill, _) => ActionView::Rectangle(
                transform,
                p,
                q,
                color,
                fill,
                stroke,
            ),
            ActionView::Circle(_, p, r, _, fill, _) => ActionView::Circle(
                transform,
                p,
                r,
                color,
                fill,
                stroke,
            ),
            ActionView::Ellipse(_, p, q, _, fill, _) => ActionView::Ellipse(
                transform,
                p,
                q,
                color,
                fill,
                stroke,
            ),
            ActionView::Arrow(_, p, q, _, _) => ActionView::Arrow(transform, p, q, color, stroke),
            ActionView::Text(_, p, text, _) => ActionView::Text(transform, p, text, color),
            ActionView::Crop(snapshot, p, q) => ActionView::Crop(snapshot, p, q),
        }
    }

    /// The action as a pointer press at `pos` starts it: a freehand stroke
    /// gains `pos` as a point, a shape, an arrow or a crop rectangle has both
    /// its positions there, a circle its centre, text its anchor. Shapes take
    /// the fill flag.
    pub open spec fn placed_at(self, pos: Point, fill: bool) -> ActionView {
        match self {
            ActionView::Pen(t, points, c, s) => ActionView::Pen(t, points.push(pos), c, s),
            ActionView::Highlighter(t, points, c, s) => ActionView::Highlighter(
                t,
                points.push(pos),
                c,
                s,
            ),
            ActionView::Rectangle(t, _, _, c, _, s) => ActionView::Rectangle(
                t,
                pos,
                pos,
                c,
                fill,
                s,
            ),
            ActionView::Circle(t, _, r, c, _, s) => ActionView::Circle(t, pos, r, c, fill, s),
            ActionView::Ellipse(t, _, _, c, _, s) => ActionView::Ellipse(t, pos, pos, c, fill, s),
            ActionView::Arrow(t, _, _, c, s) => ActionView::Arrow(t, pos, pos, c, s),
            ActionView::Text(t, _, text, c) => ActionView::Text(t, pos, text, c),
            ActionView::Crop(snapshot, _, _) => ActionView::Crop(snapshot, pos, pos),
        }
    }

    /// The action after the pointer has moved to `pos` during the drag: a
    /// freehand stroke gains the point, a rectangle, ellipse, arrow or crop
    /// rectangle ends there, a circle passes through it. Text stays.
    pub open spec fn dragged_to(self, pos: Point) -> ActionView {
        match self {
            ActionView::Pen(t, points, c, s) => ActionView::Pen(t, points.push(pos), c, s),
            ActionView::Highlighter(t, points, c, s) => ActionView::Highlighter(
                t,
                points.push(pos),
                c,
                s,
            ),
            ActionView::Rectangle(t, p, _, c, fill, s) => ActionView::Rectangle(
                t,
                p,
                pos,
                c,
                fill,
                s,
            ),
            ActionView::Circle(t, p, _, c, fill, s) => ActionView::Circle(
                t,
                p,
                radius_to(p, pos),
                c,
                fill,
                s,
            ),
            ActionView::Ellipse(t, p, _, c, fill, s) => ActionView::Ellipse(t, p, pos, c, fill, s),
            ActionView::Arrow(t, p, _, c, s) => ActionView::Arrow(t, p, pos, c, s),
            ActionView::Text(t, p, text, c) => ActionView::Text(t, p, text, c),
            ActionView::Crop(snapshot, p, _) => ActionView::Crop(snapshot, p, pos),
        }
    }

    /// The action after the pointer was released at `pos`: the end point or
    /// the radius is set one last time. Freehand strokes and text stay.
    pub open spec fn released_at(self, pos: Point) -> ActionView {
        match self {
            ActionView::Pen(..) => self,
            ActionView::Highlighter(..) => self,
            _ => self.dragged_to(pos),
        }
    }

    /// Text with one more character at its end, under the given transform;
    /// any other action unchanged.
    pub open spec fn typed(self, transform: Transform, ch: char) -> ActionView {
        match self {
            ActionView::Text(_, p, text, c) => ActionView::Text(transform, p, text.push(ch), c),
            _ => self,
        }
    }

    /// Text with its characters replaced, under the given transform; any
    /// other action unchanged.
    pub open spec fn pasted(self, transform: Transform, text: Seq<char>) -> ActionView {
        match self {
            ActionView::Text(_, p, _, c) => ActionView::Text(transform, p, text, c),
            _ => self,
        }
    }

    /// Text moved to `pos` in the given colour; any other action unchanged.
    pub open spec fn anchored(self, pos: Point, color: Color) -> ActionView {
        match self {
            ActionView::Text(t, _, text, _) => ActionView::Text(t, pos, text, color),
            _ => self,
        }
    }

    /// A crop rectangle with the picture it cuts from; any other action
    /// unchanged.
    pub open spec fn with_snapshot(self, snapshot: DynamicImage) -> ActionView {
        match self {
            ActionView::Crop(_, p, q) => ActionView::Crop(Some(snapshot), p, q),
            _ => self,
        }
    }
}

impl Action {
    /// The blank action of the given tool.
    pub fn new(selection: &Selection) -> (action: Action)
        ensures
            action@ == ActionView::blank(*selection),
    {
        let t = Transform::identity();
        let o = Point::zero();
        let red = Color::red();
        match selection {
            Selection::Pen => Action::Pen(t, Vec::new(), red, DEFAULT_STROKE),
            Selection::Highlighter => Action::Highlighter(t, Vec::new(), red, DEFAULT_STROKE),
            Selection::Rectangle => Action::Rectangle(t, o, o, red, false, DEFAULT_STROKE),
            Selection::Circle => Action::Circle(t, o, 0, red, false, DEFAULT_STROKE),
            Selection::Ellipse => Action::Ellipse(t, o, o, red, false, DEFAULT_STROKE),
            Selection::Arrow => Action::Arrow(t, o, o, red, DEFAULT_STROKE),
            Selection::Text => Action::Text(t, o, String::new(), red),
            Selection::Crop => Action::Crop(None, o, o),
        }
    }

    /// The tool that makes this variant.
    pub fn kind(&self) -> (tool: Selection)
        ensures
            tool == self@.kind(),
    {
        match self {
            Action::Pen(..) => Selection::Pen,
            Action::Highlighter(..) => Selection::Highlighter,
            Action::Rectangle(..) => Selection::Rectangle,
            Action::Circle(..) => Selection::Circle,
            Action::Ellipse(..) => Selection::Ellipse,
            Action::Arrow(..) => Selection::Arrow,
            Action::Text(..) => Selection::Text,
            Action::Crop(..) => Selection::Crop,
        }
    }

    /// Gives the action a transform, a colour and a stroke width.
    pub fn stamped(self, transform: Transform, color: Color, stroke: u32) -> (action: Action)
        ensures
            action@ == self@.stamped(transform, color, stroke),
    {
        match self {
            Action::Pen(_, points, _, _) => Action::Pen(transform, points, color, stroke),
            Action::Highlighter(_, points, _, _) => Action::Highlighter(
                transform,
                points,
                color,
                stroke,
            ),
            Action::Rectangle(_, p, q, _, fill, _) => Action::Rectangle(
                transform,
                p,
                q,
                color,
                fill,
                stroke,
            ),
            Action::Circle(_, p, r, _, fill, _) => Action::Circle(
                transform,
                p,
                r,
                color,
                fill,
                stroke,
            ),
            Action::Ellipse(_, p, q, _, fill, _) => Action::Ellipse(
                transform,
                p,
                q,
                color,
                fill,
                stroke,
            ),
            Action::Arrow(_, p, q, _, _) => Action::Arrow(transform, p, q, color, stroke),
            Action::Text(_, p, text, _) => Action::Text(transform, p, text, color),
            Action::Crop(snapshot, p, q) => Action::Crop(snapshot, p, q),
        }
    }

    /// Starts the action at `pos`.
    pub fn placed_at(self, pos: Point, fill: bool) -> (action: Action)
        ensures
            action@ == self@.placed_at(pos, fill),
    {
        match self {
            Action::Pen(t, points, c, s) => {
                let mut points = points;
                points.push(pos);
                Action::Pen(t, points, c, s)
            },
            Action::Highlighter(t, points, c, s) => {
                let mut points = points;
                points.push(pos);
                Action::Highlighter(t, points, c, s)
            },
            Action::Rectangle(t, _, _, c, _, s) => Action::Rectangle(t, pos, pos, c, fill, s),
            Action::Circle(t, _, r, c, _, s) => Action::Circle(t, pos, r, c, fill, s),
            Action::Ellipse(t, _, _, c, _, s) => Action::Ellipse(t, pos, pos, c, fill, s),
            Action::Arrow(t, _, _, c, s) => Action::Arrow(t, pos, pos, c, s),
            Action::Text(t, _, text, c) => Action::Text(t, pos, text, c),
            Action::Crop(snapshot, _, _) => Action::Crop(snapshot, pos, pos),
        }
    }

    /// Extends the action to `pos` while the pointer is dragged.
    pub fn dragged_to(self, pos: Point) -> (action: Action)
        ensures
            action@ == self@.dragged_to(pos),
    {
        match self {
            Action::Pen(t, points, c, s) => {
                let mut points = points;
                points.push(pos);
                Action::Pen(t, points, c, s)
            },
            Action::Highlighter(t, points, c, s) => {
                let mut points = points;
                points.push(pos);
                Action::Highlighter(t, points, c, s)
            },
            Action::Rectangle(t, p, _, c, fill, s) => Action::Rectangle(t, p, pos, c, fill, s),
            Action::Circle(t, p, _, c, fill, s) => Action::Circle(
                t,
                p,
                distance(p, pos),
                c,
                fill,
                s,
            ),
            Action::Ellipse(t, p, _, c, fill, s) => Action::Ellipse(t, p, pos, c, fill, s),
            Action::Arrow(t, p, _, c, s) => Action::Arrow(t, p, pos, c, s),
            Action::Text(t, p, text, c) => Action::Text(t, p, text, c),
            Action::Crop(snapshot, p, _) => Action::Crop(snapshot, p, pos),
        }
    }

    /// Sets the end point or the radius one last time as the pointer is
    /// released at `pos`.
    pub fn released_at(self, pos: Point) -> (action: Action)
        ensures
            action@ == self@.released_at(pos),
    {
        match self {
            Action::Pen(t, points, c, s) => Action::Pen(t, points, c, s),
            Action::Highlighter(t, points, c, s) => Action::Highlighter(t, points, c, s),
            other => other.dragged_to(pos),
        }
    }

    /// Appends a character to text and puts the text under `transform`.
    pub fn typed(self, transform: Transform, ch: char) -> (action: Action)
        ensures
            action@ == self@.typed(transform, ch),
    {
        match self {
            Action::Text(_, p, text, c) => {
                let mut text = text;
                text.push(ch);
                Action::Text(transform, p, text, c)
            },
            other => other,
        }
    }

    /// Replaces the characters of text and puts the text under `transform`.
    pub fn pasted(self, transform: Transform, text: String) -> (action: Action)
        ensures
            action@ == self@.pasted(transform, text@),
    {
        match self {
            Action::Text(_, p, _, c) => Action::Text(transform, p, text, c),
            other => other,
        }
    }

    /// Moves text to `pos` and gives it a colour.
    pub fn anchored(self, pos: Point, color: Color) -> (action: Action)
        ensures
            action@ == self@.anchored(pos, color),
    {
        match self {
            Action::Text(t, _, text, _) => Action::Text(t, pos, text, color),
            other => other,
        }
    }

    /// Hands a crop rectangle the picture it cuts from.
    pub fn with_snapshot(self, snapshot: DynamicImage) -> (action: Action)
        ensures
            action@ == self@.with_snapshot(snapshot),
    {
        match self {
            Action::Crop(_, p, q) => Action::Crop(Some(snapshot), p, q),
            other => other,
        }
    }
}

} // verus!
