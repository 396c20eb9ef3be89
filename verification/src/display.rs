//! The display list: what a frame draws, in the order in which it draws it.
//! Later commands paint over earlier ones.

use vstd::prelude::*;
use crate::action::{Action, ActionView};
use crate::color::{Color, HIGHLIGHT_ALPHA};
use crate::geometry::{Point, Size};
use crate::painter::DrawingWidget;
use crate::state::{AppState, SceneView};
use crate::transform::{transform_of, Matrix, Transform};

verus! {

/// The size of text, in points.
pub const FONT_SIZE: u32 = 24;

/// The height of the window's title bar, in pixels.
pub const TITLE_BAR: u32 = 24;

/// One drawing step. Coordinates are view pixels before `transform`.
#[derive(Clone, Copy, Debug, PartialEq, Eq)]
pub enum DrawCommand {
    /// The base image, scaled to fill the view.
    Picture { transform: Transform, size: Size },
    /// The filled dot of a freehand stroke with a single point.
    Dot { transform: Transform, center: Point, diameter: u64, color: Color },
    /// A straight line.
    Segment { transform: Transform, from: Point, to: Point, color: Color, width: u64 },
    /// A filled rectangle between two corners.
    FillBox { transform: Transform, corner: Point, opposite: Point, color: Color },
    /// The outline of a rectangle between two corners.
    StrokeBox { transform: Transform, corner: Point, opposite: Point, color: Color, width: u64 },
    /// A filled circle.
    FillCircle { transform: Transform, center: Point, radius: u64, color: Color },
    /// The outline of a circle.
    StrokeCircle { transform: Transform, center: Point, radius: u64, color: Color, width: u64 },
    /// A filled ellipse inscribed in the rectangle between two corners.
    FillOval { transform: Transform, corner: Point, opposite: Point, color: Color },
    /// The outline of such an ellipse.
    StrokeOval { transform: Transform, corner: Point, opposite: Point, color: Color, width: u64 },
    /// The text of the drawn action with the given index, in the system
    /// font.
    Label { transform: Transform, anchor: Point, action: usize, color: Color, points: u32 },
    /// The translucent overlay and dashed border of a crop in progress.
    CropPreview { corner: Point, opposite: Point },
}

/// A flip is defined about the origin and would move the content off the
/// canvas. A transform that is exactly a flip is therefore followed up by
/// the shift that brings the content back: the horizontal flip maps `x` to
/// `width - x`, the vertical flip `y` to `height - y`, both together do
/// both. Any other transform is left as it is.
pub open spec fn compensated(t: Transform, size: Size) -> Transform {
    if t@ == Matrix::flip_x() {
        transform_of(Matrix { a: -1, b: 0, c: 0, d: 1, e: size.width as int, f: 0 })
    } else if t@ == Matrix::flip_y() {
        transform_of(Matrix { a: 1, b: 0, c: 0, d: -1, e: 0, f: size.height as int })
    } else if t@ == Matrix::flip_x().compose(Matrix::flip_y()) {
        transform_of(
            Matrix { a: -1, b: 0, c: 0, d: -1, e: size.width as int, f: size.height as int },
        )
    } else {
        t
    }
}

/// The transform that an action is drawn under: the global transform
/// composed with the one the action was stamped with, compensated for
/// flips. There is none where the composition leaves the range of `i64`.
pub open spec fn rendered(global: Transform, stamped: Transform, size: Size) -> Option<Transform> {
    let m = global@.compose(stamped@);
    if m.fits() {
        Some(compensated(transform_of(m), size))
    } else {
        None
    }
}

/// `v` moved into the range of `i32`.
pub open spec fn clamp_coord(v: int) -> i32 {
    if v < i32::MIN {
        i32::MIN
    } else if v > i32::MAX {
        i32::MAX
    } else {
        v as i32
    }
}

/// The two outer corners of the head of an arrow from `start` to `end`.
/// With `d = end - start`, the head's base lies at `end - d/10`, a tenth of
/// the arrow's length behind the tip, and the corners lie `d/40` to either
/// side of it at a right angle, a twentieth of the arrow's length apart.
/// Coordinates are rounded down to whole pixels.
pub open spec fn arrowhead(start: Point, end: Point) -> (Point, Point) {
    let dx = end.x - start.x;
    let dy = end.y - start.y;
    (
        Point {
            x: clamp_coord(end.x + (-4 * dx - dy) / 40),
            y: clamp_coord(end.y + (-4 * dy + dx) / 40),
        },
        Point {
            x: clamp_coord(end.x + (-4 * dx + dy) / 40),
            y: clamp_coord(end.y + (-4 * dy - dx) / 40),
        },
    )
}

/// A freehand stroke: nothing for no points, a dot for a single point,
/// and otherwise a line between each point and the next.
pub open spec fn stroke_commands(
    t: Transform,
    points: Seq<Point>,
    color: Color,
    dot: u64,
    width: u64,
) -> Seq<DrawCommand> {
    if points.len() == 0 {
        Seq::empty()
    } else if points.len() == 1 {
        seq![DrawCommand::Dot { transform: t, center: points[0], diameter: dot, color }]
    } else {
        Seq::new(
            (points.len() - 1) as nat,
            |k: int|
                DrawCommand::Segment {
                    transform: t,
                    from: points[k],
                    to: points[k + 1],
                    color,
                    width,
                },
        )
    }
}

/// An arrow: its shaft, then the two sides of its head.
pub open spec fn arrow_commands(t: Transform, start: Point, end: Point, color: Color, width: u64)
    -> Seq<DrawCommand> {
    let (left, right) = arrowhead(start, end);
    seq![
        DrawCommand::Segment { transform: t, from: start, to: end, color, width },
        DrawCommand::Segment { transform: t, from: left, to: end, color, width },
        DrawCommand::Segment { transform: t, from: right, to: end, color, width },
    ]
}

/// What the drawn action with the given index contributes to a frame,
/// under the transform `t` it is rendered with.
pub open spec fn shape_commands(t: Transform, action: ActionView, index: int) -> Seq<DrawCommand> {
    match action {
        ActionView::Pen(_, points, color, stroke) => stroke_commands(
            t,
            points,
            color,
            stroke as u64,
            stroke as u64,
        ),
        ActionView::Highlighter(_, points, color, stroke) => stroke_commands(
            t,
            points,
            color.with_alpha(HIGHLIGHT_ALPHA),
            (4 * stroke) as u64,
            (3 * stroke) as u64,
        ),
        ActionView::Rectangle(_, p, q, color, fill, stroke) => if fill {
            seq![DrawCommand::FillBox { transform: t, corner: p, opposite: q, color }]
        } else {
            seq![
                DrawCommand::StrokeBox {
                    transform: t,
                    corner: p,
                    opposite: q,
                    color,
                    width: stroke as u64,
                },
            ]
        },
        ActionView::Circle(_, center, radius, color, fill, stroke) => if fill {
            seq![DrawCommand::FillCircle { transform: t, center, radius, color }]
        } else {
            seq![
                DrawCommand::StrokeCircle {
                    transform: t,
                    center,
                    radius,
                    color,
                    width: stroke as u64,
                },
            ]
        },
        ActionView::Ellipse(_, p, q, color, fill, stroke) => if fill {
            seq![DrawCommand::FillOval { transform: t, corner: p, opposite: q, color }]
        } else {
            seq![
                DrawCommand::StrokeOval {
                    transform: t,
                    corner: p,
                    opposite: q,
                    color,
                    width: stroke as u64,
                },
            ]
        },
        ActionView::Arrow(_, p, q, color, stroke) => arrow_commands(t, p, q, color, stroke as u64),
        ActionView::Text(_, p, _, color) => seq![
            DrawCommand::Label {
                transform: t,
                anchor: p,
                action: index as usize,
                color,
                points: FONT_SIZE,
            },
        ],
        ActionView::Crop(..) => Seq::empty(),
    }
}

impl ActionView {
    /// The transform that the action was stamped with. A crop rectangle has
    /// none and counts as unmoved.
    pub open spec fn transform(self) -> Transform {
        match self {
            ActionView::Pen(t, ..) => t,
            ActionView::Highlighter(t, ..) => t,
            ActionView::Rectangle(t, ..) => t,
            ActionView::Circle(t, ..) => t,
            ActionView::Ellipse(t, ..) => t,
            ActionView::Arrow(t, ..) => t,
            ActionView::Text(t, ..) => t,
            ActionView::Crop(..) => Transform { a: 1, b: 0, c: 0, d: 1, e: 0, f: 0 },
        }
    }
}

/// What the drawn action with the given index contributes to a frame. A
/// crop rectangle shows its preview while the crop tool is armed, in view
/// coordinates. Every other action is drawn under its rendered transform,
/// and not at all where there is none.
pub open spec fn action_commands(
    global: Transform,
    action: ActionView,
    index: int,
    size: Size,
    armed: bool,
) -> Seq<DrawCommand> {
    match action {
        ActionView::Crop(_, p, q) => if armed {
            seq![DrawCommand::CropPreview { corner: p, opposite: q }]
        } else {
            Seq::empty()
        },
        _ => match rendered(global, action.transform(), size) {
            Some(t) => shape_commands(t, action, index),
            None => Seq::empty(),
        },
    }
}

impl SceneView {
    /// The frame up to, and without, the drawn action with index `n`: the
    /// base image, then the actions before `n`, oldest first.
    pub open spec fn display_upto(self, size: Size, n: int) -> Seq<DrawCommand>
        decreases n,
    {
        if n <= 0 {
            seq![DrawCommand::Picture { transform: compensated(self.affine, size), size }]
        } else {
            self.display_upto(size, n - 1) + action_commands(
                self.affine,
                self.history.undone[n - 1],
                n - 1,
                size,
                self.crop,
            )
        }
    }

    /// The whole frame: the base image, then every drawn action in the
    /// order in which the actions were made.
    pub open spec fn display_list(self, size: Size) -> Seq<DrawCommand> {
        self.display_upto(size, self.history.undone.len() as int)
    }
}

/// The compensation of [`compensated`].
fn compensate(t: Transform, size: Size) -> (r: Transform)
    ensures
        r == compensated(t, size),
{
    let w: i64 = size.width as i64;
    let h: i64 = size.height as i64;
    if t.b == 0 && t.c == 0 && t.e == 0 && t.f == 0 {
        if t.a == -1 && t.d == 1 {
            return Transform { a: -1, b: 0, c: 0, d: 1, e: w, f: 0 };
        }
        if t.a == 1 && t.d == -1 {
            return Transform { a: 1, b: 0, c: 0, d: -1, e: 0, f: h };
        }
        if t.a == -1 && t.d == -1 {
            return Transform { a: -1, b: 0, c: 0, d: -1, e: w, f: h };
        }
    }
    t
}

/// The transform of [`rendered`].
fn render_transform(global: &Transform, stamped: &Transform, size: Size) -> (r: Option<Transform>)
    ensures
        r == rendered(*global, *stamped, size),
{
    match global.compose(stamped) {
        Some(t) => {
            assert(t == transform_of(global@.compose(stamped@)));
            Some(compensate(t, size))
        },
        None => None,
    }
}

/// `v / 40`, rounded down.
fn fortieth(v: i64) -> (r: i64)
    requires
        -0x8_0000_0000 <= v <= 0x8_0000_0000,
    ensures
        r == v / 40,
{
    if v >= 0 {
        ((v as u64) / 40) as i64
    } else {
        let up: u64 = ((-v) as u64 + 39) / 40;
        -(up as i64)
    }
}

/// `v` moved into the range of `i32`.
fn clamp(v: i64) -> (r: i32)
    ensures
        r == clamp_coord(v as int),
{
    if v < i32::MIN as i64 {
        i32::MIN
    } else if v > i32::MAX as i64 {
        i32::MAX
    } else {
        v as i32
    }
}

/// The two outer corners of the head of an arrow from `start` to `end`.
pub fn calculate_arrowhead(start: Point, end: Point) -> (corners: (Point, Point))
    ensures
        corners == arrowhead(start, end),
{
    let dx: i64 = end.x as i64 - start.x as i64;
    let dy: i64 = end.y as i64 - start.y as i64;
    let ex: i64 = end.x as i64;
    let ey: i64 = end.y as i64;
    let back_x: i64 = 0 - 4 * dx;
    let back_y: i64 = 0 - 4 * dy;
    (
        Point { x: clamp(ex + fortieth(back_x - dy)), y: clamp(ey + fortieth(back_y + dx)) },
        Point { x: clamp(ex + fortieth(back_x + dy)), y: clamp(ey + fortieth(back_y - dx)) },
    )
}

/// Appends the commands of a freehand stroke.
fn append_stroke(
    out: &mut Vec<DrawCommand>,
    t: Transform,
    points: &Vec<Point>,
    color: Color,
    dot: u64,
    width: u64,
)
    ensures
        final(out)@ == old(out)@ + stroke_commands(t, points@, color, dot, width),
{
    let n = points.len();
    if n == 0 {
        assert(out@ =~= old(out)@ + stroke_commands(t, points@, color, dot, width));
        return ;
    }
    if n == 1 {
        out.push(DrawCommand::Dot { transform: t, center: points[0], diameter: dot, color });
        assert(out@ =~= old(out)@ + stroke_commands(t, points@, color, dot, width));
        return ;
    }
    let ghost all = stroke_commands(t, points@, color, dot, width);
    let mut k: usize = 0;
    while k < n - 1
        invariant
            n == points.len(),
            n >= 2,
            k <= n - 1,
            all == stroke_commands(t, points@, color, dot, width),
            out@ == old(out)@ + all.subrange(0, k as int),
        decreases n - 1 - k,
    {
        out.push(
            DrawCommand::Segment { transform: t, from: points[k], to: points[k + 1], color, width },
        );
        assert(out@ =~= old(out)@ + all.subrange(0, k as int + 1));
        k += 1;
    }
    assert(all.subrange(0, k as int) =~= all);
}

/// Appends what one drawn action contributes to a frame.
fn append_action(
    out: &mut Vec<DrawCommand>,
    global: &Transform,
    action: &Action,
    index: usize,
    size: Size,
    armed: bool,
)
    ensures
        final(out)@ == old(out)@ + action_commands(*global, action@, index as int, size, armed),
{
    let ghost added = action_commands(*global, action@, index as int, size, armed);
    match action {
        Action::Crop(_, p, q) => {
            if armed {
                out.push(DrawCommand::CropPreview { corner: *p, opposite: *q });
            }
        },
        Action::Pen(stamped, points, color, stroke) => {
            match render_transform(global, stamped, size) {
                Some(t) => {
                    append_stroke(out, t, points, *color, *stroke as u64, *stroke as u64);
                },
                None => {},
            }
        },
        Action::Highlighter(stamped, points, color, stroke) => {
            match render_transform(global, stamped, size) {
                Some(t) => {
                    append_stroke(
                        out,
                        t,
                        points,
                        color.with_alpha(HIGHLIGHT_ALPHA),
                        4 * (*stroke as u64),
                        3 * (*stroke as u64),
                    );
                },
                None => {},
            }
        },
        Action::Rectangle(stamped, p, q, color, fill, stroke) => {
            match render_transform(global, stamped, size) {
                Some(t) => {
                    if *fill {
                        out.push(
                            DrawCommand::FillBox {
                                transform: t,
                                corner: *p,
                                opposite: *q,
                                color: *color,
                            },
                        );
                    } else {
                        out.push(
                            DrawCommand::StrokeBox {
                                transform: t,
                                corner: *p,
                                opposite: *q,
                                color: *color,
                                width: *stroke as u64,
                            },
                        );
                    }
                },
                None => {},
            }
        },
        Action::Circle(stamped, center, radius, color, fill, stroke) => {
            match render_transform(global, stamped, size) {
                Some(t) => {
                    if *fill {
                        out.push(
                            DrawCommand::FillCircle {
                                transform: t,
                                center: *center,
                                radius: *radius,
                                color: *color,
                            },
                        );
                    } else {
                        out.push(
                            DrawCommand::StrokeCircle {
                                transform: t,
                                center: *center,
                                radius: *radius,
                                color: *color,
                                width: *stroke as u64,
                            },
                        );
                    }
                },
                None => {},
            }
        },
        Action::Ellipse(stamped, p, q, color, fill, stroke) => {
            match render_transform(global, stamped, size) {
                Some(t) => {
                    if *fill {
                        out.push(
                            DrawCommand::FillOval {
                                transform: t,
                                corner: *p,
                                opposite: *q,
                                color: *color,
                            },
                        );
                    } else {
                        out.push(
                            DrawCommand::StrokeOval {
                                transform: t,
                                corner: *p,
                                opposite: *q,
                                color: *color,
                                width: *stroke as u64,
                            },
                        );
                    }
                },
                None => {},
            }
        },
        Action::Arrow(stamped, p, q, color, stroke) => {
            match render_transform(global, stamped, size) {
                Some(t) => {
                    let (left, right) = calculate_arrowhead(*p, *q);
                    let width = *stroke as u64;
                    out.push(
                        DrawCommand::Segment { transform: t, from: *p, to: *q, color: *color, width },
                    );
                    out.push(
                        DrawCommand::Segment {
                            transform: t,
                            from: left,
                            to: *q,
                            color: *color,
                            width,
                        },
                    );
                    out.push(
                        DrawCommand::Segment {
                            transform: t,
                            from: right,
                            to: *q,
                            color: *color,
                            width,
                        },
                    );
                },
                None => {},
            }
        },
        Action::Text(stamped, p, _, color) => {
            match render_transform(global, stamped, size) {
                Some(t) => {
                    out.push(
                        DrawCommand::Label {
                            transform: t,
                            anchor: *p,
                            action: index,
                            color: *color,
                            points: FONT_SIZE,
                        },
                    );
                },
                None => {},
            }
        },
    }
    assert(out@ =~= old(out)@ + added);
}

impl DrawingWidget {
    /// The frame for a view of the given size: the base image, then every
    /// drawn action in the order in which the actions were made, so that a
    /// later action paints over an earlier one.
    pub fn paint(&mut self, data: &AppState, size: Size) -> (out: Vec<DrawCommand>)
        ensures
            out@ == data@.display_list(size),
    {
        let mut out: Vec<DrawCommand> = Vec::new();
        out.push(DrawCommand::Picture { transform: compensate(data.affine, size), size });
        assert(out@ =~= data@.display_upto(size, 0));
        let n = data.history.undone.len();
        let mut i: usize = 0;
        while i < n
            invariant
                i <= n,
                n == data.history.undone.len(),
                out@ == data@.display_upto(size, i as int),
            decreases n - i,
        {
            append_action(&mut out, &data.affine, &data.history.undone[i], i, size, data.crop);
            i += 1;
        }
        out
    }

    /// The size at which an image is shown on a monitor of the given width:
    /// the image's width is divided by `image.width / monitor_width + 1/2`,
    /// and the height follows in proportion. Both are rounded down.
    pub fn layout(&mut self, image: Size, monitor_width: u32) -> (window: Size)
        ensures
            window == layout_size(image, monitor_width),
    {
        if image.width == 0 {
            return Size { width: 0, height: 0 };
        }
        let iw: u128 = image.width as u128;
        let mw: u128 = monitor_width as u128;
        assert(0 <= iw * mw <= 0xffff_ffff * 0xffff_ffff) by (nonlinear_arith)
            requires
                0 <= iw <= 0xffff_ffff,
                0 <= mw <= 0xffff_ffff,
        ;
        let width: u128 = (2 * (iw * mw)) / (2 * iw + mw);
        assert(width <= mw) by (nonlinear_arith)
            requires
                width == (2 * (iw * mw)) / (2 * iw + mw),
                iw > 0,
                mw >= 0,
        ;
        assert(0 <= (image.height as u128) * width <= 0xffff_ffff * 0xffff_ffff)
            by (nonlinear_arith)
            requires
                0 <= image.height <= 0xffff_ffff,
                0 <= width <= 0xffff_ffff,
        ;
        let height: u128 = ((image.height as u128) * width) / iw;
        assert(2 * image.width * monitor_width == 2 * (iw * mw)) by (nonlinear_arith)
            requires
                iw == image.width,
                mw == monitor_width,
        ;
        Size {
            width: width as u32,
            height: if height > u32::MAX as u128 {
                u32::MAX
            } else {
                height as u32
            },
        }
    }

    /// The area of the screen to capture and write to the scene's path,
    /// where a save was asked for: the window without its title bar. The
    /// request is cleared.
    pub fn save_request(&mut self, data: &mut AppState, origin: Point, window: Size) -> (area:
        Option<(Point, Size)>)
        ensures
            final(data)@ == (SceneView { save: false, ..old(data)@ }),
            area == if old(data).save {
                Some(capture_area(origin, window))
            } else {
                None
            },
    {
        if !data.save {
            return None;
        }
        data.save = false;
        let y: i32 = if origin.y > i32::MAX - (TITLE_BAR as i32) {
            i32::MAX
        } else {
            origin.y + (TITLE_BAR as i32)
        };
        let height: u32 = if window.height < TITLE_BAR {
            0
        } else {
            window.height - TITLE_BAR
        };
        Some((Point { x: origin.x, y }, Size { width: window.width, height }))
    }
}

/// The size of [`DrawingWidget::layout`].
pub open spec fn layout_size(image: Size, monitor_width: u32) -> Size {
    if image.width == 0 {
        Size { width: 0, height: 0 }
    } else {
        let width = (2 * image.width * monitor_width) / (2 * image.width + monitor_width);
        let height = (image.height * width) / (image.width as int);
        Size {
            width: width as u32,
            height: if height > u32::MAX {
                u32::MAX
            } else {
                height as u32
            },
        }
    }
}

/// The window at `origin` without its title bar.
pub open spec fn capture_area(origin: Point, window: Size) -> (Point, Size) {
    (
        Point { x: origin.x, y: clamp_coord(origin.y + TITLE_BAR) },
        Size {
            width: window.width,
            height: if window.height < TITLE_BAR {
                0
            } else {
                (window.height - TITLE_BAR) as u32
            },
        },
    )
}

/// The frame grows action by action: the frame up to an earlier action is
/// the beginning of the frame up to a later one.
pub proof fn lemma_display_prefix(s: SceneView, size: Size, n: int, m: int)
    requires
        0 <= n <= m,
    ensures
        s.display_upto(size, n).len() <= s.display_upto(size, m).len(),
        s.display_upto(size, m).subrange(0, s.display_upto(size, n).len() as int)
            == s.display_upto(size, n),
    decreases m - n,
{
    if n < m {
        lemma_display_prefix(s, size, n, m - 1);
        let shorter = s.display_upto(size, m - 1);
        let longer = s.display_upto(size, m);
        let short = s.display_upto(size, n);
        assert(longer.subrange(0, short.len() as int) =~= shorter.subrange(0, short.len() as int));
    } else {
        assert(s.display_upto(size, m).subrange(0, s.display_upto(size, n).len() as int)
            =~= s.display_upto(size, n));
    }
}

/// Drawing order is creation order. The frame starts with the base image,
/// and of two drawn actions the commands of the older one come first: the
/// commands of the action with index `i` fill the positions from
/// `display_upto(i).len()` up to `display_upto(i + 1).len()`, and those of
/// a later action `j` start no earlier than where these end.
pub proof fn lemma_creation_order(s: SceneView, size: Size, i: int, j: int)
    requires
        0 <= i < j < s.history.undone.len(),
    ensures
        s.display_list(size)[0] == (DrawCommand::Picture {
            transform: compensated(s.affine, size),
            size,
        }),
        0 < s.display_upto(size, i).len() <= s.display_upto(size, i + 1).len()
            <= s.display_upto(size, j).len() <= s.display_upto(size, j + 1).len()
            <= s.display_list(size).len(),
        s.display_list(size).subrange(
            s.display_upto(size, i).len() as int,
            s.display_upto(size, i + 1).len() as int,
        ) == action_commands(s.affine, s.history.undone[i], i, size, s.crop),
        s.display_list(size).subrange(
            s.display_upto(size, j).len() as int,
            s.display_upto(size, j + 1).len() as int,
        ) == action_commands(s.affine, s.history.undone[j], j, size, s.crop),
{
    let len = s.history.undone.len() as int;
    let list = s.display_list(size);
    lemma_display_prefix(s, size, 0, i);
    lemma_display_prefix(s, size, i, i + 1);
    lemma_display_prefix(s, size, i + 1, j);
    lemma_display_prefix(s, size, j, j + 1);
    lemma_display_prefix(s, size, i + 1, len);
    lemma_display_prefix(s, size, j + 1, len);
    lemma_display_prefix(s, size, 0, len);
    assert(s.display_upto(size, 0).len() == 1);
    assert(list[0] == list.subrange(0, 1)[0]);
    let upto_i1 = s.display_upto(size, i + 1);
    let upto_j1 = s.display_upto(size, j + 1);
    assert(list.subrange(s.display_upto(size, i).len() as int, upto_i1.len() as int)
        =~= list.subrange(0, upto_i1.len() as int).subrange(
        s.display_upto(size, i).len() as int,
        upto_i1.len() as int,
    ));
    assert(upto_i1.subrange(s.display_upto(size, i).len() as int, upto_i1.len() as int)
        =~= action_commands(s.affine, s.history.undone[i], i, size, s.crop));
    assert(list.subrange(s.display_upto(size, j).len() as int, upto_j1.len() as int)
        =~= list.subrange(0, upto_j1.len() as int).subrange(
        s.display_upto(size, j).len() as int,
        upto_j1.len() as int,
    ));
    assert(upto_j1.subrange(s.display_upto(size, j).len() as int, upto_j1.len() as int)
        =~= action_commands(s.affine, s.history.undone[j], j, size, s.crop));
}

/// The head of an arrow scales with the arrow and with nothing else. For
/// an arrow along the x axis whose length is a multiple of 20, the head's
/// corners lie exactly a tenth of the length behind the tip and exactly a
/// twentieth of the length apart.
pub proof fn lemma_arrowhead_scales(length: int)
    requires
        0 <= length <= i32::MAX,
        length % 20 == 0,
    ensures
        ({
            let (left, right) = arrowhead(
                Point { x: 0, y: 0 },
                Point { x: length as i32, y: 0 },
            );
            &&& left.x == length - length / 10
            &&& right.x == length - length / 10
            &&& left.y - right.y == length / 20
        }),
{
}

/// The stroke width of an arrow does not move its head: two arrows between
/// the same points are drawn along the same three lines.
pub proof fn lemma_arrowhead_ignores_stroke(
    t: Transform,
    start: Point,
    end: Point,
    color: Color,
    thin: u64,
    thick: u64,
    k: int,
)
    requires
        0 <= k < 3,
    ensures
        arrow_commands(t, start, end, color, thin)[k]->Segment_from == arrow_commands(
            t,
            start,
            end,
            color,
            thick,
        )[k]->Segment_from,
        arrow_commands(t, start, end, color, thin)[k]->Segment_to == arrow_commands(
            t,
            start,
            end,
            color,
            thick,
        )[k]->Segment_to,
{
}

} // verus!
