//! The scene: the armed tool and style, the global transform, the base
//! image, the history and the flags of the interaction in progress.

use vstd::prelude::*;
use vstd::arithmetic::div_mod::{lemma_fundamental_div_mod, lemma_fundamental_div_mod_converse};
use image::DynamicImage;
use crate::action::{Action, ActionView, Selection, DEFAULT_STROKE};
use crate::color::Color;
use crate::geometry::{Point, Size};
use crate::history::{History, HistoryView};
use crate::raster::{
    clamped_region, image_crop, image_extent, image_height, image_pixel, image_pixels,
    image_width, is_crop_of,
};
use crate::transform::Transform;

verus! {

/// Command-line arguments of the tool: the picture to annotate.
#[derive(Clone, Debug, PartialEq, Eq)]
pub struct Args {
    /// Path of the image file to open and to save to.
    pub path: String,
}

/// Everything the engine knows about the picture being annotated.
#[derive(Debug, PartialEq)]
pub struct AppState {
    /// The global transform: the flips and turns applied to the whole canvas.
    pub affine: Transform,
    /// The armed tool.
    pub selection: Selection,
    /// The base image.
    pub image: DynamicImage,
    /// What was drawn and what was taken back.
    pub history: History,
    /// A pointer drag is extending the newest action.
    pub is_drawing: bool,
    /// Where the picture was loaded from and is saved to.
    pub image_path: String,
    /// The colour that new actions get.
    pub color: Color,
    /// The scene has changed since it was last painted.
    pub repaint: bool,
    /// The next pointer press samples a colour instead of drawing.
    pub is_picking_color: bool,
    /// The current colour was sampled, not chosen from the palette.
    pub custom_color: bool,
    /// New shapes are filled.
    pub fill_color: bool,
    /// The stroke width that new actions get, in pixels.
    pub stroke: u32,
    /// Key presses go to the newest text action.
    pub is_writing_text: bool,
    /// The next painted frame is to be saved.
    pub save: bool,
    /// A gesture has ended since the host last looked.
    pub update: bool,
    /// The crop tool is armed: releasing the pointer commits the crop.
    pub crop: bool,
}

/// What an [`AppState`] holds, with the history and the path as sequences.
pub struct SceneView {
    pub affine: Transform,
    pub selection: Selection,
    pub image: DynamicImage,
    pub history: HistoryView,
    pub is_drawing: bool,
    pub image_path: Seq<char>,
    pub color: Color,
    pub repaint: bool,
    pub is_picking_color: bool,
    pub custom_color: bool,
    pub fill_color: bool,
    pub stroke: u32,
    pub is_writing_text: bool,
    pub save: bool,
    pub update: bool,
    pub crop: bool,
}

impl View for AppState {
    type V = SceneView;

    open spec fn view(&self) -> SceneView {
        SceneView {
            affine: self.affine,
            selection: self.selection,
            image: self.image,
            history: self.history@,
            is_drawing: self.is_drawing,
            image_path: self.image_path@,
            color: self.color,
            repaint: self.repaint,
            is_picking_color: self.is_picking_color,
            custom_color: self.custom_color,
            fill_color: self.fill_color,
            stroke: self.stroke,
            is_writing_text: self.is_writing_text,
            save: self.save,
            update: self.update,
            crop: self.crop,
        }
    }
}

/// A view coordinate scaled to image pixels and rounded down:
/// `coord · image_dim / view_dim`.
pub open spec fn scale_floor(coord: int, image_dim: int, view_dim: int) -> int {
    (coord * image_dim) / view_dim
}

/// A view length scaled to image pixels and rounded up.
pub open spec fn scale_ceil(length: int, image_dim: int, view_dim: int) -> int {
    (length * image_dim + view_dim - 1) / view_dim
}

/// `v`, or the largest `u32` where `v` is larger.
pub open spec fn saturated(v: int) -> u32 {
    if v > u32::MAX {
        u32::MAX
    } else {
        v as u32
    }
}

/// A coordinate with everything left of or above the view moved onto its
/// edge.
pub open spec fn on_view(coord: int) -> int {
    if coord < 0 {
        0
    } else {
        coord
    }
}

/// The image pixel under the view position `pos`, where the view is not
/// empty and the position lies on the image.
pub open spec fn sample_position(pos: Point, extent: (u32, u32), view: Size) -> Option<(u32, u32)> {
    if view.width == 0 || view.height == 0 || pos.x < 0 || pos.y < 0 {
        None
    } else {
        let column = scale_floor(pos.x as int, extent.0 as int, view.width as int);
        let row = scale_floor(pos.y as int, extent.1 as int, view.height as int);
        if column < extent.0 && row < extent.1 {
            Some((column as u32, row as u32))
        } else {
            None
        }
    }
}

/// The rectangle, in pixels of an image of the given extent, that the crop
/// rectangle between two view positions selects: origin rounded down, size
/// rounded up, the corners taken in either order.
pub open spec fn crop_region(extent: (u32, u32), start: Point, end: Point, view: Size) -> (
    u32,
    u32,
    u32,
    u32,
) {
    let left = on_view(if start.x <= end.x { start.x as int } else { end.x as int });
    let right = on_view(if start.x <= end.x { end.x as int } else { start.x as int });
    let top = on_view(if start.y <= end.y { start.y as int } else { end.y as int });
    let bottom = on_view(if start.y <= end.y { end.y as int } else { start.y as int });
    (
        saturated(scale_floor(left, extent.0 as int, view.width as int)),
        saturated(scale_floor(top, extent.1 as int, view.height as int)),
        saturated(scale_ceil(right - left, extent.0 as int, view.width as int)),
        saturated(scale_ceil(bottom - top, extent.1 as int, view.height as int)),
    )
}

impl SceneView {
    /// The scene with another base image.
    pub open spec fn with_image(self, image: DynamicImage) -> SceneView {
        SceneView { image, ..self }
    }

    /// The scene with another history.
    pub open spec fn with_history(self, history: HistoryView) -> SceneView {
        SceneView { history, ..self }
    }

    /// The action that a pointer press would start now: blank, of the armed
    /// tool, with the current transform, colour and stroke width.
    pub open spec fn created(self, tool: Selection) -> ActionView {
        ActionView::blank(tool).stamped(self.affine, self.color, self.stroke)
    }

    /// The colour of the base image under the view position `pos`.
    pub open spec fn sampled(self, pos: Point, view: Size) -> Option<Color> {
        match sample_position(pos, image_extent(self.image), view) {
            Some((column, row)) => {
                let p = image_pixels(self.image)[(column as int, row as int)];
                Some(Color { r: p.0, g: p.1, b: p.2, a: p.3 })
            },
            None => None,
        }
    }

    /// The scene after a colour was picked at `pos`: the picker is
    /// disarmed, and where `pos` lies on the image the colour under it
    /// becomes the current, custom colour.
    pub open spec fn picked(self, pos: Point, view: Size) -> SceneView {
        match self.sampled(pos, view) {
            Some(color) => SceneView {
                color,
                custom_color: true,
                is_picking_color: false,
                ..self
            },
            None => SceneView { is_picking_color: false, ..self },
        }
    }

    /// The scene after a crop was committed, but for the base image: the
    /// history is empty and the crop tool disarmed.
    pub open spec fn cropped(self) -> SceneView {
        SceneView { history: HistoryView::empty(), crop: false, ..self }
    }
}

/// `coord · image_dim / view_dim`, rounded down.
fn scaled_down(coord: u32, image_dim: u32, view_dim: u32) -> (r: u64)
    requires
        view_dim > 0,
    ensures
        r == scale_floor(coord as int, image_dim as int, view_dim as int),
{
    assert(0 <= coord * image_dim <= 0xffff_ffff * 0xffff_ffff) by (nonlinear_arith)
        requires
            0 <= coord <= 0xffff_ffff,
            0 <= image_dim <= 0xffff_ffff,
    ;
    ((coord as u64) * (image_dim as u64)) / (view_dim as u64)
}

/// `length · image_dim / view_dim`, rounded up.
fn scaled_up(length: u32, image_dim: u32, view_dim: u32) -> (r: u64)
    requires
        view_dim > 0,
    ensures
        r == scale_ceil(length as int, image_dim as int, view_dim as int),
{
    assert(0 <= length * image_dim <= 0xffff_ffff * 0xffff_ffff) by (nonlinear_arith)
        requires
            0 <= length <= 0xffff_ffff,
            0 <= image_dim <= 0xffff_ffff,
    ;
    ((length as u64) * (image_dim as u64) + (view_dim as u64) - 1) / (view_dim as u64)
}

/// `v` as a `u32`, or the largest `u32`.
fn saturate(v: u64) -> (r: u32)
    ensures
        r == saturated(v as int),
{
    if v > u32::MAX as u64 {
        u32::MAX
    } else {
        v as u32
    }
}

/// A signed coordinate moved onto the view.
fn clamp_to_view(coord: i32) -> (r: u32)
    ensures
        r == on_view(coord as int),
{
    if coord < 0 {
        0
    } else {
        coord as u32
    }
}

impl AppState {
    /// The scene at start-up: the pen armed, nothing drawn, no transform,
    /// unfilled shapes and the default stroke width.
    pub fn new(image: DynamicImage, image_path: String, color: Color) -> (state: AppState)
        ensures
            state@ == (SceneView {
                affine: Transform { a: 1, b: 0, c: 0, d: 1, e: 0, f: 0 },
                selection: Selection::Pen,
                image,
                history: HistoryView::empty(),
                is_drawing: false,
                image_path: image_path@,
                color,
                repaint: false,
                is_picking_color: false,
                custom_color: false,
                fill_color: false,
                stroke: DEFAULT_STROKE,
                is_writing_text: false,
                save: false,
                update: false,
                crop: false,
            }),
    {
        AppState {
            affine: Transform::identity(),
            selection: Selection::Pen,
            image,
            history: History::new(),
            is_drawing: false,
            image_path,
            color,
            repaint: false,
            is_picking_color: false,
            custom_color: false,
            fill_color: false,
            stroke: DEFAULT_STROKE,
            is_writing_text: false,
            save: false,
            update: false,
            crop: false,
        }
    }

    /// The blank action of `tool`, with the scene's transform, colour and
    /// stroke width.
    pub fn create(&self, tool: Selection) -> (action: Action)
        ensures
            action@ == self@.created(tool),
    {
        Action::new(&tool).stamped(self.affine, self.color, self.stroke)
    }

    /// The pixel of the base image under the view position `pos`.
    pub fn sample(&self, pos: Point, view: Size) -> (color: Option<Color>)
        ensures
            color == self@.sampled(pos, view),
    {
        if view.width == 0 || view.height == 0 || pos.x < 0 || pos.y < 0 {
            return None;
        }
        let width = image_width(&self.image);
        let height = image_height(&self.image);
        let column = scaled_down(pos.x as u32, width, view.width);
        let row = scaled_down(pos.y as u32, height, view.height);
        if column < width as u64 && row < height as u64 {
            let p = image_pixel(&self.image, column as u32, row as u32);
            Some(Color::rgba8(p.0, p.1, p.2, p.3))
        } else {
            None
        }
    }

    /// Picks the colour under `pos` and disarms the picker.
    pub fn pick_color(&mut self, pos: Point, view: Size)
        ensures
            final(self)@ == old(self)@.picked(pos, view),
    {
        match self.sample(pos, view) {
            Some(color) => {
                self.color = color;
                self.custom_color = true;
            },
            None => {},
        }
        self.is_picking_color = false;
    }

    /// Commits a crop: the base image becomes the part of `snapshot` (of
    /// the base image itself, where there is none) that the rectangle
    /// between the view positions `start` and `end` selects, scaled by the
    /// extent of the picture that is cut; both stacks of the history are
    /// emptied and the crop tool is disarmed. The global transform stays as
    /// it is. With an empty view nothing can be selected, and nothing
    /// changes.
    pub fn commit_crop(
        &mut self,
        snapshot: Option<DynamicImage>,
        start: Point,
        end: Point,
        view: Size,
    )
        ensures
            view.width == 0 || view.height == 0 ==> final(self)@ == old(self)@,
            view.width > 0 && view.height > 0 ==> {
                let source = match snapshot {
                    Some(picture) => picture,
                    None => old(self).image,
                };
                let region = crop_region(image_extent(source), start, end, view);
                &&& final(self)@ == old(self)@.cropped().with_image(final(self).image)
                &&& is_crop_of(final(self).image, source, region.0, region.1, region.2, region.3)
            },
    {
        if view.width == 0 || view.height == 0 {
            return ;
        }
        let cut = match &snapshot {
            Some(picture) => crop_rectangle(picture, start, end, view),
            None => crop_rectangle(&self.image, start, end, view),
        };
        self.image = cut;
        self.history.clear();
        self.crop = false;
    }
}

/// The part of `source` that the rectangle between two view positions
/// selects.
fn crop_rectangle(source: &DynamicImage, start: Point, end: Point, view: Size) -> (out:
    DynamicImage)
    requires
        view.width > 0,
        view.height > 0,
    ensures
        ({
            let region = crop_region(image_extent(*source), start, end, view);
            is_crop_of(out, *source, region.0, region.1, region.2, region.3)
        }),
{
    let width = image_width(source);
    let height = image_height(source);
    let left = clamp_to_view(if start.x <= end.x { start.x } else { end.x });
    let right = clamp_to_view(if start.x <= end.x { end.x } else { start.x });
    let top = clamp_to_view(if start.y <= end.y { start.y } else { end.y });
    let bottom = clamp_to_view(if start.y <= end.y { end.y } else { start.y });
    let x = saturate(scaled_down(left, width, view.width));
    let y = saturate(scaled_down(top, height, view.height));
    let w = saturate(scaled_up(right - left, width, view.width));
    let h = saturate(scaled_up(bottom - top, height, view.height));
    image_crop(source, x, y, w, h)
}

/// Scaling the two ends of a span that lies on the view never leaves the
/// image: the origin rounded down and the length rounded up stay within
/// `image_dim` together.
pub proof fn lemma_scaled_span(low: int, high: int, image_dim: int, view_dim: int)
    requires
        0 <= low <= high <= view_dim,
        0 < view_dim,
        0 <= image_dim,
    ensures
        0 <= scale_floor(low, image_dim, view_dim),
        0 <= scale_ceil(high - low, image_dim, view_dim),
        scale_floor(low, image_dim, view_dim) + scale_ceil(high - low, image_dim, view_dim)
            <= image_dim,
{
    let a = low * image_dim;
    let b = (high - low) * image_dim + view_dim - 1;
    let x = a / view_dim;
    let w = b / view_dim;
    assert(0 <= a && view_dim - 1 <= b && a + b <= view_dim * image_dim + view_dim - 1)
        by (nonlinear_arith)
        requires
            0 <= low <= high <= view_dim,
            0 <= image_dim,
            a == low * image_dim,
            b == (high - low) * image_dim + view_dim - 1,
    ;
    lemma_fundamental_div_mod(a, view_dim);
    lemma_fundamental_div_mod(b, view_dim);
    assert(0 <= x && 0 <= w && x + w <= image_dim) by (nonlinear_arith)
        requires
            0 < view_dim,
            0 <= a,
            0 <= b,
            a + b <= view_dim * image_dim + view_dim - 1,
            a == view_dim * x + a % view_dim,
            b == view_dim * w + b % view_dim,
            0 <= a % view_dim < view_dim,
            0 <= b % view_dim < view_dim,
    ;
}

/// A crop rectangle that lies on the view selects a region that lies on
/// the image: nothing of it is clamped away, so the cut-out has exactly the
/// rectangle's scaled size.
pub proof fn lemma_crop_on_view(extent: (u32, u32), start: Point, end: Point, view: Size)
    requires
        view.width > 0,
        view.height > 0,
        0 <= start.x <= view.width,
        0 <= end.x <= view.width,
        0 <= start.y <= view.height,
        0 <= end.y <= view.height,
    ensures
        ({
            let region = crop_region(extent, start, end, view);
            let left = if start.x <= end.x { start.x } else { end.x };
            let right = if start.x <= end.x { end.x } else { start.x };
            let top = if start.y <= end.y { start.y } else { end.y };
            let bottom = if start.y <= end.y { end.y } else { start.y };
            &&& region.0 == scale_floor(left as int, extent.0 as int, view.width as int)
            &&& region.1 == scale_floor(top as int, extent.1 as int, view.height as int)
            &&& region.2 == scale_ceil(right - left, extent.0 as int, view.width as int)
            &&& region.3 == scale_ceil(bottom - top, extent.1 as int, view.height as int)
            &&& clamped_region(extent, region.0, region.1, region.2, region.3) == (
                region.0 as int,
                region.1 as int,
                region.2 as int,
                region.3 as int,
            )
        }),
{
    let left = if start.x <= end.x { start.x } else { end.x };
    let right = if start.x <= end.x { end.x } else { start.x };
    let top = if start.y <= end.y { start.y } else { end.y };
    let bottom = if start.y <= end.y { end.y } else { start.y };
    lemma_scaled_span(left as int, right as int, extent.0 as int, view.width as int);
    lemma_scaled_span(top as int, bottom as int, extent.1 as int, view.height as int);
}

/// A press in the middle of a view with even sides samples the middle of
/// the image: the pixel in column `width / 2` of row `height / 2`.
pub proof fn lemma_sample_center(extent: (u32, u32), view: Size)
    requires
        view.width > 0,
        view.height > 0,
        view.width % 2 == 0,
        view.height % 2 == 0,
        extent.0 > 0,
        extent.1 > 0,
    ensures
        sample_position(
            Point { x: (view.width / 2) as i32, y: (view.height / 2) as i32 },
            extent,
            view,
        ) == Some((extent.0 / 2, extent.1 / 2)),
{
    lemma_half_scales(view.width as int / 2, extent.0 as int);
    lemma_half_scales(view.height as int / 2, extent.1 as int);
}

/// Half of a length scales to half of the image: `h · n / (2 · h) = n / 2`.
proof fn lemma_half_scales(half: int, n: int)
    requires
        half > 0,
        n >= 0,
    ensures
        (half * n) / (2 * half) == n / 2,
{
    let q = n / 2;
    let r = n % 2;
    assert(half * n == (2 * half) * q + half * r) by (nonlinear_arith)
        requires
            n == 2 * q + r,
    ;
    assert(0 <= half * r < 2 * half) by (nonlinear_arith)
        requires
            half > 0,
            0 <= r < 2,
    ;
    lemma_fundamental_div_mod_converse(half * n, 2 * half, q, half * r);
}

} // verus!
