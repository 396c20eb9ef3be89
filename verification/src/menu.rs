//! The commands that a menu sends to the engine, what each does to the
//! scene, and what the menu shows of the scene: labels, check marks and
//! which entries can be chosen.

use vstd::prelude::*;
use vstd::string::StringExecFns;
use image::DynamicImage;
use crate::action::{Action, ActionView, Selection};
use crate::color::Color;
use crate::geometry::{Point, Size};
use crate::raster::{image_extent, image_height, image_width, is_crop_of};
use crate::state::{crop_region, AppState, SceneView};
use crate::transform::{transform_of, Matrix, Transform};

verus! {

/// A change of the global transform, by name.
#[allow(non_camel_case_types)]
#[derive(Clone, Copy, Debug, PartialEq, Eq)]
pub enum Transformation {
    /// No change.
    IDENTITY,
    /// The vertical flip: top and bottom change places.
    FLIP_V,
    /// The horizontal flip: left and right change places.
    FLIP_H,
    /// As many clockwise quarter turns about the centre as the number says;
    /// a negative number turns counterclockwise.
    ROTATE(i32),
}

impl Transformation {
    /// The matrix of the change, for turns about `(cx, cy)`.
    pub open spec fn matrix(self, cx: int, cy: int) -> Matrix {
        match self {
            Transformation::IDENTITY => Matrix::identity(),
            Transformation::FLIP_V => Matrix::flip_y(),
            Transformation::FLIP_H => Matrix::flip_x(),
            Transformation::ROTATE(turns) => if turns as int % 4 == 0 {
                Matrix::identity()
            } else if turns as int % 4 == 1 {
                Matrix::quarter_turn(cx, cy)
            } else if turns as int % 4 == 2 {
                Matrix::half_turn(cx, cy)
            } else {
                Matrix::counter_quarter_turn(cx, cy)
            },
        }
    }

    /// The transform of the change, for turns about `center`.
    pub fn to_transform(&self, center: Point) -> (t: Transform)
        ensures
            t@ == self.matrix(center.x as int, center.y as int),
    {
        match self {
            Transformation::IDENTITY => Transform::identity(),
            Transformation::FLIP_V => Transform::flip_y(),
            Transformation::FLIP_H => Transform::flip_x(),
            Transformation::ROTATE(turns) => {
                let quarter: u64 = ((*turns as i64 + 0x1_0000_0000) as u64) % 4;
                assert(quarter == *turns as int % 4);
                if quarter == 0 {
                    Transform::identity()
                } else if quarter == 1 {
                    Transform::quarter_turn(center)
                } else if quarter == 2 {
                    Transform::half_turn(center)
                } else {
                    Transform::counter_quarter_turn(center)
                }
            },
        }
    }
}

/// What a menu entry asks of the engine.
#[derive(Clone, Copy, Debug, PartialEq, Eq)]
pub enum Command {
    /// Save the next painted frame.
    Save,
    /// Arm a drawing tool.
    SelectTool(Selection),
    /// Switch the filling of new shapes on or off.
    ToggleFill,
    /// Arm the colour picker.
    PickColor,
    /// Choose a colour from the palette.
    SetColor(Color),
    /// Choose a stroke width.
    SetStroke(u32),
    /// Take the newest action back.
    Undo,
    /// Draw the action taken back last again.
    Redo,
    /// Arm the crop tool.
    Crop,
    /// Commit the crop rectangle that is the newest action, for a view of
    /// the given size.
    CommitCrop(Size),
    /// Flip or turn the canvas.
    Transform(Transformation),
}

/// The name of a tool as menus show it.
pub open spec fn tool_name(tool: Selection) -> Seq<char> {
    match tool {
        Selection::Pen => "Pen"@,
        Selection::Highlighter => "Highlighter"@,
        Selection::Rectangle => "Rectangle"@,
        Selection::Circle => "Circle"@,
        Selection::Ellipse => "Ellipse"@,
        Selection::Arrow => "Arrow"@,
        Selection::Text => "Text"@,
        Selection::Crop => "Crop"@,
    }
}

/// The label of an undo or redo entry: the verb alone where nothing can be
/// undone or redone, or where that is a crop rectangle; otherwise the verb,
/// a space and the name of the tool that made the action.
pub open spec fn history_label(verb: Seq<char>, kind: Option<Selection>) -> Seq<char> {
    match kind {
        Some(tool) => if tool == Selection::Crop {
            verb
        } else {
            verb + " "@ + tool_name(tool)
        },
        None => verb,
    }
}

/// The name of [`tool_name`].
fn name_of(tool: Selection) -> (name: &'static str)
    ensures
        name@ == tool_name(tool),
{
    match tool {
        Selection::Pen => "Pen",
        Selection::Highlighter => "Highlighter",
        Selection::Rectangle => "Rectangle",
        Selection::Circle => "Circle",
        Selection::Ellipse => "Ellipse",
        Selection::Arrow => "Arrow",
        Selection::Text => "Text",
        Selection::Crop => "Crop",
    }
}

/// The label of [`history_label`].
fn label_for(verb: &str, kind: Option<Selection>) -> (label: String)
    ensures
        label@ == history_label(verb@, kind),
{
    let mut label = String::from_str(verb);
    match kind {
        Some(tool) => {
            if tool != Selection::Crop {
                label.append(" ");
                label.append(name_of(tool));
            }
        },
        None => {},
    }
    label
}

impl SceneView {
    /// The centre of the base image, about which the canvas turns.
    pub open spec fn center(self) -> Point {
        Point {
            x: (image_extent(self.image).0 / 2) as i32,
            y: (image_extent(self.image).1 / 2) as i32,
        }
    }

    /// The scene with the change applied after the global transform it
    /// had. Where the composition leaves the range of `i64`, the transform
    /// stays as it was.
    pub open spec fn transformed(self, change: Transformation) -> SceneView {
        let m = change.matrix(self.center().x as int, self.center().y as int).compose(self.affine@);
        if m.fits() {
            SceneView { affine: transform_of(m), repaint: true, ..self }
        } else {
            SceneView { repaint: true, ..self }
        }
    }

    /// Whether the command commits a crop: it asks to, the newest action
    /// is a crop rectangle, and the view is not empty.
    pub open spec fn command_commits(self, command: Command) -> bool {
        &&& command matches Command::CommitCrop(view)
        &&& view.width > 0
        &&& view.height > 0
        &&& self.history.can_undo()
        &&& self.top() is Crop
    }

    /// The base image after a command that commits a crop is the part of
    /// the crop rectangle's snapshot (of the old base image, where it has
    /// none) between the rectangle's corners.
    pub open spec fn command_image(self, command: Command, out: DynamicImage) -> bool
        recommends
            self.command_commits(command),
    {
        let source = match self.top()->Crop_0 {
            Some(picture) => picture,
            None => self.image,
        };
        let region = crop_region(
            image_extent(source),
            self.top()->Crop_1,
            self.top()->Crop_2,
            command->CommitCrop_0,
        );
        is_crop_of(out, source, region.0, region.1, region.2, region.3)
    }

    /// The scene after a command, but for the base image, which only a
    /// committed crop replaces.
    pub open spec fn after_command(self, command: Command) -> SceneView {
        match command {
            Command::Save => SceneView { save: true, repaint: true, ..self },
            Command::SelectTool(tool) => SceneView { selection: tool, ..self },
            Command::ToggleFill => SceneView { fill_color: !self.fill_color, ..self },
            Command::PickColor => SceneView { is_picking_color: true, ..self },
            Command::SetColor(color) => SceneView { color, custom_color: false, ..self },
            Command::SetStroke(stroke) => SceneView { stroke, ..self },
            Command::Undo => SceneView { history: self.history.undo(), repaint: true, ..self },
            Command::Redo => SceneView { history: self.history.redo(), repaint: true, ..self },
            Command::Crop => SceneView {
                selection: Selection::Crop,
                crop: true,
                repaint: true,
                ..self
            },
            Command::CommitCrop(_) => if self.command_commits(command) {
                SceneView { repaint: true, ..self.cropped() }
            } else {
                self
            },
            Command::Transform(change) => self.transformed(change),
        }
    }

    /// Whether the menu entry of the command can be chosen: saving not
    /// while the canvas lies on its side, undo and redo only where there is
    /// something to undo or redo, everything else always.
    pub open spec fn enables(self, command: Command) -> bool {
        match command {
            Command::Save => !self.affine@.swaps_axes(),
            Command::Undo => self.history.can_undo(),
            Command::Redo => self.history.can_redo(),
            _ => true,
        }
    }

    /// Whether the menu entry of the command carries a check mark: the
    /// armed tool, the filling while it is on, the current colour and the
    /// current stroke width do.
    pub open spec fn checks(self, command: Command) -> bool {
        match command {
            Command::SelectTool(tool) => self.selection == tool,
            Command::ToggleFill => self.fill_color,
            Command::SetColor(color) => self.color == color,
            Command::SetStroke(stroke) => self.stroke == stroke,
            _ => false,
        }
    }
}

impl AppState {
    /// The centre of the base image.
    pub fn center(&self) -> (c: Point)
        ensures
            c == self@.center(),
    {
        Point {
            x: (image_width(&self.image) / 2) as i32,
            y: (image_height(&self.image) / 2) as i32,
        }
    }

    /// Flips or turns the canvas.
    pub fn transform(&mut self, change: Transformation)
        ensures
            final(self)@ == old(self)@.transformed(change),
    {
        let op = change.to_transform(self.center());
        match op.compose(&self.affine) {
            Some(t) => {
                assert(t == transform_of(op@.compose(self.affine@)));
                self.affine = t;
            },
            None => {},
        }
        self.repaint = true;
    }

    /// Takes the newest action back and marks the scene as changed.
    pub fn undo(&mut self)
        ensures
            final(self)@ == (SceneView {
                history: old(self)@.history.undo(),
                repaint: true,
                ..old(self)@
            }),
    {
        self.history.undo();
        self.repaint = true;
    }

    /// Draws the action taken back last again and marks the scene as
    /// changed.
    pub fn redo(&mut self)
        ensures
            final(self)@ == (SceneView {
                history: old(self)@.history.redo(),
                repaint: true,
                ..old(self)@
            }),
    {
        self.history.redo();
        self.repaint = true;
    }

    /// Commits the crop rectangle that is the newest action.
    fn commit_newest(&mut self, view: Size)
        ensures
            final(self)@ == old(self)@.after_command(Command::CommitCrop(view)).with_image(
                final(self).image,
            ),
            old(self)@.command_commits(Command::CommitCrop(view)) ==> old(self)@.command_image(
                Command::CommitCrop(view),
                final(self).image,
            ),
            !old(self)@.command_commits(Command::CommitCrop(view)) ==> final(self).image == old(
                self,
            ).image,
    {
        if view.width > 0 && view.height > 0 {
            match self.history.take_top() {
                Some(Action::Crop(snapshot, start, end)) => {
                    self.commit_crop(snapshot, start, end, view);
                    self.repaint = true;
                },
                Some(other) => {
                    self.history.put_top(other);
                    assert(self@.history.undone =~= old(self)@.history.undone);
                },
                None => {},
            }
        }
    }

    /// Carries out a command that sets a flag or a style.
    fn apply_setting(&mut self, command: Command)
        requires
            !(command is Undo || command is Redo || command is CommitCrop
                || command is Transform),
        ensures
            final(self)@ == old(self)@.after_command(command),
    {
        match command {
            Command::Save => {
                self.save = true;
                self.repaint = true;
            },
            Command::SelectTool(tool) => {
                self.selection = tool;
            },
            Command::ToggleFill => {
                self.fill_color = !self.fill_color;
            },
            Command::PickColor => {
                self.is_picking_color = true;
            },
            Command::SetColor(color) => {
                self.color = color;
                self.custom_color = false;
            },
            Command::SetStroke(stroke) => {
                self.stroke = stroke;
            },
            Command::Crop => {
                self.selection = Selection::Crop;
                self.crop = true;
                self.repaint = true;
            },
            _ => {},
        }
    }

    /// Carries out a command. The scene changes as
    /// [`SceneView::after_command`] says; the base image changes only where
    /// the command commits a crop.
    pub fn apply(&mut self, command: Command)
        ensures
            final(self)@ == old(self)@.after_command(command).with_image(final(self).image),
            old(self)@.command_commits(command) ==> old(self)@.command_image(
                command,
                final(self).image,
            ),
            !old(self)@.command_commits(command) ==> final(self).image == old(self).image,
    {
        match command {
            Command::Undo => {
                self.undo();
            },
            Command::Redo => {
                self.redo();
            },
            Command::CommitCrop(view) => {
                self.commit_newest(view);
            },
            Command::Transform(change) => {
                self.transform(change);
            },
            _ => {
                self.apply_setting(command);
            },
        }
    }

    /// Whether the menu entry of the command can be chosen.
    pub fn is_enabled(&self, command: Command) -> (r: bool)
        ensures
            r == self@.enables(command),
    {
        match command {
            Command::Save => !self.affine.swaps_axes(),
            Command::Undo => self.history.can_undo(),
            Command::Redo => self.history.can_redo(),
            _ => true,
        }
    }

    /// Whether the menu entry of the command carries a check mark.
    pub fn is_checked(&self, command: Command) -> (r: bool)
        ensures
            r == self@.checks(command),
    {
        match command {
            Command::SelectTool(tool) => self.selection == tool,
            Command::ToggleFill => self.fill_color,
            Command::SetColor(color) => self.color == color,
            Command::SetStroke(stroke) => self.stroke == stroke,
            _ => false,
        }
    }

    /// The label of the undo entry, which names the tool of the action
    /// that would be taken back.
    pub fn undo_label(&self) -> (label: String)
        ensures
            label@ == history_label(
                "Undo"@,
                if self@.history.can_undo() {
                    Some(self@.top().kind())
                } else {
                    None
                },
            ),
    {
        label_for("Undo", self.history.undo_kind())
    }

    /// The label of the redo entry, which names the tool of the action
    /// that would be drawn again.
    pub fn redo_label(&self) -> (label: String)
        ensures
            label@ == history_label(
                "Redo"@,
                if self@.history.can_redo() {
                    Some(self@.history.redone.last().kind())
                } else {
                    None
                },
            ),
    {
        label_for("Redo", self.history.redo_kind())
    }
}

} // verus!
