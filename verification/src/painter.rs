//! The interaction state machine: what each pointer and key event does to
//! the scene, and what the host is asked to do in return.

use vstd::prelude::*;
use image::DynamicImage;
use crate::action::{Action, ActionView, Selection};
use crate::geometry::{Point, Size};
use crate::history::HistoryView;
use crate::raster::{image_extent, is_crop_of};
use crate::state::{crop_region, AppState, SceneView};

verus! {

/// A key press, as far as text entry tells keys apart.
#[derive(Clone, Copy, Debug, PartialEq, Eq)]
pub enum Key {
    /// Ends text entry.
    Enter,
    /// Types one character.
    Character(char),
    /// Any key that text entry ignores.
    Other,
}

/// What the host reports to the engine.
#[derive(Debug, PartialEq)]
pub enum Event {
    KeyDown(Key),
    /// The clipboard's text was pasted.
    Paste(String),
    /// The pointer was pressed at a view position.
    MouseDown(Point),
    /// The pointer moved to a view position.
    MouseMove(Point),
    /// The pointer was released at a view position.
    MouseUp(Point),
    /// The flattened picture that the engine asked for when a crop began.
    Snapshot(DynamicImage),
}

/// What an [`Event`] holds, with pasted text as a sequence.
pub enum EventView {
    KeyDown(Key),
    Paste(Seq<char>),
    MouseDown(Point),
    MouseMove(Point),
    MouseUp(Point),
    Snapshot(DynamicImage),
}

impl View for Event {
    type V = EventView;

    open spec fn view(&self) -> EventView {
        match *self {
            Event::KeyDown(key) => EventView::KeyDown(key),
            Event::Paste(text) => EventView::Paste(text@),
            Event::MouseDown(pos) => EventView::MouseDown(pos),
            Event::MouseMove(pos) => EventView::MouseMove(pos),
            Event::MouseUp(pos) => EventView::MouseUp(pos),
            Event::Snapshot(picture) => EventView::Snapshot(picture),
        }
    }
}

/// The state of the interaction, as the scene's flags encode it.
#[derive(Clone, Copy, Debug, PartialEq, Eq)]
pub enum Mode {
    /// Nothing is in progress.
    Idle,
    /// A drag is extending the newest action.
    Drawing,
    /// The next press samples a colour.
    PickingColor,
    /// Key presses go to the newest text action.
    WritingText,
    /// The crop tool is armed.
    Cropping,
}

/// The pointer shapes that the engine asks for.
#[derive(Clone, Copy, Debug, PartialEq, Eq)]
pub enum CursorKind {
    Arrow,
    Crosshair,
    Pointer,
}

/// What the host is to do after an event.
#[derive(Clone, Copy, Debug, PartialEq, Eq)]
pub struct Reaction {
    /// The pointer shape to show, where it changes.
    pub cursor: Option<CursorKind>,
    /// The scene is to be painted again.
    pub repaint: bool,
    /// A crop has begun: the host is to flatten what is on screen and hand
    /// it back as [`Event::Snapshot`].
    pub capture: bool,
}

impl SceneView {
    /// The state of the interaction. Where several flags are set, the
    /// colour picker goes before a drag, a drag before text entry, and text
    /// entry before the armed crop tool.
    pub open spec fn mode(self) -> Mode {
        if self.is_picking_color {
            Mode::PickingColor
        } else if self.is_drawing {
            Mode::Drawing
        } else if self.is_writing_text {
            Mode::WritingText
        } else if self.crop {
            Mode::Cropping
        } else {
            Mode::Idle
        }
    }

    /// The newest drawn action.
    pub open spec fn top(self) -> ActionView {
        self.history.undone.last()
    }

    /// The scene with its newest drawn action replaced.
    pub open spec fn amended(self, action: ActionView) -> SceneView {
        self.with_history(self.history.amend(action))
    }

    /// A key press. Outside text entry it does nothing. Inside, Enter ends
    /// the entry and a character is appended to the newest action if that
    /// is text.
    pub open spec fn after_key(self, key: Key) -> SceneView {
        if !self.is_writing_text {
            self
        } else {
            match key {
                Key::Enter => SceneView { is_writing_text: false, ..self },
                Key::Character(ch) => if self.history.can_undo() {
                    self.amended(self.top().typed(self.affine, ch))
                } else {
                    self
                },
                Key::Other => self,
            }
        }
    }

    /// A paste. Inside text entry it replaces the characters of the newest
    /// action if that is text.
    pub open spec fn after_paste(self, text: Seq<char>) -> SceneView {
        if self.is_writing_text && self.history.can_undo() {
            self.amended(self.top().pasted(self.affine, text))
        } else {
            self
        }
    }

    /// Whether a pointer press starts a new action: not while the colour
    /// picker is armed, and not with the text tool during text entry.
    pub open spec fn press_draws(self) -> bool {
        !self.is_picking_color && !(self.selection == Selection::Text && self.is_writing_text)
    }

    /// A pointer press. With the colour picker armed it picks a colour.
    /// Otherwise, unless it falls into a running text entry, it records a
    /// new action of the armed tool at `pos` and starts the drag.
    pub open spec fn after_press(self, pos: Point, view: Size) -> SceneView {
        if self.is_picking_color {
            self.picked(pos, view)
        } else if !self.press_draws() {
            self
        } else {
            SceneView {
                history: self.history.record(
                    self.created(self.selection).placed_at(pos, self.fill_color),
                ),
                is_drawing: true,
                ..self
            }
        }
    }

    /// Whether pointer moves and releases reach the newest action: a drag
    /// is running, the colour picker is not armed, and something is drawn.
    pub open spec fn drag_active(self) -> bool {
        !self.is_picking_color && self.is_drawing && self.history.can_undo()
    }

    /// A pointer move. During a drag it extends the newest action.
    pub open spec fn after_move(self, pos: Point) -> SceneView {
        if self.drag_active() {
            self.amended(self.top().dragged_to(pos))
        } else {
            self
        }
    }

    /// Whether releasing the pointer now commits a crop: the drag is on a
    /// crop rectangle, the crop tool is armed and the view is not empty.
    pub open spec fn release_commits(self, view: Size) -> bool {
        &&& self.drag_active()
        &&& self.top() is Crop
        &&& self.crop
        &&& view.width > 0
        &&& view.height > 0
    }

    /// What releasing the pointer does to the newest action and the flags
    /// that depend on it, during a drag with something drawn.
    pub open spec fn settled(self, pos: Point, view: Size) -> SceneView {
        match self.top() {
            ActionView::Text(..) => if self.is_writing_text {
                self
            } else {
                SceneView {
                    is_writing_text: true,
                    ..self.amended(self.top().anchored(pos, self.color))
                }
            },
            _ => if self.release_commits(view) {
                self.cropped()
            } else {
                self.amended(self.top().released_at(pos))
            },
        }
    }

    /// A pointer release, but for the base image. It ends a drag: the
    /// newest action gets its last end point or radius, text entry starts on
    /// a text action unless one is running, and an armed crop is committed.
    /// Outside a drag, or with the colour picker armed, it does nothing.
    pub open spec fn after_release(self, pos: Point, view: Size) -> SceneView {
        if self.is_picking_color || !self.is_drawing {
            self
        } else {
            let settled = if self.history.can_undo() {
                self.settled(pos, view)
            } else {
                self
            };
            SceneView { is_drawing: false, update: true, repaint: true, ..settled }
        }
    }

    /// The flattened picture arrives: the newest action takes it if that is
    /// a crop rectangle.
    pub open spec fn after_snapshot(self, picture: DynamicImage) -> SceneView {
        if self.history.can_undo() {
            self.amended(self.top().with_snapshot(picture))
        } else {
            self
        }
    }

    /// The scene after an event, but for the base image, which only a
    /// committed crop replaces.
    pub open spec fn after_event(self, event: EventView, view: Size) -> SceneView {
        match event {
            EventView::KeyDown(key) => self.after_key(key),
            EventView::Paste(text) => self.after_paste(text),
            EventView::MouseDown(pos) => self.after_press(pos, view),
            EventView::MouseMove(pos) => self.after_move(pos),
            EventView::MouseUp(pos) => self.after_release(pos, view),
            EventView::Snapshot(picture) => self.after_snapshot(picture),
        }
    }

    /// Whether the event commits a crop.
    pub open spec fn event_commits(self, event: EventView, view: Size) -> bool {
        event is MouseUp && self.release_commits(view)
    }

    /// The base image after an event that commits a crop is the part of the
    /// crop rectangle's snapshot (of the old base image, where it has none)
    /// between the rectangle's start and the release position.
    pub open spec fn committed_image(self, event: EventView, view: Size, out: DynamicImage) -> bool
        recommends
            self.event_commits(event, view),
    {
        let source = match self.top()->Crop_0 {
            Some(picture) => picture,
            None => self.image,
        };
        let region = crop_region(
            image_extent(source),
            self.top()->Crop_1,
            event->MouseUp_0,
            view,
        );
        is_crop_of(out, source, region.0, region.1, region.2, region.3)
    }

    /// What the host is asked to do after an event.
    pub open spec fn reaction_to(self, event: EventView) -> Reaction {
        match event {
            EventView::KeyDown(_) => Reaction { cursor: None, repaint: false, capture: false },
            EventView::Paste(_) => Reaction { cursor: None, repaint: false, capture: false },
            EventView::Snapshot(_) => Reaction { cursor: None, repaint: false, capture: false },
            EventView::MouseDown(_) => if self.is_picking_color {
                Reaction { cursor: Some(CursorKind::Arrow), repaint: false, capture: false }
            } else if !self.press_draws() {
                Reaction { cursor: Some(CursorKind::Crosshair), repaint: false, capture: false }
            } else {
                Reaction {
                    cursor: Some(CursorKind::Crosshair),
                    repaint: true,
                    capture: self.selection == Selection::Crop,
                }
            },
            EventView::MouseMove(_) => if self.is_picking_color {
                Reaction { cursor: Some(CursorKind::Pointer), repaint: false, capture: false }
            } else {
                Reaction {
                    cursor: Some(CursorKind::Crosshair),
                    repaint: self.is_drawing,
                    capture: false,
                }
            },
            EventView::MouseUp(_) => if self.is_picking_color {
                Reaction { cursor: Some(CursorKind::Pointer), repaint: false, capture: false }
            } else {
                Reaction {
                    cursor: Some(CursorKind::Arrow),
                    repaint: self.is_drawing,
                    capture: false,
                }
            },
        }
    }
}

/// The widget that turns the host's events into changes of the scene and
/// the scene into a display list.
pub struct DrawingWidget;

impl AppState {
    /// The state of the interaction.
    pub fn mode(&self) -> (mode: Mode)
        ensures
            mode == self@.mode(),
    {
        if self.is_picking_color {
            Mode::PickingColor
        } else if self.is_drawing {
            Mode::Drawing
        } else if self.is_writing_text {
            Mode::WritingText
        } else if self.crop {
            Mode::Cropping
        } else {
            Mode::Idle
        }
    }

    /// Replaces the newest drawn action.
    fn put_amended(&mut self, action: Action)
        ensures
            final(self)@ == old(self)@.with_history(
                HistoryView {
                    undone: old(self)@.history.undone.push(action@),
                    redone: old(self)@.history.redone,
                },
            ),
    {
        self.history.put_top(action);
    }

    /// Handles a key press.
    pub fn key_down(&mut self, key: Key)
        ensures
            final(self)@ == old(self)@.after_key(key),
    {
        if !self.is_writing_text {
            return ;
        }
        match key {
            Key::Enter => {
                self.is_writing_text = false;
            },
            Key::Character(ch) => {
                let transform = self.affine;
                match self.history.take_top() {
                    Some(top) => {
                        self.put_amended(top.typed(transform, ch));
                    },
                    None => {},
                }
            },
            Key::Other => {},
        }
    }

    /// Handles a paste.
    pub fn paste(&mut self, text: String)
        ensures
            final(self)@ == old(self)@.after_paste(text@),
    {
        if !self.is_writing_text {
            return ;
        }
        let transform = self.affine;
        match self.history.take_top() {
            Some(top) => {
                self.put_amended(top.pasted(transform, text));
            },
            None => {},
        }
    }

    /// Handles a pointer press.
    pub fn mouse_down(&mut self, pos: Point, view: Size)
        ensures
            final(self)@ == old(self)@.after_press(pos, view),
    {
        if self.is_picking_color {
            self.pick_color(pos, view);
            return ;
        }
        if self.selection == Selection::Text && self.is_writing_text {
            return ;
        }
        let action = self.create(self.selection).placed_at(pos, self.fill_color);
        self.history.record(action);
        self.is_drawing = true;
    }

    /// Handles a pointer move.
    pub fn mouse_move(&mut self, pos: Point)
        ensures
            final(self)@ == old(self)@.after_move(pos),
    {
        if self.is_picking_color || !self.is_drawing {
            return ;
        }
        match self.history.take_top() {
            Some(top) => {
                self.put_amended(top.dragged_to(pos));
            },
            None => {},
        }
    }

    /// Handles a pointer release.
    pub fn mouse_up(&mut self, pos: Point, view: Size)
        ensures
            final(self)@ == old(self)@.after_release(pos, view).with_image(final(self).image),
            old(self)@.release_commits(view) ==> old(self)@.committed_image(
                EventView::MouseUp(pos),
                view,
                final(self).image,
            ),
            !old(self)@.release_commits(view) ==> final(self).image == old(self).image,
    {
        if self.is_picking_color || !self.is_drawing {
            return ;
        }
        let armed = self.crop && view.width > 0 && view.height > 0;
        match self.history.take_top() {
            Some(Action::Text(t, p, text, c)) => {
                if self.is_writing_text {
                    self.put_amended(Action::Text(t, p, text, c));
                    assert(self@.history.undone =~= old(self)@.history.undone);
                } else {
                    let color = self.color;
                    self.put_amended(Action::Text(t, p, text, c).anchored(pos, color));
                    self.is_writing_text = true;
                }
            },
            Some(Action::Crop(snapshot, start, end)) => {
                if armed {
                    self.commit_crop(snapshot, start, pos, view);
                } else {
                    self.put_amended(Action::Crop(snapshot, start, end).released_at(pos));
                }
            },
            Some(top) => {
                self.put_amended(top.released_at(pos));
            },
            None => {},
        }
        self.is_drawing = false;
        self.update = true;
        self.repaint = true;
    }

    /// Takes the flattened picture that a crop cuts from.
    pub fn snapshot(&mut self, picture: DynamicImage)
        ensures
            final(self)@ == old(self)@.after_snapshot(picture),
    {
        match self.history.take_top() {
            Some(top) => {
                self.put_amended(top.with_snapshot(picture));
            },
            None => {},
        }
    }
}

impl DrawingWidget {
    /// Applies an event to the scene and says what the host is to do. The
    /// scene changes as [`SceneView::after_event`] says; the base image
    /// changes only where the event commits a crop.
    pub fn event(&mut self, event: Event, data: &mut AppState, view: Size) -> (reaction: Reaction)
        ensures
            final(data)@ == old(data)@.after_event(event@, view).with_image(final(data).image),
            old(data)@.event_commits(event@, view) ==> old(data)@.committed_image(
                event@,
                view,
                final(data).image,
            ),
            !old(data)@.event_commits(event@, view) ==> final(data).image == old(data).image,
            reaction == old(data)@.reaction_to(event@),
    {
        let picking = data.is_picking_color;
        let drawing = data.is_drawing;
        match event {
            Event::KeyDown(key) => {
                data.key_down(key);
                Reaction { cursor: None, repaint: false, capture: false }
            },
            Event::Paste(text) => {
                data.paste(text);
                Reaction { cursor: None, repaint: false, capture: false }
            },
            Event::Snapshot(picture) => {
                data.snapshot(picture);
                Reaction { cursor: None, repaint: false, capture: false }
            },
            Event::MouseDown(pos) => {
                let draws = !picking && !(data.selection == Selection::Text
                    && data.is_writing_text);
                let capture = data.selection == Selection::Crop;
                data.mouse_down(pos, view);
                if picking {
                    Reaction { cursor: Some(CursorKind::Arrow), repaint: false, capture: false }
                } else if !draws {
                    Reaction {
                        cursor: Some(CursorKind::Crosshair),
                        repaint: false,
                        capture: false,
                    }
                } else {
                    Reaction { cursor: Some(CursorKind::Crosshair), repaint: true, capture }
                }
            },
            Event::MouseMove(pos) => {
                data.mouse_move(pos);
                if picking {
                    Reaction { cursor: Some(CursorKind::Pointer), repaint: false, capture: false }
                } else {
                    Reaction {
                        cursor: Some(CursorKind::Crosshair),
                        repaint: drawing,
                        capture: false,
                    }
                }
            },
            Event::MouseUp(pos) => {
                data.mouse_up(pos, view);
                if picking {
                    Reaction { cursor: Some(CursorKind::Pointer), repaint: false, capture: false }
                } else {
                    Reaction { cursor: Some(CursorKind::Arrow), repaint: drawing, capture: false }
                }
            },
        }
    }

    /// Whether the host is to paint again after the scene changed: it is,
    /// where the scene is marked as changed.
    pub fn update(&mut self, data: &AppState) -> (repaint: bool)
        ensures
            repaint == data.repaint,
    {
        data.repaint
    }
}

/// One drag of the pointer: a press, a move and a release.
#[derive(Clone, Copy, Debug, PartialEq, Eq)]
pub struct Gesture {
    pub down: Point,
    pub via: Point,
    pub up: Point,
}

impl SceneView {
    /// The scene after a press, a move and a release.
    pub open spec fn after_gesture(self, gesture: Gesture, view: Size) -> SceneView {
        self.after_press(gesture.down, view).after_move(gesture.via).after_release(
            gesture.up,
            view,
        )
    }

    /// The scene after a sequence of gestures, the first one first.
    pub open spec fn after_gestures(self, gestures: Seq<Gesture>, view: Size) -> SceneView
        decreases gestures.len(),
    {
        if gestures.len() == 0 {
            self
        } else {
            self.after_gestures(gestures.drop_last(), view).after_gesture(gestures.last(), view)
        }
    }

    /// Whether each of `count` gestures in a row leaves one action behind.
    /// That fails while the colour picker is armed, which takes the press;
    /// with an armed crop tool on a view that is not empty, which commits and
    /// empties the history; and with the text tool from the second gesture
    /// on, or during text entry, because text entry takes no new press.
    pub open spec fn gestures_draw(self, count: nat, view: Size) -> bool {
        count == 0 || {
            &&& !self.is_picking_color
            &&& !(self.selection == Selection::Crop && self.crop && view.width > 0 && view.height
                > 0)
            &&& (self.selection == Selection::Text ==> !self.is_writing_text && count <= 1)
        }
    }
}

/// A gesture that draws leaves exactly one more action on the undo stack
/// and nothing on the redo stack, and ends the drag.
pub proof fn lemma_gesture_records(s: SceneView, gesture: Gesture, view: Size)
    requires
        s.gestures_draw(1, view),
    ensures
        s.after_gesture(gesture, view).history.undone.len() == s.history.undone.len() + 1,
        s.after_gesture(gesture, view).history.redone.len() == 0,
        s.after_gesture(gesture, view).history.undone.last().kind() == s.selection,
        !s.after_gesture(gesture, view).is_drawing,
        s.after_gesture(gesture, view).is_picking_color == s.is_picking_color,
        s.after_gesture(gesture, view).selection == s.selection,
        s.after_gesture(gesture, view).crop == s.crop,
        s.after_gesture(gesture, view).image == s.image,
        s.selection != Selection::Text ==> s.after_gesture(gesture, view).is_writing_text
            == s.is_writing_text,
{
    let pressed = s.after_press(gesture.down, view);
    let started = s.created(s.selection).placed_at(gesture.down, s.fill_color);
    assert(started.kind() == s.selection);
    assert(pressed.history.undone.last() == started);
    let moved = pressed.after_move(gesture.via);
    let extended = started.dragged_to(gesture.via);
    assert(extended.kind() == s.selection);
    assert(moved.history.undone.last() == extended);
    assert(moved.history.undone.len() == s.history.undone.len() + 1);
    assert(extended.released_at(gesture.up).kind() == s.selection);
    assert(extended.anchored(gesture.up, moved.color).kind() == s.selection);
}

/// Any number of gestures that draw leave as many new actions on the undo
/// stack as there were gestures, and, where there was one at all, nothing
/// on the redo stack.
pub proof fn lemma_gestures_record(s: SceneView, gestures: Seq<Gesture>, view: Size)
    requires
        s.gestures_draw(gestures.len(), view),
    ensures
        s.after_gestures(gestures, view).history.undone.len() == s.history.undone.len()
            + gestures.len(),
        gestures.len() > 0 ==> s.after_gestures(gestures, view).history.redone.len() == 0,
        s.after_gestures(gestures, view).is_picking_color == s.is_picking_color,
        s.after_gestures(gestures, view).selection == s.selection,
        s.after_gestures(gestures, view).crop == s.crop,
        s.after_gestures(gestures, view).image == s.image,
        s.selection != Selection::Text ==> s.after_gestures(gestures, view).is_writing_text
            == s.is_writing_text,
    decreases gestures.len(),
{
    if gestures.len() > 0 {
        let before = s.after_gestures(gestures.drop_last(), view);
        lemma_gestures_record(s, gestures.drop_last(), view);
        lemma_gesture_records(before, gestures.last(), view);
    }
}

} // verus!
