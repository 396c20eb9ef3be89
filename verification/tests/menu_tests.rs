use image::{DynamicImage, GenericImageView};
use screen_crab_tools::action::{Action, Selection};
use screen_crab_tools::color::Color;
use screen_crab_tools::geometry::{Point, Size};
use screen_crab_tools::menu::{Command, Transformation};
use screen_crab_tools::state::AppState;
use screen_crab_tools::transform::Transform;

fn scene() -> AppState {
    AppState::new(DynamicImage::new_rgba8(40, 20), String::from("shot.png"), Color::red())
}

#[test]
fn save_sets_the_flags() {
    let mut s = scene();
    s.apply(Command::Save);
    assert!(s.save);
    assert!(s.repaint);
}

#[test]
fn tools_are_selected() {
    let mut s = scene();
    for tool in [Selection::Highlighter, Selection::Arrow, Selection::Text, Selection::Pen] {
        s.apply(Command::SelectTool(tool));
        assert_eq!(s.selection, tool);
        assert!(s.is_checked(Command::SelectTool(tool)));
        assert!(!s.is_checked(Command::SelectTool(Selection::Circle)));
    }
    assert!(!s.crop);
}

#[test]
fn fill_toggles() {
    let mut s = scene();
    assert!(!s.is_checked(Command::ToggleFill));
    s.apply(Command::ToggleFill);
    assert!(s.fill_color);
    assert!(s.is_checked(Command::ToggleFill));
    s.apply(Command::ToggleFill);
    assert!(!s.fill_color);
}

#[test]
fn picker_is_armed() {
    let mut s = scene();
    s.apply(Command::PickColor);
    assert!(s.is_picking_color);
}

#[test]
fn palette_color_replaces_a_custom_one() {
    let mut s = scene();
    s.custom_color = true;
    s.apply(Command::SetColor(Color::aqua()));
    assert_eq!(s.color, Color::aqua());
    assert!(!s.custom_color);
    assert!(s.is_checked(Command::SetColor(Color::aqua())));
    assert!(!s.is_checked(Command::SetColor(Color::red())));
}

#[test]
fn stroke_is_set() {
    let mut s = scene();
    assert!(s.is_checked(Command::SetStroke(2)));
    s.apply(Command::SetStroke(5));
    assert_eq!(s.stroke, 5);
    assert!(s.is_checked(Command::SetStroke(5)));
    assert!(!s.is_checked(Command::SetStroke(2)));
}

#[test]
fn undo_and_redo_move_actions_and_ask_for_a_repaint() {
    let mut s = scene();
    s.history.record(Action::new(&Selection::Pen));
    s.history.record(Action::new(&Selection::Arrow));
    s.apply(Command::Undo);
    assert!(s.repaint);
    assert_eq!(s.history.undone, vec![Action::new(&Selection::Pen)]);
    assert_eq!(s.history.redone, vec![Action::new(&Selection::Arrow)]);
    s.repaint = false;
    s.apply(Command::Redo);
    assert!(s.repaint);
    assert_eq!(s.history.undone.len(), 2);
    assert!(s.history.redone.is_empty());
}

#[test]
fn undo_and_redo_are_enabled_by_their_stacks() {
    let mut s = scene();
    assert!(!s.is_enabled(Command::Undo));
    assert!(!s.is_enabled(Command::Redo));
    s.history.record(Action::new(&Selection::Pen));
    assert!(s.is_enabled(Command::Undo));
    assert!(!s.is_enabled(Command::Redo));
    s.undo();
    assert!(!s.is_enabled(Command::Undo));
    assert!(s.is_enabled(Command::Redo));
    s.redo();
    assert!(s.is_enabled(Command::Undo));
    assert!(s.is_enabled(Command::ToggleFill));
}

#[test]
fn labels_name_the_tool() {
    let mut s = scene();
    assert_eq!(s.undo_label(), "Undo");
    assert_eq!(s.redo_label(), "Redo");
    let names = [
        (Selection::Pen, "Pen"),
        (Selection::Highlighter, "Highlighter"),
        (Selection::Rectangle, "Rectangle"),
        (Selection::Circle, "Circle"),
        (Selection::Ellipse, "Ellipse"),
        (Selection::Arrow, "Arrow"),
        (Selection::Text, "Text"),
    ];
    for (tool, name) in names {
        s.history.record(Action::new(&tool));
        assert_eq!(s.undo_label(), format!("Undo {}", name));
        s.undo();
        assert_eq!(s.redo_label(), format!("Redo {}", name));
    }
    s.history.record(Action::new(&Selection::Crop));
    assert_eq!(s.undo_label(), "Undo");
    s.undo();
    assert_eq!(s.redo_label(), "Redo");
}

#[test]
fn crop_command_arms_the_crop_tool() {
    let mut s = scene();
    s.apply(Command::Crop);
    assert_eq!(s.selection, Selection::Crop);
    assert!(s.crop);
    assert!(s.repaint);
}

#[test]
fn commit_command_commits_the_newest_crop_rectangle() {
    let mut s = scene();
    s.history.record(Action::new(&Selection::Pen));
    s.history.record(Action::Crop(None, Point::new(10, 10), Point::new(30, 20)));
    s.crop = true;
    s.apply(Command::CommitCrop(Size { width: 80, height: 40 }));
    assert_eq!(s.image.dimensions(), (10, 5));
    assert!(s.history.undone.is_empty());
    assert!(!s.crop);
    assert!(s.repaint);
}

#[test]
fn commit_command_without_a_crop_rectangle_does_nothing() {
    let mut s = scene();
    s.history.record(Action::new(&Selection::Pen));
    s.apply(Command::CommitCrop(Size { width: 80, height: 40 }));
    assert_eq!(s.image.dimensions(), (40, 20));
    assert_eq!(s.history.undone.len(), 1);
    assert!(!s.repaint);
    let mut s = scene();
    s.apply(Command::CommitCrop(Size { width: 80, height: 40 }));
    assert_eq!(s.image.dimensions(), (40, 20));
    let mut s = scene();
    s.history.record(Action::Crop(None, Point::new(10, 10), Point::new(30, 20)));
    s.apply(Command::CommitCrop(Size { width: 0, height: 40 }));
    assert_eq!(s.history.undone.len(), 1);
    assert_eq!(s.image.dimensions(), (40, 20));
}

#[test]
fn flips_compose_onto_the_global_transform() {
    let mut s = scene();
    s.apply(Command::Transform(Transformation::FLIP_H));
    assert_eq!(s.affine, Transform::flip_x());
    assert!(s.repaint);
    s.apply(Command::Transform(Transformation::FLIP_V));
    assert_eq!(s.affine, Transform { a: -1, b: 0, c: 0, d: -1, e: 0, f: 0 });
    s.apply(Command::Transform(Transformation::FLIP_H));
    assert_eq!(s.affine, Transform::flip_y());
    s.apply(Command::Transform(Transformation::FLIP_V));
    assert_eq!(s.affine, Transform::identity());
    s.apply(Command::Transform(Transformation::IDENTITY));
    assert_eq!(s.affine, Transform::identity());
}

#[test]
fn turns_go_about_the_centre_of_the_image() {
    let mut s = scene();
    assert_eq!(s.center(), Point::new(20, 10));
    s.apply(Command::Transform(Transformation::ROTATE(1)));
    assert_eq!(s.affine, Transform::quarter_turn(Point::new(20, 10)));
    s.apply(Command::Transform(Transformation::ROTATE(-1)));
    assert_eq!(s.affine, Transform::identity());
    for _ in 0..4 {
        s.apply(Command::Transform(Transformation::ROTATE(1)));
    }
    assert_eq!(s.affine, Transform::identity());
}

#[test]
fn transformation_matrices() {
    let c = Point::new(20, 10);
    assert_eq!(Transformation::IDENTITY.to_transform(c), Transform::identity());
    assert_eq!(Transformation::FLIP_H.to_transform(c), Transform::flip_x());
    assert_eq!(Transformation::FLIP_V.to_transform(c), Transform::flip_y());
    assert_eq!(Transformation::ROTATE(0).to_transform(c), Transform::identity());
    assert_eq!(Transformation::ROTATE(1).to_transform(c), Transform::quarter_turn(c));
    assert_eq!(Transformation::ROTATE(2).to_transform(c), Transform::half_turn(c));
    assert_eq!(Transformation::ROTATE(3).to_transform(c), Transform::counter_quarter_turn(c));
    assert_eq!(Transformation::ROTATE(4).to_transform(c), Transform::identity());
    assert_eq!(Transformation::ROTATE(-1).to_transform(c), Transform::counter_quarter_turn(c));
    assert_eq!(Transformation::ROTATE(-2).to_transform(c), Transform::half_turn(c));
    assert_eq!(Transformation::ROTATE(-3).to_transform(c), Transform::quarter_turn(c));
    assert_eq!(Transformation::ROTATE(i32::MIN).to_transform(c), Transform::identity());
    assert_eq!(
        Transformation::ROTATE(i32::MAX).to_transform(c),
        Transform::counter_quarter_turn(c)
    );
}

#[test]
fn transform_that_overflows_is_ignored() {
    let mut s = scene();
    s.affine = Transform::translate(0, i64::MAX);
    s.apply(Command::Transform(Transformation::FLIP_V));
    assert_eq!(s.affine, Transform { a: 1, b: 0, c: 0, d: -1, e: 0, f: -i64::MAX });
    s.affine = Transform::translate(0, i64::MIN);
    s.repaint = false;
    s.apply(Command::Transform(Transformation::FLIP_V));
    assert_eq!(s.affine, Transform::translate(0, i64::MIN));
    assert!(s.repaint);
}

#[test]
fn save_is_disabled_while_the_canvas_lies_on_its_side() {
    let mut s = scene();
    assert!(s.is_enabled(Command::Save));
    s.apply(Command::Transform(Transformation::ROTATE(1)));
    assert!(!s.is_enabled(Command::Save));
    s.apply(Command::Transform(Transformation::FLIP_H));
    assert!(!s.is_enabled(Command::Save));
    s.apply(Command::Transform(Transformation::ROTATE(1)));
    assert!(s.is_enabled(Command::Save));
}
