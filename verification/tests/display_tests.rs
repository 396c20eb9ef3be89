use image::DynamicImage;
use screen_crab_tools::action::{Action, Selection};
use screen_crab_tools::color::{Color, HIGHLIGHT_ALPHA};
use screen_crab_tools::display::{calculate_arrowhead, DrawCommand, FONT_SIZE, TITLE_BAR};
use screen_crab_tools::geometry::{Point, Size};
use screen_crab_tools::painter::DrawingWidget;
use screen_crab_tools::state::AppState;
use screen_crab_tools::transform::Transform;

const VIEW: Size = Size { width: 200, height: 100 };

fn scene() -> AppState {
    AppState::new(DynamicImage::new_rgba8(8, 8), String::from("shot.png"), Color::red())
}

fn id() -> Transform {
    Transform::identity()
}

fn paint(data: &AppState) -> Vec<DrawCommand> {
    DrawingWidget.paint(data, VIEW)
}

fn picture_command(transform: Transform) -> DrawCommand {
    DrawCommand::Picture { transform, size: VIEW }
}

#[test]
fn empty_scene_draws_only_the_picture() {
    assert_eq!(paint(&scene()), vec![picture_command(id())]);
    assert_eq!(FONT_SIZE, 24);
    assert_eq!(TITLE_BAR, 24);
    assert_eq!(HIGHLIGHT_ALPHA, 64);
}

#[test]
fn later_actions_are_drawn_over_earlier_ones() {
    let mut s = scene();
    let rect = Action::Rectangle(
        id(),
        Point::new(0, 0),
        Point::new(50, 50),
        Color::blue(),
        true,
        2,
    );
    let circle = Action::Circle(id(), Point::new(25, 25), 20, Color::green(), true, 2);
    s.history.record(rect);
    s.history.record(circle);
    assert_eq!(
        paint(&s),
        vec![
            picture_command(id()),
            DrawCommand::FillBox {
                transform: id(),
                corner: Point::new(0, 0),
                opposite: Point::new(50, 50),
                color: Color::blue(),
            },
            DrawCommand::FillCircle {
                transform: id(),
                center: Point::new(25, 25),
                radius: 20,
                color: Color::green(),
            },
        ]
    );
}

#[test]
fn undone_actions_are_not_drawn() {
    let mut s = scene();
    s.history.record(Action::Circle(id(), Point::new(25, 25), 20, Color::green(), true, 2));
    s.history.undo();
    assert_eq!(paint(&s), vec![picture_command(id())]);
}

#[test]
fn pen_with_one_point_is_a_dot() {
    let mut s = scene();
    s.history.record(Action::Pen(id(), vec![Point::new(5, 6)], Color::red(), 3));
    assert_eq!(
        paint(&s)[1..],
        [DrawCommand::Dot {
            transform: id(),
            center: Point::new(5, 6),
            diameter: 3,
            color: Color::red(),
        }]
    );
}

#[test]
fn pen_without_points_draws_nothing() {
    let mut s = scene();
    s.history.record(Action::new(&Selection::Pen));
    assert_eq!(paint(&s).len(), 1);
}

#[test]
fn pen_with_more_points_is_a_polyline() {
    let mut s = scene();
    let points = vec![Point::new(0, 0), Point::new(1, 2), Point::new(3, 4), Point::new(5, 6)];
    s.history.record(Action::Pen(id(), points, Color::red(), 5));
    let segment = |from: Point, to: Point| DrawCommand::Segment {
        transform: id(),
        from,
        to,
        color: Color::red(),
        width: 5,
    };
    assert_eq!(
        paint(&s)[1..],
        [
            segment(Point::new(0, 0), Point::new(1, 2)),
            segment(Point::new(1, 2), Point::new(3, 4)),
            segment(Point::new(3, 4), Point::new(5, 6)),
        ]
    );
}

#[test]
fn highlighter_is_wider_and_translucent() {
    let mut s = scene();
    s.history.record(Action::Highlighter(id(), vec![Point::new(5, 6)], Color::yellow(), 3));
    s.history.record(Action::Highlighter(
        id(),
        vec![Point::new(0, 0), Point::new(9, 9)],
        Color::yellow(),
        5,
    ));
    let faint = Color { r: 255, g: 255, b: 0, a: 64 };
    assert_eq!(
        paint(&s)[1..],
        [
            DrawCommand::Dot {
                transform: id(),
                center: Point::new(5, 6),
                diameter: 12,
                color: faint,
            },
            DrawCommand::Segment {
                transform: id(),
                from: Point::new(0, 0),
                to: Point::new(9, 9),
                color: faint,
                width: 15,
            },
        ]
    );
}

#[test]
fn shapes_are_filled_or_stroked() {
    let p = Point::new(1, 2);
    let q = Point::new(30, 40);
    let c = Color::maroon();
    let mut s = scene();
    s.history.record(Action::Rectangle(id(), p, q, c, false, 3));
    s.history.record(Action::Circle(id(), p, 9, c, false, 3));
    s.history.record(Action::Ellipse(id(), p, q, c, false, 3));
    s.history.record(Action::Ellipse(id(), p, q, c, true, 3));
    assert_eq!(
        paint(&s)[1..],
        [
            DrawCommand::StrokeBox { transform: id(), corner: p, opposite: q, color: c, width: 3 },
            DrawCommand::StrokeCircle {
                transform: id(),
                center: p,
                radius: 9,
                color: c,
                width: 3
            },
            DrawCommand::StrokeOval { transform: id(), corner: p, opposite: q, color: c, width: 3 },
            DrawCommand::FillOval { transform: id(), corner: p, opposite: q, color: c },
        ]
    );
}

#[test]
fn arrowhead_of_a_horizontal_arrow_of_length_100() {
    let (left, right) = calculate_arrowhead(Point::new(0, 0), Point::new(100, 0));
    // the head starts 100 / 10 behind the tip
    assert_eq!(100 - left.x, 10);
    assert_eq!(100 - right.x, 10);
    // and is 100 * 5 / 100 wide
    assert_eq!(left.y - right.y, 5);
    assert_eq!(left, Point::new(90, 2));
    assert_eq!(right, Point::new(90, -3));
}

#[test]
fn arrowhead_scales_with_the_arrow() {
    let (left, right) = calculate_arrowhead(Point::new(0, 0), Point::new(200, 0));
    assert_eq!(left, Point::new(180, 5));
    assert_eq!(right, Point::new(180, -5));
    let (left, right) = calculate_arrowhead(Point::new(10, 10), Point::new(10, 410));
    assert_eq!(left, Point::new(0, 370));
    assert_eq!(right, Point::new(20, 370));
    let (left, right) = calculate_arrowhead(Point::new(7, 7), Point::new(7, 7));
    assert_eq!(left, Point::new(7, 7));
    assert_eq!(right, Point::new(7, 7));
}

#[test]
fn arrowhead_near_the_edge_of_the_coordinate_range_is_clamped() {
    let (left, right) = calculate_arrowhead(Point::new(i32::MAX, 0), Point::new(i32::MIN, 0));
    assert_eq!(left.x, i32::MIN + 429_496_729);
    assert_eq!(right.x, i32::MIN + 429_496_729);
    let (left, right) =
        calculate_arrowhead(Point::new(i32::MAX, i32::MAX), Point::new(i32::MAX, i32::MIN));
    assert_eq!(left.x, i32::MAX);
    assert_eq!(right.x, i32::MAX - 107_374_183);
    assert_eq!(left.y, i32::MIN + 429_496_729);
}

#[test]
fn arrow_is_a_shaft_and_two_head_lines_whatever_the_stroke() {
    for stroke in [2u32, 3, 5] {
        let mut s = scene();
        s.history.record(Action::Arrow(
            id(),
            Point::new(0, 0),
            Point::new(100, 0),
            Color::black(),
            stroke,
        ));
        let segment = |from: Point| DrawCommand::Segment {
            transform: id(),
            from,
            to: Point::new(100, 0),
            color: Color::black(),
            width: stroke as u64,
        };
        assert_eq!(
            paint(&s)[1..],
            [segment(Point::new(0, 0)), segment(Point::new(90, 2)), segment(Point::new(90, -3))]
        );
    }
}

#[test]
fn text_is_a_label_that_names_its_action() {
    let mut s = scene();
    s.history.record(Action::new(&Selection::Pen));
    s.history.record(Action::Text(id(), Point::new(7, 8), String::from("note"), Color::blue()));
    assert_eq!(
        paint(&s)[1..],
        [DrawCommand::Label {
            transform: id(),
            anchor: Point::new(7, 8),
            action: 1,
            color: Color::blue(),
            points: 24,
        }]
    );
}

#[test]
fn crop_preview_shows_only_while_armed() {
    let mut s = scene();
    s.history.record(Action::Crop(None, Point::new(1, 2), Point::new(30, 40)));
    assert_eq!(paint(&s).len(), 1);
    s.crop = true;
    assert_eq!(
        paint(&s)[1..],
        [DrawCommand::CropPreview { corner: Point::new(1, 2), opposite: Point::new(30, 40) }]
    );
}

#[test]
fn horizontal_flip_is_brought_back_onto_the_canvas() {
    let mut s = scene();
    s.affine = Transform::flip_x();
    s.history.record(Action::Circle(id(), Point::new(1, 1), 1, Color::red(), true, 2));
    let shown = Transform { a: -1, b: 0, c: 0, d: 1, e: 200, f: 0 };
    assert_eq!(
        paint(&s),
        vec![
            picture_command(shown),
            DrawCommand::FillCircle {
                transform: shown,
                center: Point::new(1, 1),
                radius: 1,
                color: Color::red()
            },
        ]
    );
}

#[test]
fn vertical_flip_and_both_flips_are_brought_back_too() {
    let mut s = scene();
    s.affine = Transform::flip_y();
    assert_eq!(
        paint(&s),
        vec![picture_command(Transform { a: 1, b: 0, c: 0, d: -1, e: 0, f: 100 })]
    );
    s.affine = Transform { a: -1, b: 0, c: 0, d: -1, e: 0, f: 0 };
    assert_eq!(
        paint(&s),
        vec![picture_command(Transform { a: -1, b: 0, c: 0, d: -1, e: 200, f: 100 })]
    );
}

#[test]
fn action_is_drawn_under_the_global_transform_after_its_own() {
    let mut s = scene();
    // drawn while the canvas was flipped, shown after the flip was undone
    s.history.record(Action::Circle(
        Transform::flip_x(),
        Point::new(1, 1),
        1,
        Color::red(),
        true,
        2,
    ));
    // drawn while flipped, shown while flipped: the flips cancel
    s.history.record(Action::new(&Selection::Text).stamped(Transform::flip_x(), Color::red(), 2));
    let commands = paint(&s);
    assert_eq!(
        commands[1],
        DrawCommand::FillCircle {
            transform: Transform { a: -1, b: 0, c: 0, d: 1, e: 200, f: 0 },
            center: Point::new(1, 1),
            radius: 1,
            color: Color::red()
        }
    );
    s.affine = Transform::flip_x();
    let commands = paint(&s);
    assert_eq!(
        commands[1],
        DrawCommand::FillCircle {
            transform: id(),
            center: Point::new(1, 1),
            radius: 1,
            color: Color::red()
        }
    );
    let turn = Transform::quarter_turn(Point::new(4, 4));
    s.affine = turn;
    let commands = paint(&s);
    assert_eq!(commands[0], picture_command(turn));
    assert_eq!(
        commands[1],
        DrawCommand::FillCircle {
            transform: turn.compose(&Transform::flip_x()).unwrap(),
            center: Point::new(1, 1),
            radius: 1,
            color: Color::red()
        }
    );
}

#[test]
fn action_whose_transform_overflows_is_left_out() {
    let mut s = scene();
    s.affine = Transform::translate(i64::MAX, 0);
    s.history.record(Action::Circle(
        Transform::translate(1, 0),
        Point::new(1, 1),
        1,
        Color::red(),
        true,
        2,
    ));
    s.history.record(Action::Circle(id(), Point::new(2, 2), 1, Color::red(), true, 2));
    let commands = paint(&s);
    assert_eq!(commands.len(), 2);
    assert_eq!(
        commands[1],
        DrawCommand::FillCircle {
            transform: Transform::translate(i64::MAX, 0),
            center: Point::new(2, 2),
            radius: 1,
            color: Color::red()
        }
    );
}

#[test]
fn layout_fits_the_image_to_the_monitor() {
    let mut w = DrawingWidget;
    // 1920 / (1920 / 1920 + 0.5) = 1280
    assert_eq!(
        w.layout(Size { width: 1920, height: 1080 }, 1920),
        Size { width: 1280, height: 720 }
    );
    // 800 / (800 / 1600 + 0.5) = 800
    assert_eq!(
        w.layout(Size { width: 800, height: 600 }, 1600),
        Size { width: 800, height: 600 }
    );
    // 3000 / (3000 / 1000 + 0.5) = 857.14..
    assert_eq!(
        w.layout(Size { width: 3000, height: 1500 }, 1000),
        Size { width: 857, height: 428 }
    );
    assert_eq!(w.layout(Size { width: 0, height: 10 }, 1000), Size { width: 0, height: 0 });
    assert_eq!(w.layout(Size { width: 10, height: 10 }, 0), Size { width: 0, height: 0 });
    assert_eq!(
        w.layout(Size { width: 1, height: u32::MAX }, u32::MAX),
        Size { width: 1, height: u32::MAX }
    );
}

#[test]
fn save_request_names_the_window_without_its_title_bar() {
    let mut w = DrawingWidget;
    let mut s = scene();
    let window = Size { width: 640, height: 504 };
    assert_eq!(w.save_request(&mut s, Point::new(10, 20), window), None);
    s.save = true;
    assert_eq!(
        w.save_request(&mut s, Point::new(10, 20), window),
        Some((Point::new(10, 44), Size { width: 640, height: 480 }))
    );
    assert!(!s.save);
    assert_eq!(w.save_request(&mut s, Point::new(10, 20), window), None);
    s.save = true;
    assert_eq!(
        w.save_request(&mut s, Point::new(0, i32::MAX), Size { width: 5, height: 10 }),
        Some((Point::new(0, i32::MAX), Size { width: 5, height: 0 }))
    );
}
