use screen_crab_tools::action::{Action, Selection, DEFAULT_STROKE};
use screen_crab_tools::color::Color;
use screen_crab_tools::geometry::Point;
use screen_crab_tools::transform::Transform;

fn id() -> Transform {
    Transform::identity()
}

#[test]
fn default_tool_is_the_pen() {
    assert_eq!(Selection::default(), Selection::Pen);
}

#[test]
fn new_actions_are_blank() {
    let o = Point::zero();
    let red = Color::red();
    assert_eq!(DEFAULT_STROKE, 2);
    assert_eq!(Action::new(&Selection::Pen), Action::Pen(id(), vec![], red, 2));
    assert_eq!(Action::new(&Selection::Highlighter), Action::Highlighter(id(), vec![], red, 2));
    assert_eq!(Action::new(&Selection::Rectangle), Action::Rectangle(id(), o, o, red, false, 2));
    assert_eq!(Action::new(&Selection::Circle), Action::Circle(id(), o, 0, red, false, 2));
    assert_eq!(Action::new(&Selection::Ellipse), Action::Ellipse(id(), o, o, red, false, 2));
    assert_eq!(Action::new(&Selection::Arrow), Action::Arrow(id(), o, o, red, 2));
    assert_eq!(Action::new(&Selection::Text), Action::Text(id(), o, String::new(), red));
    assert_eq!(Action::new(&Selection::Crop), Action::Crop(None, o, o));
}

#[test]
fn kind_names_the_tool() {
    let tools = [
        Selection::Pen,
        Selection::Highlighter,
        Selection::Rectangle,
        Selection::Circle,
        Selection::Ellipse,
        Selection::Arrow,
        Selection::Text,
        Selection::Crop,
    ];
    for tool in tools {
        assert_eq!(Action::new(&tool).kind(), tool);
    }
}

#[test]
fn stamped_sets_transform_color_and_stroke() {
    let t = Transform::flip_x();
    let blue = Color::blue();
    let o = Point::zero();
    assert_eq!(
        Action::new(&Selection::Pen).stamped(t, blue, 5),
        Action::Pen(t, vec![], blue, 5)
    );
    assert_eq!(
        Action::new(&Selection::Circle).stamped(t, blue, 5),
        Action::Circle(t, o, 0, blue, false, 5)
    );
    assert_eq!(
        Action::new(&Selection::Arrow).stamped(t, blue, 3),
        Action::Arrow(t, o, o, blue, 3)
    );
    assert_eq!(
        Action::new(&Selection::Text).stamped(t, blue, 5),
        Action::Text(t, o, String::new(), blue)
    );
    assert_eq!(Action::new(&Selection::Crop).stamped(t, blue, 5), Action::Crop(None, o, o));
}

#[test]
fn placed_at_sets_the_first_sample() {
    let p = Point::new(4, 9);
    let red = Color::red();
    assert_eq!(
        Action::new(&Selection::Pen).placed_at(p, true),
        Action::Pen(id(), vec![p], red, 2)
    );
    assert_eq!(
        Action::new(&Selection::Highlighter).placed_at(p, true),
        Action::Highlighter(id(), vec![p], red, 2)
    );
    assert_eq!(
        Action::new(&Selection::Rectangle).placed_at(p, true),
        Action::Rectangle(id(), p, p, red, true, 2)
    );
    assert_eq!(
        Action::new(&Selection::Circle).placed_at(p, true),
        Action::Circle(id(), p, 0, red, true, 2)
    );
    assert_eq!(
        Action::new(&Selection::Ellipse).placed_at(p, false),
        Action::Ellipse(id(), p, p, red, false, 2)
    );
    assert_eq!(
        Action::new(&Selection::Arrow).placed_at(p, true),
        Action::Arrow(id(), p, p, red, 2)
    );
    assert_eq!(
        Action::new(&Selection::Text).placed_at(p, true),
        Action::Text(id(), p, String::new(), red)
    );
    assert_eq!(Action::new(&Selection::Crop).placed_at(p, true), Action::Crop(None, p, p));
}

#[test]
fn dragging_extends_each_tool_in_its_own_way() {
    let p = Point::new(0, 0);
    let q = Point::new(3, 4);
    let red = Color::red();
    assert_eq!(
        Action::new(&Selection::Pen).placed_at(p, false).dragged_to(q),
        Action::Pen(id(), vec![p, q], red, 2)
    );
    assert_eq!(
        Action::new(&Selection::Highlighter).placed_at(p, false).dragged_to(q),
        Action::Highlighter(id(), vec![p, q], red, 2)
    );
    assert_eq!(
        Action::new(&Selection::Rectangle).placed_at(p, false).dragged_to(q),
        Action::Rectangle(id(), p, q, red, false, 2)
    );
    assert_eq!(
        Action::new(&Selection::Circle).placed_at(p, false).dragged_to(q),
        Action::Circle(id(), p, 5, red, false, 2)
    );
    assert_eq!(
        Action::new(&Selection::Ellipse).placed_at(p, false).dragged_to(q),
        Action::Ellipse(id(), p, q, red, false, 2)
    );
    assert_eq!(
        Action::new(&Selection::Arrow).placed_at(p, false).dragged_to(q),
        Action::Arrow(id(), p, q, red, 2)
    );
    assert_eq!(
        Action::new(&Selection::Text).placed_at(p, false).dragged_to(q),
        Action::Text(id(), p, String::new(), red)
    );
    assert_eq!(
        Action::new(&Selection::Crop).placed_at(p, false).dragged_to(q),
        Action::Crop(None, p, q)
    );
}

#[test]
fn freehand_strokes_grow_without_bound() {
    let mut a = Action::new(&Selection::Pen).placed_at(Point::new(0, 0), false);
    for n in 1..1000 {
        a = a.dragged_to(Point::new(n, n));
    }
    match a {
        Action::Pen(_, points, _, _) => {
            assert_eq!(points.len(), 1000);
            assert_eq!(points[999], Point::new(999, 999));
        }
        _ => panic!("not a pen stroke"),
    }
}

#[test]
fn circle_radius_is_the_distance_to_the_cursor() {
    let c = Point::new(10, 10);
    let a = Action::new(&Selection::Circle).placed_at(c, false);
    assert_eq!(
        a.clone().dragged_to(Point::new(10, 110)),
        Action::Circle(id(), c, 100, Color::red(), false, 2)
    );
    assert_eq!(
        a.clone().dragged_to(Point::new(4, 2)),
        Action::Circle(id(), c, 10, Color::red(), false, 2)
    );
    assert_eq!(a.dragged_to(c), Action::Circle(id(), c, 0, Color::red(), false, 2));
}

#[test]
fn release_sets_the_end_point_but_adds_no_freehand_point() {
    let p = Point::new(0, 0);
    let q = Point::new(6, 8);
    let red = Color::red();
    assert_eq!(
        Action::new(&Selection::Pen).placed_at(p, false).released_at(q),
        Action::Pen(id(), vec![p], red, 2)
    );
    assert_eq!(
        Action::new(&Selection::Highlighter).placed_at(p, false).released_at(q),
        Action::Highlighter(id(), vec![p], red, 2)
    );
    assert_eq!(
        Action::new(&Selection::Rectangle).placed_at(p, false).released_at(q),
        Action::Rectangle(id(), p, q, red, false, 2)
    );
    assert_eq!(
        Action::new(&Selection::Circle).placed_at(p, false).released_at(q),
        Action::Circle(id(), p, 10, red, false, 2)
    );
    assert_eq!(
        Action::new(&Selection::Arrow).placed_at(p, false).released_at(q),
        Action::Arrow(id(), p, q, red, 2)
    );
    assert_eq!(
        Action::new(&Selection::Crop).placed_at(p, false).released_at(q),
        Action::Crop(None, p, q)
    );
}

#[test]
fn typing_and_pasting_change_only_text() {
    let t = Transform::flip_y();
    let p = Point::new(1, 2);
    let text = Action::new(&Selection::Text).placed_at(p, false);
    let typed = text.clone().typed(t, 'h').typed(t, 'i');
    assert_eq!(typed, Action::Text(t, p, String::from("hi"), Color::red()));
    let pasted = typed.pasted(id(), String::from("pasted"));
    assert_eq!(pasted, Action::Text(id(), p, String::from("pasted"), Color::red()));
    let pen = Action::new(&Selection::Pen).placed_at(p, false);
    assert_eq!(pen.clone().typed(t, 'x'), pen);
    assert_eq!(pen.clone().pasted(t, String::from("x")), pen);
}

#[test]
fn anchoring_moves_and_colors_only_text() {
    let p = Point::new(1, 2);
    let q = Point::new(8, 9);
    let text = Action::new(&Selection::Text).placed_at(p, false);
    assert_eq!(
        text.anchored(q, Color::blue()),
        Action::Text(id(), q, String::new(), Color::blue())
    );
    let rect = Action::new(&Selection::Rectangle).placed_at(p, false);
    assert_eq!(rect.clone().anchored(q, Color::blue()), rect);
}

#[test]
fn snapshot_goes_to_a_crop_rectangle_only() {
    let p = Point::new(1, 2);
    let picture = image::DynamicImage::new_rgba8(3, 2);
    let crop = Action::new(&Selection::Crop).placed_at(p, false);
    assert_eq!(
        crop.with_snapshot(picture.clone()),
        Action::Crop(Some(picture.clone()), p, p)
    );
    let pen = Action::new(&Selection::Pen).placed_at(p, false);
    assert_eq!(pen.clone().with_snapshot(picture), pen);
}
