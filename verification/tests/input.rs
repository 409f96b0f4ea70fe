use vtk_bridge::command::Command;
use vtk_bridge::input::{
    button_index, forward_button_edges, forward_input, relative_position, ButtonState, DragEdges,
    FrameInput, Point,
};

fn no_buttons() -> ButtonState {
    ButtonState { primary: false, secondary: false, middle: false }
}

fn frame(origin: Point, pointer: Option<Point>) -> FrameInput {
    FrameInput {
        origin,
        width: 300,
        height: 300,
        hovered: true,
        pointer,
        scroll: 0,
        buttons: no_buttons(),
    }
}

#[test]
fn relative_position_is_pointer_minus_origin() {
    let cases = [
        ((10, 20), (0, 0), (10, 20)),
        ((110, 220), (100, 200), (10, 20)),
        ((150, 75), (25, 50), (125, 25)),
        ((0, 0), (0, 0), (0, 0)),
        ((-40, -60), (-50, -80), (10, 20)),
    ];
    for ((px, py), (ox, oy), (x, y)) in cases {
        assert_eq!(
            relative_position(Point { x: px, y: py }, Point { x: ox, y: oy }),
            Point { x, y }
        );
    }
}

#[test]
fn relative_position_is_negative_left_of_and_above_the_origin() {
    assert_eq!(
        relative_position(Point { x: 5, y: 7 }, Point { x: 8, y: 30 }),
        Point { x: -3, y: -23 }
    );
    assert_eq!(
        relative_position(Point { x: 90, y: 300 }, Point { x: 100, y: 200 }),
        Point { x: -10, y: 100 }
    );
    assert_eq!(
        relative_position(Point { x: 100, y: 190 }, Point { x: 100, y: 200 }),
        Point { x: 0, y: -10 }
    );
}

#[test]
fn relative_position_does_not_depend_on_screen_position() {
    let pointer = Point { x: 42, y: 17 };
    let origin = Point { x: 12, y: 40 };
    let expected = Point { x: 30, y: -23 };
    for (dx, dy) in [(0, 0), (1, 1), (500, -300), (-1000, 2000), (1_000_000, -1_000_000)] {
        let moved_pointer = Point { x: pointer.x + dx, y: pointer.y + dy };
        let moved_origin = Point { x: origin.x + dx, y: origin.y + dy };
        assert_eq!(relative_position(moved_pointer, moved_origin), expected);
    }
}

#[test]
fn relative_position_stays_within_i32() {
    assert_eq!(
        relative_position(Point { x: i32::MAX, y: i32::MIN }, Point { x: -1, y: 1 }),
        Point { x: i32::MAX, y: i32::MIN }
    );
    assert_eq!(
        relative_position(Point { x: i32::MAX, y: i32::MIN }, Point { x: i32::MIN, y: i32::MAX }),
        Point { x: i32::MAX, y: i32::MIN }
    );
    assert_eq!(
        relative_position(Point { x: i32::MAX, y: i32::MIN }, Point { x: 0, y: 0 }),
        Point { x: i32::MAX, y: i32::MIN }
    );
    assert_eq!(
        relative_position(Point { x: i32::MAX, y: i32::MIN }, Point { x: 1, y: -1 }),
        Point { x: i32::MAX - 1, y: i32::MIN + 1 }
    );
}

#[test]
fn pointer_move_is_forwarded_relative_to_the_widget() {
    let input = frame(Point { x: 100, y: 200 }, Some(Point { x: 130, y: 190 }));
    assert_eq!(
        forward_input(&input),
        vec![
            Command::MouseMove { x: 30, y: -10 },
            Command::UpdateMouseDown { primary: false, secondary: false, middle: false },
        ]
    );
}

#[test]
fn frame_without_pointer_position_forwards_buttons_only() {
    let input = frame(Point { x: 100, y: 200 }, None);
    assert_eq!(
        forward_input(&input),
        vec![Command::UpdateMouseDown { primary: false, secondary: false, middle: false }]
    );
}

#[test]
fn all_eight_button_states_are_forwarded_exactly() {
    for bits in 0u8..8 {
        let primary = bits & 1 != 0;
        let secondary = bits & 2 != 0;
        let middle = bits & 4 != 0;
        let mut input = frame(Point { x: 0, y: 0 }, None);
        input.buttons = ButtonState { primary, secondary, middle };
        assert_eq!(
            forward_input(&input),
            vec![Command::UpdateMouseDown { primary, secondary, middle }]
        );
    }
}

#[test]
fn wheel_is_forwarded_only_when_it_moved() {
    let mut input = frame(Point { x: 0, y: 0 }, Some(Point { x: 1, y: 2 }));
    input.scroll = -120;
    assert_eq!(
        forward_input(&input),
        vec![
            Command::MouseMove { x: 1, y: 2 },
            Command::MouseWheel { delta: -120 },
            Command::UpdateMouseDown { primary: false, secondary: false, middle: false },
        ]
    );
    input.scroll = 3;
    assert_eq!(forward_input(&input)[1], Command::MouseWheel { delta: 3 });
    input.scroll = 0;
    assert_eq!(
        forward_input(&input),
        vec![
            Command::MouseMove { x: 1, y: 2 },
            Command::UpdateMouseDown { primary: false, secondary: false, middle: false },
        ]
    );
}

#[test]
fn nothing_is_forwarded_while_the_pointer_is_elsewhere() {
    let mut input = frame(Point { x: 0, y: 0 }, Some(Point { x: 500, y: 500 }));
    input.hovered = false;
    input.scroll = 9;
    input.buttons = ButtonState { primary: true, secondary: true, middle: true };
    assert_eq!(forward_input(&input), Vec::<Command>::new());
}

#[test]
fn button_index_prefers_primary_then_secondary_then_middle() {
    for bits in 0u8..8 {
        let primary = bits & 1 != 0;
        let secondary = bits & 2 != 0;
        let middle = bits & 4 != 0;
        let expected = if primary {
            0
        } else if secondary {
            1
        } else if middle {
            2
        } else {
            0
        };
        assert_eq!(button_index(&ButtonState { primary, secondary, middle }), expected);
    }
    assert_eq!(button_index(&ButtonState { primary: false, secondary: false, middle: true }), 2);
    assert_eq!(button_index(&ButtonState { primary: false, secondary: true, middle: true }), 1);
}

#[test]
fn drag_edges_become_press_and_release() {
    let middle = ButtonState { primary: false, secondary: false, middle: true };
    let secondary = ButtonState { primary: false, secondary: true, middle: false };
    let started = DragEdges { started: true, stopped: false, held: middle, released: no_buttons() };
    assert_eq!(forward_button_edges(&started), vec![Command::MousePress { button: 2 }]);
    let stopped =
        DragEdges { started: false, stopped: true, held: no_buttons(), released: secondary };
    assert_eq!(forward_button_edges(&stopped), vec![Command::MouseRelease { button: 1 }]);
    let both = DragEdges { started: true, stopped: true, held: secondary, released: middle };
    assert_eq!(
        forward_button_edges(&both),
        vec![Command::MousePress { button: 1 }, Command::MouseRelease { button: 2 }]
    );
    let neither = DragEdges { started: false, stopped: false, held: middle, released: middle };
    assert_eq!(forward_button_edges(&neither), Vec::<Command>::new());
}
