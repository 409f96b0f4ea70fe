//! Turning one frame's pointer snapshot into engine calls.

use vstd::prelude::*;
use crate::command::Command;

verus! {

/// A position in whole pixels. Negative coordinates are ordinary values.
#[derive(Clone, Copy, Debug, PartialEq, Eq, Structural)]
pub struct Point {
    pub x: i32,
    pub y: i32,
}

/// Which of the three mouse buttons are held down.
#[derive(Clone, Copy, Debug, PartialEq, Eq, Structural)]
pub struct ButtonState {
    pub primary: bool,
    pub secondary: bool,
    pub middle: bool,
}

/// What the GUI reported about the widget for one frame. Nothing is kept
/// from one frame to the next.
#[derive(Clone, Copy, Debug, PartialEq, Eq)]
pub struct FrameInput {
    /// Top-left corner of the rectangle the widget was drawn in, in screen
    /// coordinates.
    pub origin: Point,
    /// Width of the drawn rectangle.
    pub width: i32,
    /// Height of the drawn rectangle.
    pub height: i32,
    /// Whether the pointer hovers the widget.
    pub hovered: bool,
    /// The pointer's latest position in screen coordinates, if it has one.
    pub pointer: Option<Point>,
    /// The wheel's vertical movement during the frame.
    pub scroll: i32,
    /// The buttons held during the frame.
    pub buttons: ButtonState,
}

/// The start and the end of a drag, for an engine that takes button presses
/// and releases one at a time.
#[derive(Clone, Copy, Debug, PartialEq, Eq)]
pub struct DragEdges {
    /// A drag of the widget started in this frame.
    pub started: bool,
    /// A drag of the widget stopped in this frame.
    pub stopped: bool,
    /// The buttons held when the frame was sampled.
    pub held: ButtonState,
    /// The buttons whose click ended in this frame.
    pub released: ButtonState,
}

/// The index by which the engine knows the foremost of `buttons`: primary
/// is 0, secondary 1, middle 2. With none of them set it is 0 as well.
pub open spec fn button_index_spec(buttons: ButtonState) -> i32 {
    if buttons.primary {
        0
    } else if buttons.secondary {
        1
    } else if buttons.middle {
        2
    } else {
        0
    }
}

/// A press for a drag that started, then a release for one that stopped.
pub open spec fn edge_commands(drag: DragEdges) -> Seq<Command> {
    let press = if drag.started {
        seq![Command::MousePress { button: button_index_spec(drag.held) }]
    } else {
        Seq::empty()
    };
    let release = if drag.stopped {
        seq![Command::MouseRelease { button: button_index_spec(drag.released) }]
    } else {
        Seq::empty()
    };
    press + release
}

/// The `i32` nearest to `v`.
pub open spec fn clamp_to_i32(v: int) -> i32 {
    if v < i32::MIN {
        i32::MIN
    } else if v > i32::MAX {
        i32::MAX
    } else {
        v as i32
    }
}

/// `pointer` seen from `origin`: the difference of the two on each axis,
/// held to the range of `i32`.
pub open spec fn relative_spec(pointer: Point, origin: Point) -> Point {
    Point {
        x: clamp_to_i32(pointer.x - origin.x),
        y: clamp_to_i32(pointer.y - origin.y),
    }
}

/// The single combined update that reports `buttons`.
pub open spec fn button_command(buttons: ButtonState) -> Command {
    Command::UpdateMouseDown {
        primary: buttons.primary,
        secondary: buttons.secondary,
        middle: buttons.middle,
    }
}

/// The pointer move of a frame: one, at the widget-relative position, if the
/// pointer has a position.
pub open spec fn move_commands(pointer: Option<Point>, origin: Point) -> Seq<Command> {
    match pointer {
        Some(at) => seq![
            Command::MouseMove {
                x: relative_spec(at, origin).x,
                y: relative_spec(at, origin).y,
            },
        ],
        None => Seq::empty(),
    }
}

/// The wheel call of a frame: one if the wheel moved.
pub open spec fn wheel_commands(scroll: i32) -> Seq<Command> {
    if scroll != 0 {
        seq![Command::MouseWheel { delta: scroll }]
    } else {
        Seq::empty()
    }
}

/// Everything a frame's input forwards to the engine. Off the widget that is
/// nothing; on it, the move, then the wheel, then the buttons.
pub open spec fn input_commands(input: FrameInput) -> Seq<Command> {
    if input.hovered {
        move_commands(input.pointer, input.origin) + wheel_commands(input.scroll)
            + seq![button_command(input.buttons)]
    } else {
        Seq::empty()
    }
}

fn axis_offset(at: i32, from: i32) -> (offset: i32)
    ensures
        offset == clamp_to_i32(at - from),
{
    let wide: i64 = at as i64 - from as i64;
    if wide < i32::MIN as i64 {
        i32::MIN
    } else if wide > i32::MAX as i64 {
        i32::MAX
    } else {
        wide as i32
    }
}

/// Where `pointer` lies relative to `origin`. Left of or above the origin the
/// result is negative, which tells the engine that the pointer left the
/// widget.
pub fn relative_position(pointer: Point, origin: Point) -> (relative: Point)
    ensures
        relative == relative_spec(pointer, origin),
{
    Point { x: axis_offset(pointer.x, origin.x), y: axis_offset(pointer.y, origin.y) }
}

/// The engine calls that one frame's input gives rise to.
pub fn forward_input(input: &FrameInput) -> (commands: Vec<Command>)
    ensures
        commands@ == input_commands(*input),
{
    let mut commands: Vec<Command> = Vec::new();
    if input.hovered {
        if let Some(at) = input.pointer {
            let relative = relative_position(at, input.origin);
            commands.push(Command::MouseMove { x: relative.x, y: relative.y });
        }
        assert(commands@ =~= move_commands(input.pointer, input.origin));
        if input.scroll != 0 {
            commands.push(Command::MouseWheel { delta: input.scroll });
        }
        assert(commands@ =~= move_commands(input.pointer, input.origin) + wheel_commands(
            input.scroll,
        ));
        commands.push(
            Command::UpdateMouseDown {
                primary: input.buttons.primary,
                secondary: input.buttons.secondary,
                middle: input.buttons.middle,
            },
        );
    }
    assert(commands@ =~= input_commands(*input));
    commands
}

/// The engine's index of the foremost button of `buttons`.
pub fn button_index(buttons: &ButtonState) -> (index: i32)
    ensures
        index == button_index_spec(*buttons),
{
    if buttons.primary {
        0
    } else if buttons.secondary {
        1
    } else if buttons.middle {
        2
    } else {
        0
    }
}

/// The press and release calls of one frame, for an engine that has no
/// combined button update.
pub fn forward_button_edges(drag: &DragEdges) -> (commands: Vec<Command>)
    ensures
        commands@ == edge_commands(*drag),
{
    let mut commands: Vec<Command> = Vec::new();
    if drag.started {
        commands.push(Command::MousePress { button: button_index(&drag.held) });
    }
    if drag.stopped {
        commands.push(Command::MouseRelease { button: button_index(&drag.released) });
    }
    assert(commands@ =~= edge_commands(*drag));
    commands
}

/// Where the difference of two positions fits in `i32`, the forwarded
/// position is exactly that difference, negative when the pointer is left of
/// or above the origin.
pub proof fn lemma_relative_is_difference(pointer: Point, origin: Point)
    requires
        i32::MIN <= pointer.x - origin.x <= i32::MAX,
        i32::MIN <= pointer.y - origin.y <= i32::MAX,
    ensures
        relative_spec(pointer, origin).x == pointer.x - origin.x,
        relative_spec(pointer, origin).y == pointer.y - origin.y,
        pointer.x < origin.x ==> relative_spec(pointer, origin).x < 0,
        pointer.y < origin.y ==> relative_spec(pointer, origin).y < 0,
{
}

/// Moving widget and pointer together across the screen changes nothing of
/// what is forwarded.
pub proof fn lemma_relative_ignores_screen_position(
    pointer: Point,
    origin: Point,
    moved_pointer: Point,
    moved_origin: Point,
)
    requires
        moved_pointer.x - pointer.x == moved_origin.x - origin.x,
        moved_pointer.y - pointer.y == moved_origin.y - origin.y,
    ensures
        relative_spec(moved_pointer, moved_origin) == relative_spec(pointer, origin),
        move_commands(Some(moved_pointer), moved_origin) == move_commands(Some(pointer), origin),
{
}

/// While the pointer hovers the widget, every frame ends with one combined
/// button update that carries the three states unchanged, whatever they are.
pub proof fn lemma_buttons_forwarded(input: FrameInput)
    requires
        input.hovered,
    ensures
        input_commands(input).len() >= 1,
        input_commands(input).last() == (Command::UpdateMouseDown {
            primary: input.buttons.primary,
            secondary: input.buttons.secondary,
            middle: input.buttons.middle,
        }),
        forall|i: int|
            0 <= i < input_commands(input).len() - 1 ==> !(input_commands(input)[i]
                is UpdateMouseDown),
{
}

/// The wheel is forwarded exactly when it moved while the pointer hovers the
/// widget, and then with its delta unchanged.
pub proof fn lemma_wheel_forwarded(input: FrameInput)
    ensures
        input_commands(input).contains(Command::MouseWheel { delta: input.scroll }) <==> (
        input.hovered && input.scroll != 0),
{
    let commands = input_commands(input);
    let wheel = Command::MouseWheel { delta: input.scroll };
    if input.hovered && input.scroll != 0 {
        let at = move_commands(input.pointer, input.origin).len() as int;
        assert(commands[at] == wheel);
    }
}

/// Off the widget nothing is forwarded.
pub proof fn lemma_nothing_forwarded_off_widget(input: FrameInput)
    requires
        !input.hovered,
    ensures
        input_commands(input) =~= Seq::<Command>::empty(),
{
}

} // verus!
