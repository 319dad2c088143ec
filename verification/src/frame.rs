//! What one frame of the render loop does with the keyboard: which steps
//! the camera takes, in which order, and whether the loop is asked to end.

use crate::input::{
    apply_events, key_down, Input, Key, WindowEvent, KEY_A, KEY_D, KEY_ESCAPE, KEY_LEFT_CONTROL,
    KEY_S, KEY_SPACE, KEY_W,
};
use vstd::prelude::*;

verus! {

/// One step of the camera along one of its basis vectors.
#[derive(Clone, Copy, Debug, PartialEq, Eq, Structural)]
pub enum Movement {
    Forward,
    Backward,
    Left,
    Right,
    Up,
    Down,
}

/// The basis vectors of the camera: where it looks, its right-hand side
/// (the normalised cross product of front and up), and up.
#[derive(Clone, Copy, Debug, PartialEq, Eq, Structural)]
pub enum Axis {
    Front,
    Right,
    Up,
}

/// What the render loop does in one frame.
#[derive(Debug)]
pub struct FrameCommands {
    /// The steps to add to the camera's position, in this order.
    pub moves: Vec<Movement>,
    /// Whether the loop is asked to end.
    pub close: bool,
}

/// The key that asks for a movement.
pub open spec fn movement_key(movement: Movement) -> Key {
    match movement {
        Movement::Forward => Key { code: KEY_W },
        Movement::Backward => Key { code: KEY_S },
        Movement::Left => Key { code: KEY_A },
        Movement::Right => Key { code: KEY_D },
        Movement::Up => Key { code: KEY_SPACE },
        Movement::Down => Key { code: KEY_LEFT_CONTROL },
    }
}

/// The basis vector along which a movement goes.
pub open spec fn movement_axis(movement: Movement) -> Axis {
    match movement {
        Movement::Forward | Movement::Backward => Axis::Front,
        Movement::Left | Movement::Right => Axis::Right,
        Movement::Up | Movement::Down => Axis::Up,
    }
}

/// Whether a movement goes against its basis vector.
pub open spec fn movement_is_reversed(movement: Movement) -> bool {
    movement == Movement::Backward || movement == Movement::Left || movement == Movement::Down
}

/// The place of a movement in the order in which a frame applies them.
pub open spec fn movement_rank(movement: Movement) -> int {
    match movement {
        Movement::Forward => 0,
        Movement::Backward => 1,
        Movement::Left => 2,
        Movement::Right => 3,
        Movement::Up => 4,
        Movement::Down => 5,
    }
}

/// The movement alone where its key is held, and nothing where it is not.
pub open spec fn move_if_down(state: Map<i32, bool>, movement: Movement) -> Seq<Movement> {
    if key_down(state, movement_key(movement)) {
        seq![movement]
    } else {
        Seq::empty()
    }
}

/// The movements of a frame: one for each held movement key, in the order
/// forward, backward, left, right, up, down.
pub open spec fn frame_moves(state: Map<i32, bool>) -> Seq<Movement> {
    move_if_down(state, Movement::Forward) + move_if_down(state, Movement::Backward)
        + move_if_down(state, Movement::Left) + move_if_down(state, Movement::Right)
        + move_if_down(state, Movement::Up) + move_if_down(state, Movement::Down)
}

/// Whether a frame asks the loop to end: the escape key is held.
pub open spec fn frame_closes(state: Map<i32, bool>) -> bool {
    key_down(state, Key { code: KEY_ESCAPE })
}

impl Movement {
    pub fn key(self) -> (key: Key)
        ensures
            key == movement_key(self),
    {
        match self {
            Movement::Forward => Key { code: KEY_W },
            Movement::Backward => Key { code: KEY_S },
            Movement::Left => Key { code: KEY_A },
            Movement::Right => Key { code: KEY_D },
            Movement::Up => Key { code: KEY_SPACE },
            Movement::Down => Key { code: KEY_LEFT_CONTROL },
        }
    }

    pub fn axis(self) -> (axis: Axis)
        ensures
            axis == movement_axis(self),
    {
        match self {
            Movement::Forward => Axis::Front,
            Movement::Backward => Axis::Front,
            Movement::Left => Axis::Right,
            Movement::Right => Axis::Right,
            Movement::Up => Axis::Up,
            Movement::Down => Axis::Up,
        }
    }

    pub fn is_reversed(self) -> (reversed: bool)
        ensures
            reversed == movement_is_reversed(self),
    {
        match self {
            Movement::Forward => false,
            Movement::Backward => true,
            Movement::Left => true,
            Movement::Right => false,
            Movement::Up => false,
            Movement::Down => true,
        }
    }
}

/// Reads the commands of a frame off the keyboard state.
pub fn frame_commands(input: &Input) -> (commands: FrameCommands)
    ensures
        commands.moves@ == frame_moves(input@),
        commands.close == frame_closes(input@),
{
    let mut moves: Vec<Movement> = Vec::new();
    push_if_down(input, Movement::Forward, &mut moves);
    push_if_down(input, Movement::Backward, &mut moves);
    push_if_down(input, Movement::Left, &mut moves);
    push_if_down(input, Movement::Right, &mut moves);
    push_if_down(input, Movement::Up, &mut moves);
    push_if_down(input, Movement::Down, &mut moves);
    assert(moves@ =~= frame_moves(input@));
    let close = input.is_key_down(Key { code: KEY_ESCAPE });
    FrameCommands { moves, close }
}

/// Appends the movement where its key is held.
fn push_if_down(input: &Input, movement: Movement, moves: &mut Vec<Movement>)
    ensures
        final(moves)@ == old(moves)@ + move_if_down(input@, movement),
{
    if input.is_key_down(movement.key()) {
        moves.push(movement);
    }
    assert(moves@ =~= old(moves)@ + move_if_down(input@, movement));
}

/// The keyboard part of a frame: takes in the queued events, then reads the
/// commands off the new state.
pub fn process_frame(input: &mut Input, events: &Vec<WindowEvent>) -> (commands: FrameCommands)
    ensures
        final(input)@ == apply_events(old(input)@, events@),
        commands.moves@ == frame_moves(final(input)@),
        commands.close == frame_closes(final(input)@),
{
    input.handle_window_events(events);
    frame_commands(input)
}

/// The movements of a frame that come before `movement` in the order.
spec fn moves_before(state: Map<i32, bool>, movement: Movement) -> Seq<Movement> {
    let forward = move_if_down(state, Movement::Forward);
    let backward = move_if_down(state, Movement::Backward);
    let left = move_if_down(state, Movement::Left);
    let right = move_if_down(state, Movement::Right);
    let up = move_if_down(state, Movement::Up);
    match movement {
        Movement::Forward => Seq::empty(),
        Movement::Backward => forward,
        Movement::Left => forward + backward,
        Movement::Right => forward + backward + left,
        Movement::Up => forward + backward + left + right,
        Movement::Down => forward + backward + left + right + up,
    }
}

/// A frame moves the camera along a direction exactly if the key of that
/// direction is held.
pub proof fn lemma_moves_follow_keys(state: Map<i32, bool>, movement: Movement)
    ensures
        frame_moves(state).contains(movement) <==> key_down(state, movement_key(movement)),
{
    let moves = frame_moves(state);
    if key_down(state, movement_key(movement)) {
        assert(moves[moves_before(state, movement).len() as int] == movement);
    } else {
        assert forall|i: int| 0 <= i < moves.len() implies moves[i] != movement by {
            lemma_moves_are_held(state, i);
        }
    }
}

/// Every movement of a frame has its key held.
proof fn lemma_moves_are_held(state: Map<i32, bool>, i: int)
    requires
        0 <= i < frame_moves(state).len(),
    ensures
        key_down(state, movement_key(frame_moves(state)[i])),
{
}

/// The movements of a frame come in the fixed order, each at most once.
pub proof fn lemma_moves_in_order(state: Map<i32, bool>, i: int, j: int)
    requires
        0 <= i < j < frame_moves(state).len(),
    ensures
        movement_rank(frame_moves(state)[i]) < movement_rank(frame_moves(state)[j]),
{
}

/// With no movement key held the camera stays where it is.
pub proof fn lemma_no_key_no_move(state: Map<i32, bool>)
    requires
        forall|movement: Movement| !key_down(state, #[trigger] movement_key(movement)),
    ensures
        frame_moves(state) == Seq::<Movement>::empty(),
{
    assert(!key_down(state, movement_key(Movement::Forward)));
    assert(!key_down(state, movement_key(Movement::Backward)));
    assert(!key_down(state, movement_key(Movement::Left)));
    assert(!key_down(state, movement_key(Movement::Right)));
    assert(!key_down(state, movement_key(Movement::Up)));
    assert(!key_down(state, movement_key(Movement::Down)));
    assert(frame_moves(state) =~= Seq::<Movement>::empty());
}

/// The six movements pair up along the three axes, one with and one against
/// each basis vector.
pub proof fn lemma_movements_pair_up()
    ensures
        movement_axis(Movement::Forward) == movement_axis(Movement::Backward),
        movement_axis(Movement::Left) == movement_axis(Movement::Right),
        movement_axis(Movement::Up) == movement_axis(Movement::Down),
        forall|a: Movement, b: Movement|
            a != b && movement_axis(a) == movement_axis(b) ==> movement_is_reversed(a)
                != movement_is_reversed(b),
        forall|a: Movement, b: Movement| a != b ==> movement_key(a) != movement_key(b),
{
}

} // verus!
