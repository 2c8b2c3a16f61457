use vstd::prelude::*;

use crate::movement::ActionKind;

verus! {

/// Horizontal keyboard direction: `1` for right only, `-1` for left only,
/// `0` for both or neither.
pub open spec fn horizontal_of(left: bool, right: bool) -> int {
    (if right { 1int } else { 0int }) - (if left { 1int } else { 0int })
}

/// The messages one frame of keyboard state sends, in order: a move when the
/// horizontal direction is not zero, a jump when the jump key was just
/// pressed, a jump cancel when it was just released.
pub open spec fn keyboard_messages(
    left: bool,
    right: bool,
    jump_just_pressed: bool,
    jump_just_released: bool,
) -> Seq<ActionKind> {
    (if horizontal_of(left, right) != 0 { seq![ActionKind::Move] } else { Seq::empty() })
        + (if jump_just_pressed { seq![ActionKind::Jump] } else { Seq::empty() })
        + (if jump_just_released { seq![ActionKind::JumpCancel] } else { Seq::empty() })
}

/// The horizontal direction given by the left and right keys.
pub fn keyboard_horizontal(left: bool, right: bool) -> (h: i8)
    ensures
        h == horizontal_of(left, right),
        -1 <= h <= 1,
        (h != 0) == (left != right),
{
    let r: i8 = if right { 1 } else { 0 };
    let l: i8 = if left { 1 } else { 0 };
    r - l
}

/// The movement messages of one frame of keyboard state, in the order they
/// are sent. A `Move` goes with the direction `keyboard_horizontal(left, right)`.
pub fn keyboard_actions(
    left: bool,
    right: bool,
    jump_just_pressed: bool,
    jump_just_released: bool,
) -> (actions: Vec<ActionKind>)
    ensures
        actions@ == keyboard_messages(left, right, jump_just_pressed, jump_just_released),
{
    let mut actions: Vec<ActionKind> = Vec::new();
    let horizontal = keyboard_horizontal(left, right);
    if horizontal != 0 {
        actions.push(ActionKind::Move);
    }
    if jump_just_pressed {
        actions.push(ActionKind::Jump);
    }
    if jump_just_released {
        actions.push(ActionKind::JumpCancel);
    }
    assert(actions@ =~= keyboard_messages(left, right, jump_just_pressed, jump_just_released));
    actions
}

/// One gamepad's state for a frame: whether its left stick gives a non-zero
/// horizontal direction (the stick's x axis clamped to length one), and
/// whether its south button was just pressed.
#[derive(Clone, Copy, Debug)]
pub struct GamepadReading {
    pub stick_moved: bool,
    pub south_just_pressed: bool,
}

/// The messages one gamepad sends, each tagged with the gamepad's index: a
/// move for a moved stick, then a jump for a pressed south button.
pub open spec fn pad_messages(index: int, pad: GamepadReading) -> Seq<(usize, ActionKind)> {
    (if pad.stick_moved { seq![(index as usize, ActionKind::Move)] } else { Seq::empty() })
        + (if pad.south_just_pressed { seq![(index as usize, ActionKind::Jump)] } else { Seq::empty() })
}

/// The messages of all gamepads, gamepad after gamepad.
pub open spec fn gamepad_messages(pads: Seq<GamepadReading>) -> Seq<(usize, ActionKind)>
    decreases pads.len(),
{
    if pads.len() == 0 {
        Seq::empty()
    } else {
        gamepad_messages(pads.drop_last()) + pad_messages(pads.len() - 1, pads.last())
    }
}

/// The movement messages of one frame of gamepad state, in the order they are
/// sent, each with the index of the gamepad that sends it (a `Move` goes with
/// that gamepad's clamped stick direction).
pub fn gamepad_actions(pads: &Vec<GamepadReading>) -> (actions: Vec<(usize, ActionKind)>)
    ensures
        actions@ == gamepad_messages(pads@),
{
    let mut actions: Vec<(usize, ActionKind)> = Vec::new();
    let n = pads.len();
    let mut i: usize = 0;
    while i < n
        invariant
            n == pads.len(),
            i <= n,
            actions@ == gamepad_messages(pads@.take(i as int)),
        decreases n - i,
    {
        let pad = pads[i];
        let ghost before = actions@;
        if pad.stick_moved {
            actions.push((i, ActionKind::Move));
        }
        if pad.south_just_pressed {
            actions.push((i, ActionKind::Jump));
        }
        assert(pads@.take(i + 1).drop_last() =~= pads@.take(i as int));
        assert(pads@.take(i + 1).last() == pad);
        assert(actions@ =~= before + pad_messages(i as int, pad));
        i += 1;
    }
    assert(pads@.take(n as int) =~= pads@);
    actions
}

} // verus!
