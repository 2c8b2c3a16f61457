use vstd::prelude::*;

use crate::input::{gamepad_messages, horizontal_of, keyboard_messages, pad_messages, GamepadReading};
use crate::movement::{
    buffered_after, effect_of, marks_moving, outcome_of, ActionKind, EventEffect, JumpOutcome,
};
use crate::sensing::{
    caster_contact, grounded, may_grab, offers_lip, probe_side, wall_contact, LedgeProbeReading,
    WallCasterReading,
};
use crate::layout::{gap, gym_layout, left_edge, right_edge, top};
use crate::wall::{push_direction, WallSide};

verus! {

/// A wall jump happens only for a buffered jump, in the air, while falling
/// along a wall; it pushes the character away from the wall it touches:
/// right off a left wall, left off a right wall.
pub proof fn wall_jump_pushes_away(
    buffered: bool,
    on_ground: bool,
    touching: Option<WallSide>,
    rising_or_still: bool,
    side: WallSide,
)
    requires
        outcome_of(buffered, on_ground, touching, rising_or_still) == JumpOutcome::WallJump(side),
    ensures
        buffered && !on_ground && !rising_or_still,
        touching == Some(side),
        push_direction(side) == (if touching == Some(WallSide::Left) {
            1int
        } else {
            -1int
        }),
{
}

/// A jump that is buffered while the character stands on the ground is
/// taken at once, whatever walls it touches and whatever its velocity.
pub proof fn buffered_jump_on_ground_jumps(touching: Option<WallSide>, rising_or_still: bool)
    ensures
        outcome_of(true, true, touching, rising_or_still) == JumpOutcome::GroundJump,
{
}

/// Without a buffered jump nothing jump-related happens.
pub proof fn no_jump_without_buffer(on_ground: bool, touching: Option<WallSide>, rising_or_still: bool)
    ensures
        outcome_of(false, on_ground, touching, rising_or_still) == JumpOutcome::Idle,
{
}

/// A controller counts as moving in a frame exactly when it received a
/// `Move` message; jumps and jump cancels never mark it as moving.
pub proof fn moving_iff_move_message(
    action: ActionKind,
    on_ground: bool,
    touching_wall: bool,
    rising: bool,
)
    ensures
        marks_moving(effect_of(action, on_ground, touching_wall, rising)) <==> action
            == ActionKind::Move,
{
}

/// A jump cancel cuts the vertical velocity only while the character rises,
/// whatever its contact; otherwise it changes nothing.
pub proof fn jump_cancel_cuts_only_while_rising(on_ground: bool, touching_wall: bool, rising: bool)
    ensures
        (effect_of(ActionKind::JumpCancel, on_ground, touching_wall, rising) == EventEffect::CutRise)
            <==> rising,
        effect_of(ActionKind::JumpCancel, on_ground, touching_wall, rising) == EventEffect::CutRise
            || effect_of(ActionKind::JumpCancel, on_ground, touching_wall, rising)
            == EventEffect::NoCut,
{
}

/// A `Jump` message is never lost within its frame: the frame's jump decision
/// sees a buffered jump, so it is taken at once on the ground, waits or is
/// taken against a wall, and otherwise starts running down; it is never idle.
pub proof fn jump_message_is_seen_in_its_frame(
    buffered_before: bool,
    events: Seq<ActionKind>,
    on_ground: bool,
    touching: Option<WallSide>,
    rising_or_still: bool,
)
    requires
        events.contains(ActionKind::Jump),
    ensures
        buffered_after(buffered_before, events),
        outcome_of(buffered_after(buffered_before, events), on_ground, touching, rising_or_still)
            != JumpOutcome::Idle,
        on_ground ==> outcome_of(
            buffered_after(buffered_before, events),
            on_ground,
            touching,
            rising_or_still,
        ) == JumpOutcome::GroundJump,
{
}

/// Wall contact is cleared every frame and rebuilt from the casters: the
/// controller touches a wall on its left only if some left caster saw a wall
/// there, on its right only if some right caster did, and touches none
/// exactly when no caster records a contact.
pub proof fn wall_contact_is_witnessed(casters: Seq<WallCasterReading>)
    ensures
        wall_contact(casters) == Some(WallSide::Left) ==> exists|k: int|
            0 <= k < casters.len() && (#[trigger] casters[k]).is_left_caster
                && casters[k].hit_pushes_right,
        wall_contact(casters) == Some(WallSide::Right) ==> exists|k: int|
            0 <= k < casters.len() && (#[trigger] casters[k]).is_right_caster
                && casters[k].hit_pushes_left,
        wall_contact(casters) is None <==> forall|k: int|
            0 <= k < casters.len() ==> caster_contact(#[trigger] casters[k]) is None,
    decreases casters.len(),
{
    if casters.len() > 0 {
        let prefix = casters.drop_last();
        wall_contact_is_witnessed(prefix);
        let last = casters.len() - 1;
        assert(casters[last] == casters.last());
        assert forall|k: int| 0 <= k < prefix.len() implies #[trigger] prefix[k] == casters[k] by {}
        if wall_contact(casters) is None {
            assert forall|k: int| 0 <= k < casters.len() implies caster_contact(
                #[trigger] casters[k],
            ) is None by {
                if k < last {
                    assert(caster_contact(prefix[k]) is None);
                }
            }
        }
        if forall|k: int| 0 <= k < casters.len() ==> caster_contact(#[trigger] casters[k]) is None {
            assert(caster_contact(casters[last]) is None);
            assert forall|k: int| 0 <= k < prefix.len() implies caster_contact(
                #[trigger] prefix[k],
            ) is None by {
                assert(caster_contact(casters[k]) is None);
            }
        }
    }
}

/// Gamepads speak one after another: every message carries the index of an
/// existing gamepad, and the indices never go back.
pub proof fn gamepad_messages_in_pad_order(pads: Seq<GamepadReading>)
    requires
        pads.len() <= usize::MAX,
    ensures
        forall|a: int|
            0 <= a < gamepad_messages(pads).len() ==> (#[trigger] gamepad_messages(pads)[a]).0
                < pads.len(),
        forall|a: int, b: int|
            0 <= a < b < gamepad_messages(pads).len() ==> (#[trigger] gamepad_messages(pads)[a]).0
                <= (#[trigger] gamepad_messages(pads)[b]).0,
    decreases pads.len(),
{
    if pads.len() > 0 {
        let prefix = pads.drop_last();
        gamepad_messages_in_pad_order(prefix);
        let front = gamepad_messages(prefix);
        let back = pad_messages(pads.len() - 1, pads.last());
        assert(gamepad_messages(pads) == front + back);
        assert forall|a: int| 0 <= a < back.len() implies (#[trigger] back[a]).0 == (pads.len() - 1) as usize by {}
    }
}


// ---------------------------------------------------------------------------
// Jump buffer across a frame
// ---------------------------------------------------------------------------

/// A jump buffered before the frame stays buffered whatever messages the
/// frame brings: moves and jump cancels never touch the buffer.
pub proof fn earlier_buffer_survives_any_messages(events: Seq<ActionKind>)
    ensures
        buffered_after(true, events),
{
}

/// Whether a jump is buffered at the decision depends only on the earlier
/// buffer and on whether some `Jump` message arrived: without a `Jump`
/// message it is exactly the earlier state, and adding a `Move` or a
/// `JumpCancel` message to a frame changes nothing.
pub proof fn buffer_depends_only_on_jump_messages(buffered_before: bool, events: Seq<ActionKind>, extra: ActionKind)
    ensures
        (forall|i: int| 0 <= i < events.len() ==> events[i] != ActionKind::Jump) ==> buffered_after(
            buffered_before,
            events,
        ) == buffered_before,
        extra != ActionKind::Jump ==> buffered_after(buffered_before, events.push(extra))
            == buffered_after(buffered_before, events),
        buffered_after(buffered_before, events.push(ActionKind::Jump)),
{
    if forall|i: int| 0 <= i < events.len() ==> events[i] != ActionKind::Jump {
        if events.contains(ActionKind::Jump) {
            let k = choose|k: int| 0 <= k < events.len() && events[k] == ActionKind::Jump;
            assert(events[k] != ActionKind::Jump);
        }
    }
    let pushed = events.push(extra);
    assert(pushed[events.len() as int] == extra);
    if extra != ActionKind::Jump {
        if pushed.contains(ActionKind::Jump) {
            let k = choose|k: int| 0 <= k < pushed.len() && pushed[k] == ActionKind::Jump;
            assert(events[k] == ActionKind::Jump);
        }
        if events.contains(ActionKind::Jump) {
            let k = choose|k: int| 0 <= k < events.len() && events[k] == ActionKind::Jump;
            assert(pushed[k] == ActionKind::Jump);
        }
    }
    let with_jump = events.push(ActionKind::Jump);
    assert(with_jump[events.len() as int] == ActionKind::Jump);
}

/// A jump buffered before landing is taken on landing, whatever messages the
/// landing frame brings and whatever walls are touched.
pub proof fn earlier_buffer_jumps_on_landing(
    events: Seq<ActionKind>,
    touching: Option<WallSide>,
    rising_or_still: bool,
)
    ensures
        outcome_of(buffered_after(true, events), true, touching, rising_or_still)
            == JumpOutcome::GroundJump,
{
}

// ---------------------------------------------------------------------------
// Jump decision
// ---------------------------------------------------------------------------

/// Only the ground gives a ground jump; in the air a jump is launched only
/// off a wall, and any launch needs a buffered jump. Against a wall while
/// rising or at rest a buffered jump waits, on either side; in open air it
/// runs down; every decision on the ground with a buffer is a ground jump.
pub proof fn jump_decision_by_situation(
    buffered: bool,
    on_ground: bool,
    touching: Option<WallSide>,
    rising_or_still: bool,
)
    ensures
        outcome_of(buffered, on_ground, touching, rising_or_still) == JumpOutcome::GroundJump
            ==> on_ground && buffered,
        outcome_of(buffered, on_ground, touching, rising_or_still) is WallJump ==> !on_ground
            && buffered && touching is Some && !rising_or_still,
        outcome_of(buffered, on_ground, touching, rising_or_still) == JumpOutcome::Idle
            <==> !buffered,
        buffered && !on_ground && touching is Some && rising_or_still ==> outcome_of(
            buffered,
            on_ground,
            touching,
            rising_or_still,
        ) == JumpOutcome::HoldOnWall,
        buffered && !on_ground && touching is None ==> outcome_of(
            buffered,
            on_ground,
            touching,
            rising_or_still,
        ) == JumpOutcome::Decay,
        outcome_of(buffered, on_ground, touching, rising_or_still) == JumpOutcome::Decay
            ==> buffered && !on_ground && touching is None,
        outcome_of(buffered, on_ground, touching, rising_or_still) == JumpOutcome::HoldOnWall
            ==> buffered && !on_ground && touching is Some && rising_or_still,
        buffered && on_ground ==> outcome_of(buffered, on_ground, touching, rising_or_still)
            == JumpOutcome::GroundJump,
{
}

/// The jump decision does not look at which wall is touched, except to name
/// it in a wall jump: mirroring the wall mirrors the outcome.
pub proof fn jump_decision_mirrors(buffered: bool, on_ground: bool, rising_or_still: bool)
    ensures
        outcome_of(buffered, on_ground, Some(WallSide::Left), rising_or_still)
            == JumpOutcome::WallJump(WallSide::Left) <==> outcome_of(
            buffered,
            on_ground,
            Some(WallSide::Right),
            rising_or_still,
        ) == JumpOutcome::WallJump(WallSide::Right),
        !(outcome_of(buffered, on_ground, Some(WallSide::Left), rising_or_still) is WallJump)
            ==> outcome_of(buffered, on_ground, Some(WallSide::Left), rising_or_still)
            == outcome_of(buffered, on_ground, Some(WallSide::Right), rising_or_still),
{
}

/// Pushing off a left wall sends the character right, off a right wall left,
/// always by one unit.
pub proof fn push_is_away_from_the_wall(side: WallSide)
    ensures
        push_direction(WallSide::Left) == 1,
        push_direction(WallSide::Right) == -1,
        push_direction(side) == 1 || push_direction(side) == -1,
{
}

// ---------------------------------------------------------------------------
// Message effects
// ---------------------------------------------------------------------------

/// A move on the ground always accelerates, whatever the wall contact and
/// the vertical motion; a wall slide happens only in the air against a wall,
/// a drift only in the air away from walls. A jump always refills the
/// buffer, and neither jumps nor moves depend on the vertical motion.
pub proof fn message_effects_by_situation(
    action: ActionKind,
    on_ground: bool,
    touching_wall: bool,
    rising: bool,
)
    ensures
        effect_of(ActionKind::Move, true, touching_wall, rising) == EventEffect::Accelerate,
        effect_of(action, on_ground, touching_wall, rising) == EventEffect::Accelerate ==> action
            == ActionKind::Move && on_ground,
        effect_of(action, on_ground, touching_wall, rising) == EventEffect::SlideOnWall ==> action
            == ActionKind::Move && !on_ground && touching_wall,
        effect_of(action, on_ground, touching_wall, rising) == EventEffect::Drift ==> action
            == ActionKind::Move && !on_ground && !touching_wall,
        !on_ground && touching_wall ==> effect_of(ActionKind::Move, on_ground, touching_wall, rising)
            == EventEffect::SlideOnWall,
        !on_ground && !touching_wall ==> effect_of(ActionKind::Move, on_ground, touching_wall, rising)
            == EventEffect::Drift,
        effect_of(ActionKind::Jump, on_ground, touching_wall, rising) == EventEffect::BufferJump,
        effect_of(action, on_ground, touching_wall, rising) == EventEffect::BufferJump <==> action
            == ActionKind::Jump,
        effect_of(ActionKind::Move, on_ground, touching_wall, rising) == effect_of(
            ActionKind::Move,
            on_ground,
            touching_wall,
            !rising,
        ),
        effect_of(action, on_ground, touching_wall, rising) == EventEffect::NoCut ==> action
            == ActionKind::JumpCancel && !rising,
{
}

// ---------------------------------------------------------------------------
// Sensing
// ---------------------------------------------------------------------------

/// No ledge is grabbed while hanging already, nor on the ground, nor without
/// a wall; in the air against a wall, and not hanging, a grab may happen.
pub proof fn grab_needs_airborne_wall_contact(hanging: bool, on_ground: bool, touching: Option<WallSide>)
    ensures
        !may_grab(true, on_ground, touching),
        !may_grab(hanging, true, touching),
        !may_grab(hanging, on_ground, None),
        !hanging && !on_ground && touching is Some ==> may_grab(hanging, on_ground, touching),
{
}

/// A left probe looks left and a right probe right (a probe marked both ways
/// looks left); a lip is offered only by a probe that hit something, on the
/// side it looks at.
pub proof fn probes_look_at_their_side(p: LedgeProbeReading, side: WallSide)
    ensures
        probe_side(p) == Some(WallSide::Left) <==> p.is_left_probe,
        probe_side(p) == Some(WallSide::Right) <==> !p.is_left_probe && p.is_right_probe,
        probe_side(p) is None <==> !p.is_left_probe && !p.is_right_probe,
        offers_lip(p, side) ==> p.has_hit && probe_side(p) == Some(side),
        p.has_hit && probe_side(p) == Some(side) ==> offers_lip(p, side),
{
}

/// A caster records a wall on its right exactly when it is a right caster
/// pushed left, and a wall on its left exactly when it is a left caster
/// pushed right and does not also record a right wall. Each new caster's
/// contact replaces the earlier ones; a caster without contact keeps them.
pub proof fn caster_contacts_and_last_wins(c: WallCasterReading, earlier: Seq<WallCasterReading>)
    ensures
        caster_contact(c) == Some(WallSide::Right) <==> c.is_right_caster && c.hit_pushes_left,
        caster_contact(c) == Some(WallSide::Left) <==> c.is_left_caster && c.hit_pushes_right
            && !(c.is_right_caster && c.hit_pushes_left),
        caster_contact(c) is Some ==> wall_contact(earlier.push(c)) == caster_contact(c),
        caster_contact(c) is None ==> wall_contact(earlier.push(c)) == wall_contact(earlier),
        wall_contact(Seq::<WallCasterReading>::empty()) is None,
{
    assert(earlier.push(c).drop_last() =~= earlier);
    assert(earlier.push(c).last() == c);
}

/// The controller is grounded exactly when some ground caster holds a
/// walkable hit: no casters or no walkable hit means airborne, and adding a
/// caster with a walkable hit grounds it.
pub proof fn grounded_iff_some_walkable_hit(casters: Seq<Seq<bool>>, extra: Seq<bool>)
    ensures
        grounded(casters) <==> exists|i: int|
            0 <= i < casters.len() && (#[trigger] casters[i]).contains(true),
        !grounded(Seq::<Seq<bool>>::empty()),
        extra.contains(true) ==> grounded(casters.push(extra)),
        !extra.contains(true) ==> grounded(casters.push(extra)) == grounded(casters),
{
    let pushed = casters.push(extra);
    assert(pushed[casters.len() as int] == extra);
    if grounded(casters) {
        let (i, j) = choose|i: int, j: int|
            0 <= i < casters.len() && 0 <= j < casters[i].len() && #[trigger] casters[i][j];
        assert(casters[i][j]);
        assert(casters[i].contains(true));
    }
    if exists|i: int| 0 <= i < casters.len() && (#[trigger] casters[i]).contains(true) {
        let i = choose|i: int| 0 <= i < casters.len() && (#[trigger] casters[i]).contains(true);
        let j = choose|j: int| 0 <= j < casters[i].len() && casters[i][j] == true;
        assert(casters[i][j]);
    }
    if extra.contains(true) {
        let j = choose|j: int| 0 <= j < extra.len() && extra[j] == true;
        assert(pushed[casters.len() as int][j]);
    }
    if !extra.contains(true) {
        if grounded(pushed) {
            let (i, j) = choose|i: int, j: int|
                0 <= i < pushed.len() && 0 <= j < pushed[i].len() && #[trigger] pushed[i][j];
            if i == casters.len() {
                assert(extra[j]);
                assert(extra.contains(true));
            } else {
                assert(casters[i][j]);
            }
        }
        if grounded(casters) {
            let (i, j) = choose|i: int, j: int|
                0 <= i < casters.len() && 0 <= j < casters[i].len() && #[trigger] casters[i][j];
            assert(pushed[i][j]);
        }
    }
}

// ---------------------------------------------------------------------------
// Input
// ---------------------------------------------------------------------------

/// The keyboard sends a jump exactly when the jump key was just pressed and
/// a jump cancel exactly when it was just released, whatever direction keys
/// are held; it sends a move exactly when one direction key alone is held,
/// to the right for the right key and to the left for the left key; and it
/// sends at most one message of each kind, move first, cancel last.
pub proof fn keyboard_messages_by_keys(left: bool, right: bool, pressed: bool, released: bool)
    ensures
        keyboard_messages(left, right, pressed, released).contains(ActionKind::Jump) <==> pressed,
        keyboard_messages(left, right, pressed, released).contains(ActionKind::JumpCancel)
            <==> released,
        keyboard_messages(left, right, pressed, released).contains(ActionKind::Move) <==> left
            != right,
        right && !left ==> horizontal_of(left, right) == 1,
        left && !right ==> horizontal_of(left, right) == -1,
        left == right ==> horizontal_of(left, right) == 0,
        keyboard_messages(left, right, pressed, released).len() == (if left != right {
            1int
        } else {
            0
        }) + (if pressed {
            1int
        } else {
            0
        }) + (if released {
            1int
        } else {
            0
        }),
        keyboard_messages(left, right, pressed, released).len() > 0 && left != right
            ==> keyboard_messages(left, right, pressed, released)[0] == ActionKind::Move,
        released ==> keyboard_messages(left, right, pressed, released).last()
            == ActionKind::JumpCancel,
{
    let m = keyboard_messages(left, right, pressed, released);
    let mv: Seq<ActionKind> = if left != right { seq![ActionKind::Move] } else { Seq::empty() };
    let jp: Seq<ActionKind> = if pressed { seq![ActionKind::Jump] } else { Seq::empty() };
    let jr: Seq<ActionKind> = if released { seq![ActionKind::JumpCancel] } else { Seq::empty() };
    assert(m =~= mv + jp + jr);
    if pressed {
        assert(m[mv.len() as int] == ActionKind::Jump);
    }
    if m.contains(ActionKind::Jump) {
        let k = choose|k: int| 0 <= k < m.len() && m[k] == ActionKind::Jump;
        if !pressed {
            assert(m[k] != ActionKind::Jump);
        }
    }
    if released {
        assert(m[m.len() - 1] == ActionKind::JumpCancel);
    }
    if m.contains(ActionKind::JumpCancel) {
        let k = choose|k: int| 0 <= k < m.len() && m[k] == ActionKind::JumpCancel;
        if !released {
            assert(m[k] != ActionKind::JumpCancel);
        }
    }
    if left != right {
        assert(m[0] == ActionKind::Move);
    }
    if m.contains(ActionKind::Move) {
        let k = choose|k: int| 0 <= k < m.len() && m[k] == ActionKind::Move;
        if left == right {
            assert(m[k] != ActionKind::Move);
        }
    }
}

/// One gamepad sends a move exactly when its stick moved and a jump exactly
/// when its south button was just pressed, move first; it never sends a
/// jump cancel, and every message carries its own index.
pub proof fn pad_messages_by_buttons(index: int, pad: GamepadReading)
    requires
        0 <= index <= usize::MAX,
    ensures
        pad_messages(index, pad).contains((index as usize, ActionKind::Move)) <==> pad.stick_moved,
        pad_messages(index, pad).contains((index as usize, ActionKind::Jump))
            <==> pad.south_just_pressed,
        forall|k: int|
            0 <= k < pad_messages(index, pad).len() ==> (#[trigger] pad_messages(index, pad)[k]).0
                == index as usize && pad_messages(index, pad)[k].1 != ActionKind::JumpCancel,
        pad_messages(index, pad).len() == (if pad.stick_moved {
            1int
        } else {
            0
        }) + (if pad.south_just_pressed {
            1int
        } else {
            0
        }),
        pad.stick_moved ==> pad_messages(index, pad)[0] == (index as usize, ActionKind::Move),
{
    let m = pad_messages(index, pad);
    let i = index as usize;
    let mv: Seq<(usize, ActionKind)> = if pad.stick_moved { seq![(i, ActionKind::Move)] } else { Seq::empty() };
    let jp: Seq<(usize, ActionKind)> = if pad.south_just_pressed { seq![(i, ActionKind::Jump)] } else { Seq::empty() };
    assert(m =~= mv + jp);
    if pad.stick_moved {
        assert(m[0] == (i, ActionKind::Move));
    }
    if m.contains((i, ActionKind::Move)) {
        let k = choose|k: int| 0 <= k < m.len() && m[k] == (i, ActionKind::Move);
        if !pad.stick_moved {
            assert(m[k].1 == ActionKind::Jump);
        }
    }
    if pad.south_just_pressed {
        assert(m[mv.len() as int] == (i, ActionKind::Jump));
    }
    if m.contains((i, ActionKind::Jump)) {
        let k = choose|k: int| 0 <= k < m.len() && m[k] == (i, ActionKind::Jump);
        if !pad.south_just_pressed {
            assert(m[k].1 == ActionKind::Move);
        }
    }
}

/// All gamepads' messages are each gamepad's own messages, one gamepad after
/// another: adding a gamepad appends exactly its messages.
pub proof fn gamepads_append_their_messages(pads: Seq<GamepadReading>, pad: GamepadReading)
    ensures
        gamepad_messages(pads.push(pad)) == gamepad_messages(pads) + pad_messages(
            pads.len() as int,
            pad,
        ),
        gamepad_messages(Seq::<GamepadReading>::empty()).len() == 0,
{
    assert(pads.push(pad).drop_last() =~= pads);
    assert(pads.push(pad).last() == pad);
}


// ---------------------------------------------------------------------------
// Level layout
// ---------------------------------------------------------------------------

/// The gym, left to right: the run-up ground and the three jump islands
/// share one floor height and leave gaps that widen (40, 70, 80); the wall
/// rises to y = 150; the ledge tower's lips step up by 100 and right by 110,
/// the first at y = 68; the right boundary is the rightmost and tallest
/// platform, and no two platforms overlap horizontally before it.
pub proof fn gym_sections()
    ensures
        gym_layout().len() == 9,
        forall|i: int| 1 <= i < 4 ==> top(#[trigger] gym_layout()[i]) == top(gym_layout()[0]),
        gap(gym_layout()[0], gym_layout()[1]) == 40,
        gap(gym_layout()[1], gym_layout()[2]) == 70,
        gap(gym_layout()[2], gym_layout()[3]) == 80,
        top(gym_layout()[4]) == 150,
        top(gym_layout()[5]) == 68,
        forall|i: int|
            5 <= i < 7 ==> top(#[trigger] gym_layout()[i + 1]) == top(gym_layout()[i]) + 100
                && gym_layout()[i + 1].x == gym_layout()[i].x + 110,
        forall|i: int|
            0 <= i < 7 ==> right_edge(#[trigger] gym_layout()[i]) <= left_edge(gym_layout()[i + 1]),
        forall|i: int|
            0 <= i < 8 ==> right_edge(#[trigger] gym_layout()[i]) < left_edge(gym_layout()[8])
                && gym_layout()[i].height < gym_layout()[8].height,
{
}

} // verus!
