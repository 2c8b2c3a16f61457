use platformer_controller::input::{gamepad_actions, keyboard_actions, keyboard_horizontal, GamepadReading};
use platformer_controller::movement::{
    controller_frame, event_effects, jump_outcome, ActionKind, EventEffect, JumpOutcome, VerticalMotion,
};
use platformer_controller::sensing::{
    grounded_from_casters, ledge_grab_target, wall_contact_from_casters, LedgeProbeReading,
    WallCasterReading,
};
use platformer_controller::wall::WallSide;

#[test]
fn pushing_off_a_left_wall_sends_you_right() {
    assert_eq!(WallSide::Left.direction(), 1);
    assert_eq!(WallSide::Right.direction(), -1);
}

#[test]
fn keyboard_horizontal_direction() {
    assert_eq!(keyboard_horizontal(false, false), 0);
    assert_eq!(keyboard_horizontal(true, false), -1);
    assert_eq!(keyboard_horizontal(false, true), 1);
    assert_eq!(keyboard_horizontal(true, true), 0);
}

#[test]
fn keyboard_messages_in_order() {
    assert_eq!(keyboard_actions(false, false, false, false), vec![]);
    assert_eq!(keyboard_actions(true, true, false, false), vec![]);
    assert_eq!(keyboard_actions(true, false, false, false), vec![ActionKind::Move]);
    assert_eq!(
        keyboard_actions(false, true, true, true),
        vec![ActionKind::Move, ActionKind::Jump, ActionKind::JumpCancel]
    );
    assert_eq!(keyboard_actions(false, false, false, true), vec![ActionKind::JumpCancel]);
}

#[test]
fn gamepad_messages_pad_after_pad() {
    let pads = vec![
        GamepadReading { stick_moved: true, south_just_pressed: true },
        GamepadReading { stick_moved: false, south_just_pressed: false },
        GamepadReading { stick_moved: false, south_just_pressed: true },
        GamepadReading { stick_moved: true, south_just_pressed: false },
    ];
    assert_eq!(
        gamepad_actions(&pads),
        vec![(0, ActionKind::Move), (0, ActionKind::Jump), (2, ActionKind::Jump), (3, ActionKind::Move)]
    );
    assert_eq!(gamepad_actions(&vec![]), vec![]);
}

#[test]
fn grounded_needs_a_walkable_hit() {
    assert!(!grounded_from_casters(&vec![]));
    assert!(!grounded_from_casters(&vec![vec![], vec![false, false]]));
    assert!(grounded_from_casters(&vec![vec![false], vec![false, true]]));
    assert!(grounded_from_casters(&vec![vec![true]]));
}

fn caster(left: bool, right: bool, pushes_right: bool, pushes_left: bool) -> WallCasterReading {
    WallCasterReading {
        is_left_caster: left,
        is_right_caster: right,
        hit_pushes_right: pushes_right,
        hit_pushes_left: pushes_left,
    }
}

#[test]
fn wall_contact_last_report_wins() {
    assert_eq!(wall_contact_from_casters(&vec![]), None);
    // a ground caster never reports a wall, whatever its hits
    assert_eq!(wall_contact_from_casters(&vec![caster(false, false, true, true)]), None);
    // a left caster only sees walls that push it right
    assert_eq!(wall_contact_from_casters(&vec![caster(true, false, false, true)]), None);
    assert_eq!(wall_contact_from_casters(&vec![caster(true, false, true, false)]), Some(WallSide::Left));
    assert_eq!(wall_contact_from_casters(&vec![caster(false, true, false, true)]), Some(WallSide::Right));
    // later casters replace earlier contacts
    assert_eq!(
        wall_contact_from_casters(&vec![caster(false, true, false, true), caster(true, false, true, false)]),
        Some(WallSide::Left)
    );
    // a caster without contact keeps the earlier one
    assert_eq!(
        wall_contact_from_casters(&vec![caster(false, true, false, true), caster(true, false, false, false)]),
        Some(WallSide::Right)
    );
    // within one caster the right contact is recorded last
    assert_eq!(wall_contact_from_casters(&vec![caster(true, true, true, true)]), Some(WallSide::Right));
}

fn probe(left: bool, right: bool, hit: bool) -> LedgeProbeReading {
    LedgeProbeReading { is_left_probe: left, is_right_probe: right, has_hit: hit }
}

#[test]
fn ledge_grab_decisions() {
    let probes = vec![
        probe(false, false, true),
        probe(true, false, false),
        probe(false, true, true),
        probe(true, false, true),
        probe(true, false, true),
    ];
    assert_eq!(ledge_grab_target(false, false, Some(WallSide::Left), &probes), Some((WallSide::Left, 3)));
    assert_eq!(ledge_grab_target(false, false, Some(WallSide::Right), &probes), Some((WallSide::Right, 2)));
    assert_eq!(ledge_grab_target(true, false, Some(WallSide::Left), &probes), None);
    assert_eq!(ledge_grab_target(false, true, Some(WallSide::Left), &probes), None);
    assert_eq!(ledge_grab_target(false, false, None, &probes), None);
    let no_lip = vec![probe(true, false, false), probe(false, true, true)];
    assert_eq!(ledge_grab_target(false, false, Some(WallSide::Left), &no_lip), None);
    // a caster marked as both probes looks left
    let both = vec![probe(true, true, true)];
    assert_eq!(ledge_grab_target(false, false, Some(WallSide::Right), &both), None);
    assert_eq!(ledge_grab_target(false, false, Some(WallSide::Left), &both), Some((WallSide::Left, 0)));
}

#[test]
fn event_effects_by_contact() {
    let events = vec![ActionKind::Move, ActionKind::Jump, ActionKind::JumpCancel, ActionKind::Move];
    assert_eq!(
        event_effects(true, Some(WallSide::Left), true, &events),
        vec![EventEffect::Accelerate, EventEffect::BufferJump, EventEffect::CutRise, EventEffect::Accelerate]
    );
    assert_eq!(
        event_effects(false, Some(WallSide::Right), true, &events),
        vec![EventEffect::SlideOnWall, EventEffect::BufferJump, EventEffect::CutRise, EventEffect::SlideOnWall]
    );
    assert_eq!(
        event_effects(false, None, false, &events),
        vec![EventEffect::Drift, EventEffect::BufferJump, EventEffect::NoCut, EventEffect::Drift]
    );
    assert_eq!(event_effects(true, None, true, &vec![]), vec![]);
}

#[test]
fn only_move_marks_moving() {
    assert!(EventEffect::Accelerate.is_move());
    assert!(EventEffect::SlideOnWall.is_move());
    assert!(EventEffect::Drift.is_move());
    assert!(!EventEffect::BufferJump.is_move());
    assert!(!EventEffect::CutRise.is_move());
    assert!(!EventEffect::NoCut.is_move());
}

#[test]
fn jump_outcomes() {
    assert_eq!(jump_outcome(false, true, None, true), JumpOutcome::Idle);
    assert_eq!(jump_outcome(false, false, Some(WallSide::Left), false), JumpOutcome::Idle);
    assert_eq!(jump_outcome(true, true, Some(WallSide::Left), false), JumpOutcome::GroundJump);
    assert_eq!(jump_outcome(true, true, None, true), JumpOutcome::GroundJump);
    assert_eq!(jump_outcome(true, false, Some(WallSide::Left), false), JumpOutcome::WallJump(WallSide::Left));
    assert_eq!(jump_outcome(true, false, Some(WallSide::Right), false), JumpOutcome::WallJump(WallSide::Right));
    assert_eq!(jump_outcome(true, false, Some(WallSide::Right), true), JumpOutcome::HoldOnWall);
    assert_eq!(jump_outcome(true, false, None, false), JumpOutcome::Decay);
    assert_eq!(jump_outcome(true, false, None, true), JumpOutcome::Decay);
}

#[test]
fn wall_jump_pushes_away_from_the_wall() {
    for side in [WallSide::Left, WallSide::Right] {
        if let JumpOutcome::WallJump(s) = jump_outcome(true, false, Some(side), false) {
            assert_eq!(s, side);
            let push = s.direction();
            match side {
                WallSide::Left => assert!(push > 0),
                WallSide::Right => assert!(push < 0),
            }
        } else {
            panic!("expected a wall jump");
        }
    }
}

#[test]
fn jump_outcome_velocity_and_buffer_changes() {
    let all = [
        JumpOutcome::Idle,
        JumpOutcome::GroundJump,
        JumpOutcome::WallJump(WallSide::Left),
        JumpOutcome::WallJump(WallSide::Right),
        JumpOutcome::HoldOnWall,
        JumpOutcome::Decay,
    ];
    let launches: Vec<bool> = all.iter().map(|o| o.launches()).collect();
    assert_eq!(launches, vec![false, true, true, true, false, false]);
    let pushes: Vec<Option<i8>> = all.iter().map(|o| o.wall_push()).collect();
    assert_eq!(pushes, vec![None, None, Some(1), Some(-1), None, None]);
    let empties: Vec<bool> = all.iter().map(|o| o.empties_buffer()).collect();
    assert_eq!(empties, vec![false, false, true, true, false, false]);
    let runs_down: Vec<bool> = all.iter().map(|o| o.runs_down_buffer()).collect();
    assert_eq!(runs_down, vec![false, false, false, false, false, true]);
}

#[test]
fn ground_jump_keeps_the_buffer() {
    let outcome = jump_outcome(true, true, None, false);
    assert!(outcome.launches());
    assert!(!outcome.empties_buffer());
    assert!(!outcome.runs_down_buffer());
}

#[test]
fn jump_cancel_cuts_only_while_rising() {
    let cancel = vec![ActionKind::JumpCancel];
    assert_eq!(event_effects(false, None, true, &cancel), vec![EventEffect::CutRise]);
    assert_eq!(event_effects(false, None, false, &cancel), vec![EventEffect::NoCut]);
    assert_eq!(event_effects(true, Some(WallSide::Left), false, &cancel), vec![EventEffect::NoCut]);
}

#[test]
fn frame_jump_message_is_seen_the_same_frame() {
    let events = vec![ActionKind::Move, ActionKind::Jump];
    let frame = controller_frame(false, true, None, VerticalMotion::Falling, &events);
    assert_eq!(frame.effects, vec![EventEffect::Accelerate, EventEffect::BufferJump]);
    assert_eq!(frame.outcome, JumpOutcome::GroundJump);

    let frame = controller_frame(false, false, Some(WallSide::Right), VerticalMotion::Falling, &events);
    assert_eq!(frame.effects, vec![EventEffect::SlideOnWall, EventEffect::BufferJump]);
    assert_eq!(frame.outcome, JumpOutcome::WallJump(WallSide::Right));

    let frame = controller_frame(false, false, Some(WallSide::Right), VerticalMotion::AtRest, &events);
    assert_eq!(frame.outcome, JumpOutcome::HoldOnWall);

    let frame = controller_frame(false, false, None, VerticalMotion::Rising, &events);
    assert_eq!(frame.outcome, JumpOutcome::Decay);
}

#[test]
fn frame_without_jump_message_uses_earlier_buffer() {
    let events = vec![ActionKind::JumpCancel, ActionKind::Move];
    let frame = controller_frame(false, true, None, VerticalMotion::Rising, &events);
    assert_eq!(frame.effects, vec![EventEffect::CutRise, EventEffect::Accelerate]);
    assert_eq!(frame.outcome, JumpOutcome::Idle);
    let frame = controller_frame(true, true, None, VerticalMotion::Rising, &events);
    assert_eq!(frame.outcome, JumpOutcome::GroundJump);
    let frame = controller_frame(true, false, None, VerticalMotion::AtRest, &vec![]);
    assert!(frame.effects.is_empty());
    assert_eq!(frame.outcome, JumpOutcome::Decay);
}
