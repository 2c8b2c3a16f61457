use vstd::prelude::*;

use crate::wall::{push_direction, WallSide};

verus! {

/// What a movement message asks for. A `Move` message also carries a
/// horizontal direction, which only scales the caller's velocity change and
/// plays no part in the decisions made here.
#[derive(Clone, Copy, PartialEq, Eq, Debug, Structural)]
pub enum ActionKind {
    Move,
    Jump,
    JumpCancel,
}

/// The effect of one movement message on one controller.
#[derive(Clone, Copy, PartialEq, Eq, Debug, Structural)]
pub enum EventEffect {
    /// `Move` on the ground: the horizontal velocity gains
    /// direction × acceleration × frame time.
    Accelerate,
    /// `Move` in the air against a wall: the fall speed is capped (wall slide).
    SlideOnWall,
    /// `Move` in the air away from walls: no velocity change.
    Drift,
    /// `Jump`: the jump buffer is refilled to its full time.
    BufferJump,
    /// `JumpCancel` while rising: the vertical velocity is cut.
    CutRise,
    /// `JumpCancel` while not rising: no velocity change.
    NoCut,
}

/// The effect of `action` on a controller that is (or is not) on the ground,
/// touches (or does not touch) a wall, and is (or is not) rising.
pub open spec fn effect_of(action: ActionKind, on_ground: bool, touching_wall: bool, rising: bool) -> EventEffect {
    match action {
        ActionKind::Move => if on_ground {
            EventEffect::Accelerate
        } else if touching_wall {
            EventEffect::SlideOnWall
        } else {
            EventEffect::Drift
        },
        ActionKind::Jump => EventEffect::BufferJump,
        ActionKind::JumpCancel => if rising {
            EventEffect::CutRise
        } else {
            EventEffect::NoCut
        },
    }
}

/// Every `Move` message marks the controller as moving for this frame.
pub open spec fn marks_moving(effect: EventEffect) -> bool {
    match effect {
        EventEffect::Accelerate | EventEffect::SlideOnWall | EventEffect::Drift => true,
        _ => false,
    }
}

impl EventEffect {
    /// Whether this effect marks the controller as moving this frame.
    pub fn is_move(self) -> (moving: bool)
        ensures
            moving == marks_moving(self),
    {
        match self {
            EventEffect::Accelerate | EventEffect::SlideOnWall | EventEffect::Drift => true,
            _ => false,
        }
    }
}

/// The effects of this frame's movement messages, in order, on a controller
/// with the given ground and wall contact that is (or is not) rising when
/// the frame starts. No effect changes whether the controller is rising: a
/// move changes the horizontal velocity or caps a fall, and a cut keeps a
/// rising velocity rising.
pub fn event_effects(
    on_ground: bool,
    touching: Option<WallSide>,
    rising: bool,
    events: &Vec<ActionKind>,
) -> (effects: Vec<EventEffect>)
    ensures
        effects.len() == events.len(),
        forall|i: int|
            0 <= i < events.len() ==> #[trigger] effects@[i] == effect_of(
                events@[i],
                on_ground,
                touching is Some,
                rising,
            ),
{
    let touching_wall = touching.is_some();
    let mut effects: Vec<EventEffect> = Vec::new();
    let n = events.len();
    let mut i: usize = 0;
    while i < n
        invariant
            n == events.len(),
            i <= n,
            touching_wall == touching is Some,
            effects.len() == i,
            forall|k: int|
                0 <= k < i ==> #[trigger] effects@[k] == effect_of(
                    events@[k],
                    on_ground,
                    touching_wall,
                    rising,
                ),
        decreases n - i,
    {
        let effect = match events[i] {
            ActionKind::Move => if on_ground {
                EventEffect::Accelerate
            } else if touching_wall {
                EventEffect::SlideOnWall
            } else {
                EventEffect::Drift
            },
            ActionKind::Jump => EventEffect::BufferJump,
            ActionKind::JumpCancel => if rising {
                EventEffect::CutRise
            } else {
                EventEffect::NoCut
            },
        };
        effects.push(effect);
        i += 1;
    }
    effects
}

/// What the jump buffer does for a controller once the frame's messages are
/// handled.
#[derive(Clone, Copy, PartialEq, Eq, Debug, Structural)]
pub enum JumpOutcome {
    /// No jump is buffered: nothing happens.
    Idle,
    /// A buffered jump on the ground: the vertical velocity becomes the jump
    /// impulse; the buffer is left as it is.
    GroundJump,
    /// A buffered jump while falling along a wall: the vertical velocity
    /// becomes the jump impulse, the horizontal velocity the impulse pushed
    /// away from the wall, and the buffer is emptied.
    WallJump(WallSide),
    /// A buffered jump against a wall while still rising (or at rest): the
    /// jump waits, the buffer is kept.
    HoldOnWall,
    /// A buffered jump in open air: the buffer runs down by the frame time,
    /// never below zero.
    Decay,
}

impl JumpOutcome {
    /// Whether the vertical velocity becomes the jump impulse: on a ground
    /// jump and on a wall jump.
    pub fn launches(self) -> (launch: bool)
        ensures
            launch == (self == JumpOutcome::GroundJump || self is WallJump),
    {
        match self {
            JumpOutcome::GroundJump | JumpOutcome::WallJump(_) => true,
            _ => false,
        }
    }

    /// The horizontal push of a wall jump, as a sign that scales the jump
    /// impulse: away from the wall. Other outcomes leave the horizontal
    /// velocity alone.
    pub fn wall_push(self) -> (push: Option<i8>)
        ensures
            match self {
                JumpOutcome::WallJump(side) => push == Some(push_direction(side) as i8),
                _ => push is None,
            },
    {
        match self {
            JumpOutcome::WallJump(side) => Some(side.direction()),
            _ => None,
        }
    }

    /// Whether the jump buffer is emptied: only a wall jump consumes it.
    pub fn empties_buffer(self) -> (empty: bool)
        ensures
            empty == self is WallJump,
    {
        match self {
            JumpOutcome::WallJump(_) => true,
            _ => false,
        }
    }

    /// Whether the jump buffer runs down by the frame time: only in open air.
    pub fn runs_down_buffer(self) -> (run_down: bool)
        ensures
            run_down == (self == JumpOutcome::Decay),
    {
        match self {
            JumpOutcome::Decay => true,
            _ => false,
        }
    }
}

/// The jump decision for a controller: `buffered` tells whether its jump
/// buffer holds time left, `rising_or_still` whether its vertical velocity is
/// not negative.
pub open spec fn outcome_of(
    buffered: bool,
    on_ground: bool,
    touching: Option<WallSide>,
    rising_or_still: bool,
) -> JumpOutcome {
    if !buffered {
        JumpOutcome::Idle
    } else if on_ground {
        JumpOutcome::GroundJump
    } else {
        match touching {
            Some(side) => if rising_or_still {
                JumpOutcome::HoldOnWall
            } else {
                JumpOutcome::WallJump(side)
            },
            None => JumpOutcome::Decay,
        }
    }
}

/// Decides what the jump buffer does for a controller this frame.
pub fn jump_outcome(
    buffered: bool,
    on_ground: bool,
    touching: Option<WallSide>,
    rising_or_still: bool,
) -> (outcome: JumpOutcome)
    ensures
        outcome == outcome_of(buffered, on_ground, touching, rising_or_still),
{
    if !buffered {
        JumpOutcome::Idle
    } else if on_ground {
        JumpOutcome::GroundJump
    } else {
        match touching {
            Some(side) => if rising_or_still {
                JumpOutcome::HoldOnWall
            } else {
                JumpOutcome::WallJump(side)
            },
            None => JumpOutcome::Decay,
        }
    }
}

} // verus!

verus! {

/// The sign of a controller's vertical velocity when a frame starts. The
/// frame's messages never change it (see `event_effects`), so it also holds
/// when the jump decision is taken.
#[derive(Clone, Copy, PartialEq, Eq, Debug, Structural)]
pub enum VerticalMotion {
    /// Moving up.
    Rising,
    /// Neither up nor down.
    AtRest,
    /// Moving down (or no comparable velocity at all).
    Falling,
}

/// Whether a jump is buffered when the jump decision is taken: it was before
/// the frame, or a `Jump` message of this frame refilled the buffer.
pub open spec fn buffered_after(buffered_before: bool, events: Seq<ActionKind>) -> bool {
    buffered_before || events.contains(ActionKind::Jump)
}

/// Everything a controller does in one frame of movement: the effect of each
/// message, then the jump decision.
pub struct FrameDecision {
    pub effects: Vec<EventEffect>,
    pub outcome: JumpOutcome,
}

/// One frame of a controller's movement. `buffered_before` tells whether its
/// jump buffer held time left before this frame's messages; a `Jump` message
/// refills it, so the jump decision sees a buffered jump exactly when one was
/// buffered before or a `Jump` message arrived.
pub fn controller_frame(
    buffered_before: bool,
    on_ground: bool,
    touching: Option<WallSide>,
    vertical: VerticalMotion,
    events: &Vec<ActionKind>,
) -> (frame: FrameDecision)
    ensures
        frame.effects.len() == events.len(),
        forall|i: int|
            0 <= i < events.len() ==> #[trigger] frame.effects@[i] == effect_of(
                events@[i],
                on_ground,
                touching is Some,
                vertical == VerticalMotion::Rising,
            ),
        frame.outcome == outcome_of(
            buffered_after(buffered_before, events@),
            on_ground,
            touching,
            vertical != VerticalMotion::Falling,
        ),
{
    let rising = match vertical {
        VerticalMotion::Rising => true,
        _ => false,
    };
    let rising_or_still = match vertical {
        VerticalMotion::Falling => false,
        _ => true,
    };
    let effects = event_effects(on_ground, touching, rising, events);
    let mut jump_arrived = false;
    let n = events.len();
    let mut i: usize = 0;
    while i < n
        invariant
            n == events.len(),
            i <= n,
            jump_arrived == events@.take(i as int).contains(ActionKind::Jump),
        decreases n - i,
    {
        let ghost next = events@.take((i + 1) as int);
        assert(next =~= events@.take(i as int).push(events@[i as int]));
        if events[i] == ActionKind::Jump {
            assert(next[i as int] == ActionKind::Jump);
            jump_arrived = true;
        } else {
            proof {
                if next.contains(ActionKind::Jump) {
                    let k = choose|k: int| 0 <= k < next.len() && next[k] == ActionKind::Jump;
                    assert(events@.take(i as int)[k] == ActionKind::Jump);
                }
            }
        }
        i += 1;
    }
    assert(events@.take(n as int) =~= events@);
    let outcome = jump_outcome(buffered_before || jump_arrived, on_ground, touching, rising_or_still);
    FrameDecision { effects, outcome }
}

} // verus!
