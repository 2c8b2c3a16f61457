use vstd::prelude::*;

verus! {

/// An axis-aligned static platform: its centre and its size, in world units.
#[derive(Clone, Copy, PartialEq, Eq, Debug, Structural)]
pub struct PlatformSpec {
    pub x: i32,
    pub y: i32,
    pub width: u32,
    pub height: u32,
}

pub open spec fn platform(x: int, y: int, width: nat, height: nat) -> PlatformSpec {
    PlatformSpec { x: x as i32, y: y as i32, width: width as u32, height: height as u32 }
}

pub open spec fn left_edge(p: PlatformSpec) -> int {
    p.x - p.width / 2
}

pub open spec fn right_edge(p: PlatformSpec) -> int {
    p.x + p.width / 2
}

pub open spec fn top(p: PlatformSpec) -> int {
    p.y + p.height / 2
}

/// Horizontal free space between a platform and the next one to its right.
pub open spec fn gap(a: PlatformSpec, b: PlatformSpec) -> int {
    left_edge(b) - right_edge(a)
}

/// The movement-test gym, left to right: the run-up ground, three jump
/// islands, the wall-jump wall, the three ledges of the ledge-grab tower and
/// the right boundary.
pub open spec fn gym_layout() -> Seq<PlatformSpec> {
    seq![
        platform(-450, -250, 500, 20),
        platform(-130, -250, 60, 20),
        platform(10, -250, 80, 20),
        platform(170, -250, 80, 20),
        platform(250, -50, 20, 400),
        platform(340, 60, 80, 16),
        platform(450, 160, 80, 16),
        platform(560, 260, 80, 16),
        platform(720, 0, 20, 600),
    ]
}

/// The platforms of the movement-test gym. Each section stresses one or two
/// movement verbs: the jump islands have progressively wider gaps (40, 70,
/// 80), the single wall tops out at y = 150, and the low ledge of the tower
/// tops out at y = 68; sections are built left to right.
pub fn gym_platforms() -> (platforms: Vec<PlatformSpec>)
    ensures
        platforms@ == gym_layout(),
        gap(platforms@[0], platforms@[1]) == 40,
        gap(platforms@[1], platforms@[2]) == 70,
        gap(platforms@[2], platforms@[3]) == 80,
        top(platforms@[4]) == 150,
        top(platforms@[5]) == 68,
        forall|i: int, j: int|
            0 <= i < j < platforms.len() ==> #[trigger] platforms@[i].x < #[trigger] platforms@[j].x,
{
    let platforms = vec![
        PlatformSpec { x: -450, y: -250, width: 500, height: 20 },
        PlatformSpec { x: -130, y: -250, width: 60, height: 20 },
        PlatformSpec { x: 10, y: -250, width: 80, height: 20 },
        PlatformSpec { x: 170, y: -250, width: 80, height: 20 },
        PlatformSpec { x: 250, y: -50, width: 20, height: 400 },
        PlatformSpec { x: 340, y: 60, width: 80, height: 16 },
        PlatformSpec { x: 450, y: 160, width: 80, height: 16 },
        PlatformSpec { x: 560, y: 260, width: 80, height: 16 },
        PlatformSpec { x: 720, y: 0, width: 20, height: 600 },
    ];
    assert(platforms@ =~= gym_layout());
    platforms
}

/// Where the player body is spawned: above the run-up ground.
pub open spec fn spawn_point() -> (int, int) {
    (-500, -180)
}

/// The player's spawn position (x, y): over the run-up ground of the gym,
/// above its top surface.
pub fn player_spawn() -> (pos: (i32, i32))
    ensures
        pos.0 == spawn_point().0,
        pos.1 == spawn_point().1,
        left_edge(gym_layout()[0]) <= pos.0 <= right_edge(gym_layout()[0]),
        pos.1 > top(gym_layout()[0]),
{
    (-500, -180)
}

/// The sprite parts of the player's humanoid silhouette.
#[derive(Clone, Copy, PartialEq, Eq, Debug, Structural)]
pub enum BodyPart {
    Head,
    Torso,
    LeftArm,
    RightArm,
    LeftLeg,
    RightLeg,
}

/// A body part's offset from the player body (x, y, and a depth z that puts
/// it in front of the body) and its sprite size.
#[derive(Clone, Copy, PartialEq, Eq, Debug, Structural)]
pub struct BodyPartSpec {
    pub part: BodyPart,
    pub x: i32,
    pub y: i32,
    pub z: i32,
    pub width: u32,
    pub height: u32,
}

pub open spec fn part(p: BodyPart, x: int, y: int, width: nat, height: nat) -> BodyPartSpec {
    BodyPartSpec { part: p, x: x as i32, y: y as i32, z: 1, width: width as u32, height: height as u32 }
}

/// The humanoid silhouette, in spawn order.
pub open spec fn humanoid() -> Seq<BodyPartSpec> {
    seq![
        part(BodyPart::Head, 0, 30, 14, 14),
        part(BodyPart::Torso, 0, 7, 14, 28),
        part(BodyPart::LeftArm, -10, 7, 5, 28),
        part(BodyPart::RightArm, 10, 7, 5, 28),
        part(BodyPart::LeftLeg, -4, -25, 6, 30),
        part(BodyPart::RightLeg, 4, -25, 6, 30),
    ]
}

/// The player's body parts. Left and right limbs mirror each other, every
/// part is drawn in front of the body, and the head sits above the torso,
/// which sits above the legs.
pub fn humanoid_parts() -> (parts: Vec<BodyPartSpec>)
    ensures
        parts@ == humanoid(),
        forall|i: int| 0 <= i < parts.len() ==> (#[trigger] parts@[i]).z == 1,
        parts@[2].x == -parts@[3].x && parts@[2].y == parts@[3].y && parts@[2].width
            == parts@[3].width && parts@[2].height == parts@[3].height,
        parts@[4].x == -parts@[5].x && parts@[4].y == parts@[5].y && parts@[4].width
            == parts@[5].width && parts@[4].height == parts@[5].height,
        parts@[0].y > parts@[1].y > parts@[4].y,
{
    let parts = vec![
        BodyPartSpec { part: BodyPart::Head, x: 0, y: 30, z: 1, width: 14, height: 14 },
        BodyPartSpec { part: BodyPart::Torso, x: 0, y: 7, z: 1, width: 14, height: 28 },
        BodyPartSpec { part: BodyPart::LeftArm, x: -10, y: 7, z: 1, width: 5, height: 28 },
        BodyPartSpec { part: BodyPart::RightArm, x: 10, y: 7, z: 1, width: 5, height: 28 },
        BodyPartSpec { part: BodyPart::LeftLeg, x: -4, y: -25, z: 1, width: 6, height: 30 },
        BodyPartSpec { part: BodyPart::RightLeg, x: 4, y: -25, z: 1, width: 6, height: 30 },
    ];
    assert(parts@ =~= humanoid());
    parts
}

} // verus!
