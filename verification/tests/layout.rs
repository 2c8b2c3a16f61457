use platformer_controller::layout::{gym_platforms, humanoid_parts, player_spawn, BodyPart, PlatformSpec};

fn left(p: &PlatformSpec) -> i64 {
    p.x as i64 - p.width as i64 / 2
}

fn right(p: &PlatformSpec) -> i64 {
    p.x as i64 + p.width as i64 / 2
}

fn top(p: &PlatformSpec) -> i64 {
    p.y as i64 + p.height as i64 / 2
}

#[test]
fn gym_has_nine_platforms_left_to_right() {
    let ps = gym_platforms();
    assert_eq!(ps.len(), 9);
    assert_eq!(ps[0], PlatformSpec { x: -450, y: -250, width: 500, height: 20 });
    assert_eq!(ps[8], PlatformSpec { x: 720, y: 0, width: 20, height: 600 });
    for w in ps.windows(2) {
        assert!(w[0].x < w[1].x);
    }
}

#[test]
fn jump_gaps_widen() {
    let ps = gym_platforms();
    assert_eq!(left(&ps[1]) - right(&ps[0]), 40);
    assert_eq!(left(&ps[2]) - right(&ps[1]), 70);
    assert_eq!(left(&ps[3]) - right(&ps[2]), 80);
}

#[test]
fn wall_and_ledge_heights() {
    let ps = gym_platforms();
    assert_eq!(top(&ps[4]), 150);
    assert_eq!(top(&ps[5]), 68);
    assert_eq!(top(&ps[6]), 168);
    assert_eq!(top(&ps[7]), 268);
}

#[test]
fn player_spawns_over_the_run_up() {
    let (x, y) = player_spawn();
    let ps = gym_platforms();
    assert_eq!((x, y), (-500, -180));
    assert!(left(&ps[0]) <= x as i64 && x as i64 <= right(&ps[0]));
    assert!(y as i64 > top(&ps[0]));
}

#[test]
fn humanoid_is_mirrored() {
    let parts = humanoid_parts();
    let order: Vec<BodyPart> = parts.iter().map(|p| p.part).collect();
    assert_eq!(
        order,
        vec![BodyPart::Head, BodyPart::Torso, BodyPart::LeftArm, BodyPart::RightArm, BodyPart::LeftLeg, BodyPart::RightLeg]
    );
    assert!(parts.iter().all(|p| p.z == 1));
    assert_eq!((parts[2].x, parts[3].x), (-10, 10));
    assert_eq!((parts[4].x, parts[5].x), (-4, 4));
    assert_eq!((parts[0].width, parts[0].height), (14, 14));
    assert_eq!((parts[1].y, parts[1].height), (7, 28));
    assert_eq!((parts[4].y, parts[4].width, parts[4].height), (-25, 6, 30));
}
