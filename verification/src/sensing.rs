use vstd::prelude::*;

use crate::wall::WallSide;

verus! {

// ---------------------------------------------------------------------------
// Ground contact
// ---------------------------------------------------------------------------

/// The controller stands on ground when some ground caster reports a hit
/// whose surface is walkable. `caster_hits[i][j]` tells whether hit `j` of
/// ground caster `i` is walkable (its slope within the controller's maximum
/// slope angle, or any hit when the controller has no such limit).
pub open spec fn grounded(caster_hits: Seq<Seq<bool>>) -> bool {
    exists|i: int, j: int|
        0 <= i < caster_hits.len() && 0 <= j < caster_hits[i].len() && #[trigger] caster_hits[i][j]
}

/// Whether any ground caster of the controller reports a walkable hit.
pub fn grounded_from_casters(caster_hits: &Vec<Vec<bool>>) -> (on_ground: bool)
    ensures
        on_ground == grounded(caster_hits@.map_values(|hits: Vec<bool>| hits@)),
{
    let ghost view = caster_hits@.map_values(|hits: Vec<bool>| hits@);
    let n = caster_hits.len();
    let mut i: usize = 0;
    while i < n
        invariant
            n == caster_hits.len(),
            i <= n,
            view == caster_hits@.map_values(|hits: Vec<bool>| hits@),
            forall|a: int, b: int|
                0 <= a < i && 0 <= b < view[a].len() ==> !#[trigger] view[a][b],
        decreases n - i,
    {
        let hits = &caster_hits[i];
        let m = hits.len();
        let mut j: usize = 0;
        while j < m
            invariant
                m == hits.len(),
                j <= m,
                i < n,
                n == caster_hits.len(),
                hits@ == view[i as int],
                view == caster_hits@.map_values(|hits: Vec<bool>| hits@),
                forall|b: int| 0 <= b < j ==> !#[trigger] view[i as int][b],
            decreases m - j,
        {
            if hits[j] {
                assert(view[i as int][j as int]);
                return true;
            }
            j += 1;
        }
        i += 1;
    }
    false
}

// ---------------------------------------------------------------------------
// Wall contact
// ---------------------------------------------------------------------------

/// What one child shape caster of the controller reports for wall contact.
/// `hit_pushes_right` / `hit_pushes_left` tell whether some hit separates the
/// caster to the right (a wall on its left) or to the left (a wall on its
/// right), with floors and ceilings already rejected.
#[derive(Clone, Copy, Debug)]
pub struct WallCasterReading {
    pub is_left_caster: bool,
    pub is_right_caster: bool,
    pub hit_pushes_right: bool,
    pub hit_pushes_left: bool,
}

/// The contact that one caster records, if any. A caster that is both a
/// left and a right caster records its right contact last, so it wins.
pub open spec fn caster_contact(c: WallCasterReading) -> Option<WallSide> {
    if c.is_right_caster && c.hit_pushes_left {
        Some(WallSide::Right)
    } else if c.is_left_caster && c.hit_pushes_right {
        Some(WallSide::Left)
    } else {
        None
    }
}

/// The wall the controller touches after all its casters have reported, in
/// order: each report replaces the previous one, so the last caster that
/// records a contact decides; with no contact at all there is no wall.
pub open spec fn wall_contact(casters: Seq<WallCasterReading>) -> Option<WallSide>
    decreases casters.len(),
{
    if casters.len() == 0 {
        None
    } else {
        match caster_contact(casters.last()) {
            Some(side) => Some(side),
            None => wall_contact(casters.drop_last()),
        }
    }
}

/// The wall side the controller touches this frame, from its casters' reports
/// in child order.
pub fn wall_contact_from_casters(casters: &Vec<WallCasterReading>) -> (touching: Option<WallSide>)
    ensures
        touching == wall_contact(casters@),
{
    let n = casters.len();
    let mut touching: Option<WallSide> = None;
    let mut i: usize = 0;
    while i < n
        invariant
            n == casters.len(),
            i <= n,
            touching == wall_contact(casters@.take(i as int)),
        decreases n - i,
    {
        let c = casters[i];
        assert(casters@.take(i + 1).drop_last() =~= casters@.take(i as int));
        assert(casters@.take(i + 1).last() == c);
        if c.is_right_caster && c.hit_pushes_left {
            touching = Some(WallSide::Right);
        } else if c.is_left_caster && c.hit_pushes_right {
            touching = Some(WallSide::Left);
        }
        i += 1;
    }
    assert(casters@.take(n as int) =~= casters@);
    touching
}

// ---------------------------------------------------------------------------
// Ledge grab
// ---------------------------------------------------------------------------

/// What one child shape caster of the controller reports for ledge grabbing:
/// whether it is the left or the right ledge probe, and whether its downward
/// cast found the top of a wall.
#[derive(Clone, Copy, Debug)]
pub struct LedgeProbeReading {
    pub is_left_probe: bool,
    pub is_right_probe: bool,
    pub has_hit: bool,
}

/// The side a probe looks at; a caster marked as both probes looks left, and
/// a caster that is no ledge probe has none.
pub open spec fn probe_side(p: LedgeProbeReading) -> Option<WallSide> {
    if p.is_left_probe {
        Some(WallSide::Left)
    } else if p.is_right_probe {
        Some(WallSide::Right)
    } else {
        None
    }
}

/// A probe offers a lip to grab on `side` when it looks at that side and hit.
pub open spec fn offers_lip(p: LedgeProbeReading, side: WallSide) -> bool {
    probe_side(p) == Some(side) && p.has_hit
}

/// Whether the controller may start hanging at all: it is not hanging
/// already, it is in the air, and it touches a wall.
pub open spec fn may_grab(hanging: bool, on_ground: bool, touching: Option<WallSide>) -> bool {
    !hanging && !on_ground && touching is Some
}

/// Decides a ledge grab. It returns the side of the grab and the index of the
/// probe whose first hit marks the lip: the first probe, in child order, that
/// looks at the wall being touched and hit something. No grab happens while
/// already hanging, while on the ground, without a wall, or without such a
/// probe.
pub fn ledge_grab_target(
    hanging: bool,
    on_ground: bool,
    touching: Option<WallSide>,
    probes: &Vec<LedgeProbeReading>,
) -> (grab: Option<(WallSide, usize)>)
    ensures
        match grab {
            Some((side, i)) => {
                &&& may_grab(hanging, on_ground, touching)
                &&& touching == Some(side)
                &&& i < probes.len()
                &&& offers_lip(probes@[i as int], side)
                &&& forall|j: int| 0 <= j < i ==> !offers_lip(#[trigger] probes@[j], side)
            },
            None => !may_grab(hanging, on_ground, touching) || forall|j: int|
                0 <= j < probes.len() ==> !offers_lip(#[trigger] probes@[j], touching.unwrap()),
        },
{
    if hanging || on_ground {
        return None;
    }
    let side = match touching {
        Some(s) => s,
        None => return None,
    };
    let n = probes.len();
    let mut i: usize = 0;
    while i < n
        invariant
            n == probes.len(),
            i <= n,
            touching == Some(side),
            !hanging && !on_ground,
            forall|j: int| 0 <= j < i ==> !offers_lip(#[trigger] probes@[j], side),
        decreases n - i,
    {
        let p = probes[i];
        let this_side = if p.is_left_probe {
            Some(WallSide::Left)
        } else if p.is_right_probe {
            Some(WallSide::Right)
        } else {
            None
        };
        match this_side {
            Some(s) => {
                if s == side && p.has_hit {
                    return Some((side, i));
                }
            },
            None => {},
        }
        i += 1;
    }
    None
}

} // verus!
