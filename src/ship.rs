//! A vessel's state and how one action changes it.

use vstd::prelude::*;

use crate::dir::Dir;
use crate::sail::{maneuver_cost, point_of_sail, Heading, Maneuver, PointOfSail, Wind, MANEUVER_MAX};
use crate::vector::V;

verus! {

/// Where a vessel stands on the grid.
#[derive(Clone, Copy, PartialEq, Eq, Structural, Hash, Debug)]
pub struct Position(pub V);

/// Marks the vessel that the player steers.
#[derive(Clone, Copy, PartialEq, Eq, Structural, Hash, Debug)]
pub struct Player;

/// What the player asks of the vessel in one step.
#[derive(Clone, Copy, PartialEq, Eq, Structural, Hash, Debug)]
pub enum Action {
    Move(Dir),
    Wait,
}

/// The heading that action `a` asks for, from heading `h`.
pub open spec fn target_of(h: Heading, a: Action) -> Dir {
    match a {
        Action::Move(d) => d,
        Action::Wait => h.0,
    }
}

/// The points left after paying `cost` out of `m`: a free action wins one
/// point back, up to the maximum.
pub open spec fn points_after(m: u8, cost: nat) -> u8 {
    if cost == 0 {
        if m >= MANEUVER_MAX {
            MANEUVER_MAX
        } else {
            (m + 1) as u8
        }
    } else {
        (m - cost) as u8
    }
}

/// One step of `Position` `p` in direction `d`.
pub open spec fn advanced(p: Position, d: Dir) -> Position {
    Position(V { x: (p.0.x + d.spec_v().x) as i8, y: (p.0.y + d.spec_v().y) as i8 })
}

/// Carries out `action` in wind `wind`. When the vessel has the maneuver
/// points that the turn costs, it pays them (a free action wins one back,
/// up to the maximum), takes the new heading, and advances one step along
/// it unless its heading before the action lay in irons. Otherwise nothing
/// changes. Only a step that is actually taken has to stay on the `i8` grid.
pub fn move_ship(
    p: &mut Position,
    h: &mut Heading,
    m: &mut Maneuver,
    wind: Wind,
    action: Action,
)
    requires
        old(h).0.wf(),
        wind.0.wf(),
        action matches Action::Move(d) ==> d.wf(),
        ({
            let target = target_of(*old(h), action);
            maneuver_cost(wind, *old(h), Heading(target)) <= old(m).0 && point_of_sail(
                *old(h),
                wind,
            ) != PointOfSail::InIrons ==> i8::MIN <= old(p).0.x + target.spec_v().x <= i8::MAX
                && i8::MIN <= old(p).0.y + target.spec_v().y <= i8::MAX
        }),
    ensures
        old(m).wf() ==> final(m).wf(),
        final(h).0.wf(),
        ({
            let target = target_of(*old(h), action);
            let cost = maneuver_cost(wind, *old(h), Heading(target));
            if cost <= old(m).0 {
                &&& final(m).0 == points_after(old(m).0, cost)
                &&& *final(h) == Heading(target)
                &&& *final(p) == (if point_of_sail(*old(h), wind) == PointOfSail::InIrons {
                    *old(p)
                } else {
                    advanced(*old(p), target)
                })
            } else {
                &&& *final(m) == *old(m)
                &&& *final(h) == *old(h)
                &&& *final(p) == *old(p)
            }
        }),
{
    let pos = PointOfSail::pos(*h, wind);
    let target: Dir = match action {
        Action::Wait => h.0,
        Action::Move(dir) => dir,
    };
    let cost = Maneuver::cost(wind, *h, Heading(target));
    if cost <= m.0 {
        m.0 = m.0 - cost;
        if cost == 0 {
            m.0 = if m.0 >= MANEUVER_MAX {
                MANEUVER_MAX
            } else {
                m.0 + 1
            };
        }
        h.0 = target;
        if pos != PointOfSail::InIrons {
            p.0 = p.0.add(target.v());
        }
    }
}

} // verus!
