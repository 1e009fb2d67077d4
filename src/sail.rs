//! Points of sail and the maneuver points that a change of heading costs.

use vstd::prelude::*;

use itertools::Itertools;

use crate::dir::{turn_path, Dir};
use crate::vector::V;

verus! {

/// The most maneuver points a vessel can hold.
pub const MANEUVER_MAX: u8 = 10;

/// The direction a vessel faces.
#[derive(Clone, Copy, PartialEq, Eq, Structural, Hash, Debug)]
pub struct Heading(pub Dir);

/// The direction of the wind.
#[derive(Clone, Copy, PartialEq, Eq, Structural, Hash, Debug)]
pub struct Wind(pub Dir);

/// How a heading lies to the wind, from the easiest to the hardest to hold.
#[derive(Clone, Copy, PartialEq, Eq, Structural, Hash, Debug, PartialOrd, Ord)]
pub enum PointOfSail {
    Running,
    BroadReach,
    BeamReach,
    CloseHauled,
    InIrons,
}

/// The point of sail for a wind `r` ring steps counter-clockwise of the
/// heading; it depends only on how far the wind is from dead astern.
pub open spec fn sail_for_offset(r: int) -> PointOfSail {
    if r == 0 {
        PointOfSail::Running
    } else if r == 1 || r == 7 {
        PointOfSail::BroadReach
    } else if r == 2 || r == 6 {
        PointOfSail::BeamReach
    } else if r == 3 || r == 5 {
        PointOfSail::CloseHauled
    } else {
        PointOfSail::InIrons
    }
}

/// The point of sail of heading `h` in wind `w`.
pub open spec fn point_of_sail(h: Heading, w: Wind) -> PointOfSail {
    sail_for_offset(w.0.spec_sub(h.0).0 as int)
}

/// What it costs to go from point of sail `prev` to `next`: nothing when it
/// stays, 1 when it gets easier, and the cost of `next` when it gets harder.
pub open spec fn step_cost(prev: PointOfSail, next: PointOfSail) -> nat {
    if prev.spec_rank() == next.spec_rank() {
        0
    } else if prev.spec_rank() > next.spec_rank() {
        1
    } else {
        next.spec_cost() as nat
    }
}

/// The sum of `step_cost` over each pair of neighbours in `s`.
pub open spec fn path_cost(s: Seq<PointOfSail>) -> nat
    decreases s.len(),
{
    if s.len() < 2 {
        0
    } else {
        path_cost(s.drop_last()) + step_cost(s[s.len() - 2], s.last())
    }
}

/// The points of sail of the headings `s` in wind `w`.
pub open spec fn sails_along(w: Wind, s: Seq<Dir>) -> Seq<PointOfSail> {
    s.map_values(|d: Dir| point_of_sail(Heading(d), w))
}

/// The maneuver points that turning from `h1` to `h2` in wind `w` costs:
/// `u8::MAX` for a reversal, else the cost along the shorter way round.
pub open spec fn maneuver_cost(w: Wind, h1: Heading, h2: Heading) -> nat {
    match turn_path(h1.0, h2.0) {
        None => u8::MAX as nat,
        Some(s) => path_cost(sails_along(w, s)),
    }
}

impl Heading {
    /// The headings passed through when turning from `self` to `rhs`; see
    /// `Dir::interpolate`.
    pub fn interpolate(self, rhs: Heading) -> (r: Option<Vec<Heading>>)
        requires
            self.0.wf(),
            rhs.0.wf(),
        ensures
            turn_path(self.0, rhs.0) == (match r {
                Some(v) => Some(v@.map_values(|h: Heading| h.0)),
                None => None::<Seq<Dir>>,
            }),
    {
        match self.0.interpolate(rhs.0) {
            None => None,
            Some(ds) => {
                let mut r: Vec<Heading> = Vec::new();
                let mut i: usize = 0;
                while i < ds.len()
                    invariant
                        i <= ds@.len(),
                        r@.len() == i,
                        forall|k: int| 0 <= k < i ==> r@[k].0 == ds@[k],
                    decreases ds@.len() - i,
                {
                    r.push(Heading(ds[i]));
                    i = i + 1;
                }
                assert(r@.map_values(|h: Heading| h.0) =~= ds@);
                Some(r)
            },
        }
    }
}

impl PointOfSail {
    /// The place of this point of sail in the order of difficulty.
    pub open spec fn spec_rank(self) -> u8 {
        match self {
            PointOfSail::Running => 0,
            PointOfSail::BroadReach => 1,
            PointOfSail::BeamReach => 2,
            PointOfSail::CloseHauled => 3,
            PointOfSail::InIrons => 4,
        }
    }

    pub open spec fn spec_cost(self) -> u8 {
        match self {
            PointOfSail::Running => 0,
            PointOfSail::BroadReach => 1,
            PointOfSail::BeamReach => 2,
            PointOfSail::CloseHauled => 4,
            PointOfSail::InIrons => 8,
        }
    }

    /// The place of this point of sail in the order of difficulty, from 0
    /// for running to 4 for in irons.
    #[verifier::when_used_as_spec(spec_rank)]
    pub fn rank(self) -> (r: u8)
        ensures
            r == self.spec_rank(),
    {
        match self {
            PointOfSail::Running => 0,
            PointOfSail::BroadReach => 1,
            PointOfSail::BeamReach => 2,
            PointOfSail::CloseHauled => 3,
            PointOfSail::InIrons => 4,
        }
    }

    /// The point of sail of heading `h` in wind `w`.
    pub fn pos(h: Heading, w: Wind) -> (r: PointOfSail)
        requires
            h.0.wf(),
            w.0.wf(),
        ensures
            r == point_of_sail(h, w),
    {
        match w.0.sub(h.0).u8() {
            0 => PointOfSail::Running,
            1 => PointOfSail::BroadReach,
            2 => PointOfSail::BeamReach,
            3 => PointOfSail::CloseHauled,
            4 => PointOfSail::InIrons,
            5 => PointOfSail::CloseHauled,
            6 => PointOfSail::BeamReach,
            _ => PointOfSail::BroadReach,
        }
    }

    /// The name of this point of sail, as shown to the player.
    pub fn name(self) -> (r: &'static str)
        ensures
            self == PointOfSail::Running ==> r@ == "running"@,
            self == PointOfSail::BroadReach ==> r@ == "broad reach"@,
            self == PointOfSail::BeamReach ==> r@ == "beam reach"@,
            self == PointOfSail::CloseHauled ==> r@ == "close hauled"@,
            self == PointOfSail::InIrons ==> r@ == "in irons"@,
    {
        match self {
            PointOfSail::Running => "running",
            PointOfSail::BroadReach => "broad reach",
            PointOfSail::BeamReach => "beam reach",
            PointOfSail::CloseHauled => "close hauled",
            PointOfSail::InIrons => "in irons",
        }
    }

    /// The maneuver points that turning onto this point of sail costs.
    #[verifier::when_used_as_spec(spec_cost)]
    pub fn cost(self) -> (r: u8)
        ensures
            r == self.spec_cost(),
    {
        match self {
            PointOfSail::Running => 0,
            PointOfSail::BroadReach => 1,
            PointOfSail::BeamReach => 2,
            PointOfSail::CloseHauled => 4,
            PointOfSail::InIrons => 8,
        }
    }
}

/// Relies on itertools' `Itertools::tuple_windows` with pairs: each item is
/// paired with the next one, in order, and fewer than two items give no pair.
#[verifier::external_body]
fn pairwise(v: &Vec<PointOfSail>) -> (r: Vec<(PointOfSail, PointOfSail)>)
    ensures
        r@.len() == (if v@.len() == 0 {
            0
        } else {
            v@.len() - 1
        }),
        forall|i: int| 0 <= i < r@.len() ==> r@[i] == (v@[i], v@[i + 1]),
{
    v.iter().copied().tuple_windows().collect()
}

/// The maneuver points a vessel holds.
#[derive(Clone, Copy, PartialEq, Eq, Structural, Hash, Debug, PartialOrd, Ord)]
pub struct Maneuver(pub u8);

impl Maneuver {
    /// A vessel holds between 0 and `MANEUVER_MAX` points.
    pub open spec fn wf(self) -> bool {
        self.0 <= MANEUVER_MAX
    }

    /// The maneuver points that turning from `h1` to `h2` in wind `w`
    /// costs; `u8::MAX` when `h2` is the reverse of `h1`.
    pub fn cost(w: Wind, h1: Heading, h2: Heading) -> (r: u8)
        requires
            w.0.wf(),
            h1.0.wf(),
            h2.0.wf(),
        ensures
            r == maneuver_cost(w, h1, h2),
    {
        match h1.interpolate(h2) {
            None => u8::MAX,
            Some(hs) => {
                let ghost path = hs@.map_values(|h: Heading| h.0);
                proof {
                    crate::dir::lemma_turn_path_len(h1.0, h2.0);
                    assert forall|k: int| 0 <= k < hs@.len() implies (#[trigger] hs@[k]).0.wf() by {
                        assert(path[k] == hs@[k].0);
                    }
                }
                let mut poss: Vec<PointOfSail> = Vec::new();
                let mut i: usize = 0;
                while i < hs.len()
                    invariant
                        i <= hs@.len(),
                        w.0.wf(),
                        forall|k: int| 0 <= k < hs@.len() ==> (#[trigger] hs@[k]).0.wf(),
                        poss@.len() == i,
                        forall|k: int| 0 <= k < i ==> poss@[k] == point_of_sail(hs@[k], w),
                    decreases hs@.len() - i,
                {
                    poss.push(PointOfSail::pos(hs[i], w));
                    i = i + 1;
                }
                assert(poss@ =~= sails_along(w, path));
                let pairs = pairwise(&poss);
                let mut cost: u8 = 0;
                let mut j: usize = 0;
                while j < pairs.len()
                    invariant
                        1 <= poss@.len() <= 5,
                        pairs@.len() == poss@.len() - 1,
                        forall|k: int| 0 <= k < pairs@.len() ==> pairs@[k] == (poss@[k], poss@[k + 1]),
                        j <= pairs@.len(),
                        cost == path_cost(poss@.take(j + 1)),
                        cost <= 8 * j,
                    decreases pairs@.len() - j,
                {
                    let (prev, next) = pairs[j];
                    let c = Maneuver::cost_1(prev, next);
                    assert(poss@.take(j + 2).drop_last() =~= poss@.take(j + 1));
                    cost = cost + c;
                    j = j + 1;
                }
                assert(poss@.take(j + 1) =~= poss@);
                cost
            },
        }
    }

    /// The cost of one step from point of sail `prev` to `next`.
    fn cost_1(prev: PointOfSail, next: PointOfSail) -> (r: u8)
        ensures
            r == step_cost(prev, next),
            r <= 8,
    {
        if prev.rank() == next.rank() {
            0
        } else if prev.rank() > next.rank() {
            1
        } else {
            next.cost()
        }
    }
}

} // verus!

verus! {

/// The point of sail depends only on how far the wind is from dead astern:
/// two headings whose wind offsets mirror each other around 0 (and so
/// around 4) lie the same way to the wind.
pub proof fn lemma_pos_symmetric(h: Heading, h2: Heading, w: Wind)
    requires
        h.0.wf(),
        h2.0.wf(),
        w.0.wf(),
        w.0.spec_sub(h.0).0 == (8 - w.0.spec_sub(h2.0).0) % 8,
    ensures
        point_of_sail(h, w) == point_of_sail(h2, w),
{
}

/// Keeping the heading costs nothing, whatever the wind.
pub proof fn lemma_hold_costs_nothing(w: Wind, h: Heading)
    requires
        w.0.wf(),
        h.0.wf(),
    ensures
        maneuver_cost(w, h, h) == 0,
{
    let s = turn_path(h.0, h.0)->Some_0;
    assert(s.len() == 1);
}

/// Turning onto the reverse heading costs `u8::MAX`, whatever the wind.
pub proof fn lemma_reversal_impossible(w: Wind, h: Heading)
    requires
        w.0.wf(),
        h.0.wf(),
    ensures
        maneuver_cost(w, h, Heading(h.0.reverse())) == u8::MAX,
{
}

} // verus!
