//! The eight compass directions as a ring of integers modulo 8.

use vstd::prelude::*;

use crate::vector::V;

verus! {

/// One of eight compass directions: 0 is east, and each step of the ring
/// turns a further eighth of a circle counter-clockwise.
#[derive(Clone, Copy, PartialEq, Eq, Structural, Hash, Debug)]
pub struct Dir(pub u8);

/// The ring values of the eight compass directions, east first.
pub const RIGHT: u8 = 0;
pub const UPRIGHT: u8 = 1;
pub const UP: u8 = 2;
pub const UPLEFT: u8 = 3;
pub const LEFT: u8 = 4;
pub const DOWNLEFT: u8 = 5;
pub const DOWN: u8 = 6;
pub const DOWNRIGHT: u8 = 7;

/// The number of counter-clockwise ring steps that lead from `a` to `b`.
pub open spec fn ring_dist(a: Dir, b: Dir) -> int {
    (b.0 + 8 - a.0) % 8
}

/// The direction `k` ring steps counter-clockwise from `a`.
pub open spec fn ring_at(a: Dir, k: int) -> Dir {
    Dir(((a.0 + k) % 8) as u8)
}

/// The headings passed through when turning from `a` to `b` along the
/// shorter way round, both ends included; none when the two are opposite.
pub open spec fn turn_path(a: Dir, b: Dir) -> Option<Seq<Dir>> {
    let n = ring_dist(a, b);
    if n == 4 {
        None
    } else if n < 4 {
        Some(Seq::new((n + 1) as nat, |i: int| ring_at(a, i)))
    } else {
        Some(Seq::new((9 - n) as nat, |i: int| ring_at(a, 8 - i)))
    }
}

impl Dir {
    /// A direction is a value of the ring 0..8.
    pub open spec fn wf(self) -> bool {
        self.0 < 8
    }

    pub open spec fn spec_add(self, rhs: Dir) -> Dir {
        Dir(((self.0 + rhs.0) % 8) as u8)
    }

    pub open spec fn spec_sub(self, rhs: Dir) -> Dir {
        Dir(((self.0 + 8 - rhs.0) % 8) as u8)
    }

    pub open spec fn spec_reverse(self) -> Dir {
        self.spec_add(Dir(4))
    }

    /// The unit or diagonal displacement of one step in this direction.
    pub open spec fn spec_v(self) -> V {
        if self.0 == 0 {
            V { x: 1, y: 0 }
        } else if self.0 == 1 {
            V { x: 1, y: 1 }
        } else if self.0 == 2 {
            V { x: 0, y: 1 }
        } else if self.0 == 3 {
            V { x: -1i8, y: 1 }
        } else if self.0 == 4 {
            V { x: -1i8, y: 0 }
        } else if self.0 == 5 {
            V { x: -1i8, y: -1i8 }
        } else if self.0 == 6 {
            V { x: 0, y: -1i8 }
        } else {
            V { x: 1, y: -1i8 }
        }
    }

    /// The grid displacement of one step in this direction.
    #[verifier::when_used_as_spec(spec_v)]
    pub fn v(self) -> (r: V)
        requires
            self.wf(),
        ensures
            r == self.spec_v(),
    {
        match self.0 {
            0 => V { x: 1, y: 0 },
            1 => V { x: 1, y: 1 },
            2 => V { x: 0, y: 1 },
            3 => V { x: -1, y: 1 },
            4 => V { x: -1, y: 0 },
            5 => V { x: -1, y: -1 },
            6 => V { x: 0, y: -1 },
            _ => V { x: 1, y: -1 },
        }
    }

    /// An arrow that points in this direction.
    pub fn arrow(self) -> (r: &'static str)
        requires
            self.wf(),
        ensures
            self.0 == 0 ==> r@ == "\u{2192}"@,
            self.0 == 1 ==> r@ == "\u{2197}"@,
            self.0 == 2 ==> r@ == "\u{2191}"@,
            self.0 == 3 ==> r@ == "\u{2196}"@,
            self.0 == 4 ==> r@ == "\u{2190}"@,
            self.0 == 5 ==> r@ == "\u{2199}"@,
            self.0 == 6 ==> r@ == "\u{2193}"@,
            self.0 == 7 ==> r@ == "\u{2198}"@,
    {
        match self.0 {
            0 => "\u{2192}",
            1 => "\u{2197}",
            2 => "\u{2191}",
            3 => "\u{2196}",
            4 => "\u{2190}",
            5 => "\u{2199}",
            6 => "\u{2193}",
            _ => "\u{2198}",
        }
    }

    /// The ring value of this direction.
    pub fn u8(self) -> (r: u8)
        ensures
            r == self.0,
    {
        self.0
    }

    /// Rotation: `(self + rhs) mod 8`.
    #[verifier::when_used_as_spec(spec_add)]
    pub fn add(self, rhs: Dir) -> (r: Dir)
        requires
            self.wf(),
            rhs.wf(),
        ensures
            r == self.spec_add(rhs),
            r.wf(),
    {
        Dir((self.0 + rhs.0) % 8)
    }

    /// Ring difference: `(self - rhs + 8) mod 8`.
    #[verifier::when_used_as_spec(spec_sub)]
    pub fn sub(self, rhs: Dir) -> (r: Dir)
        requires
            self.wf(),
            rhs.wf(),
        ensures
            r == self.spec_sub(rhs),
            r.wf(),
    {
        Dir((self.0 + 8 - rhs.0) % 8)
    }

    /// The opposite direction, `self + 4`.
    #[verifier::when_used_as_spec(spec_reverse)]
    pub fn reverse(self) -> (r: Dir)
        requires
            self.wf(),
        ensures
            r == self.spec_reverse(),
            r.0 == (self.0 + 4) % 8,
            r.wf(),
    {
        self.add(Dir(4))
    }
    /// The headings from `self` to `rhs`, one ring step at a time along the
    /// shorter way round, both ends included. Opposite directions have two
    /// equally long ways round and give `None`.
    pub fn interpolate(self, rhs: Dir) -> (r: Option<Vec<Dir>>)
        requires
            self.wf(),
            rhs.wf(),
        ensures
            turn_path(self, rhs) == (match r {
                Some(v) => Some(v@),
                None => None::<Seq<Dir>>,
            }),
    {
        let n: u8 = rhs.sub(self).0;
        if n == 4 {
            None
        } else if n < 4 {
            let mut results: Vec<Dir> = Vec::new();
            let mut diff: u8 = 0;
            while diff <= n
                invariant
                    n < 4,
                    n == ring_dist(self, rhs),
                    self.wf(),
                    diff <= n + 1,
                    results@.len() == diff,
                    forall|i: int| 0 <= i < diff ==> results@[i] == ring_at(self, i),
                decreases n + 1 - diff,
            {
                results.push(self.add(Dir(diff)));
                diff = diff + 1;
            }
            assert(results@ =~= Seq::new((n + 1) as nat, |i: int| ring_at(self, i)));
            Some(results)
        } else {
            let mut results: Vec<Dir> = Vec::new();
            let mut diff: u8 = 8;
            while diff >= n
                invariant
                    4 < n < 8,
                    n == ring_dist(self, rhs),
                    self.wf(),
                    n - 1 <= diff <= 8,
                    results@.len() == 8 - diff,
                    forall|i: int| 0 <= i < 8 - diff ==> results@[i] == ring_at(self, 8 - i),
                decreases diff,
            {
                results.push(self.add(Dir(diff % 8)));
                diff = diff - 1;
            }
            assert(results@ =~= Seq::new((9 - n) as nat, |i: int| ring_at(self, 8 - i)));
            Some(results)
        }
    }
}

} // verus!

verus! {

/// Reversing a direction twice gives it back, and reversing is adding 4.
pub proof fn lemma_reverse_involutive(d: Dir)
    requires
        d.wf(),
    ensures
        d.reverse().reverse() == d,
        d.reverse() == d.add(Dir(4)),
{
}

/// Interpolation fails exactly for opposite directions. Otherwise the path
/// starts at `a`, ends at `b`, and each heading is one ring step after the
/// one before it, all counter-clockwise or all clockwise.
pub proof fn lemma_turn_path_steps(a: Dir, b: Dir)
    requires
        a.wf(),
        b.wf(),
    ensures
        turn_path(a, b) is None <==> ring_dist(a, b) == 4,
        turn_path(a, b) matches Some(s) ==> {
            &&& s[0] == a
            &&& s.last() == b
            &&& s.len() >= 1
            &&& {
                ||| forall|i: int| 0 <= i < s.len() - 1 ==> s[i + 1] == s[i].add(Dir(1))
                ||| forall|i: int| 0 <= i < s.len() - 1 ==> s[i + 1] == s[i].sub(Dir(1))
            }
        },
{
    let n = ring_dist(a, b);
    lemma_ring_end(a, b);
    if n < 4 {
        let s = turn_path(a, b)->Some_0;
        assert forall|i: int| 0 <= i < s.len() - 1 implies s[i + 1] == s[i].add(Dir(1)) by {
            lemma_ring_forward(a.0 as int, i);
        }
    } else if n > 4 {
        let s = turn_path(a, b)->Some_0;
        assert forall|i: int| 0 <= i < s.len() - 1 implies s[i + 1] == s[i].sub(Dir(1)) by {
            lemma_ring_backward(a.0 as int, i);
        }
    }
}

proof fn lemma_ring_end(a: Dir, b: Dir)
    requires
        a.wf(),
        b.wf(),
    ensures
        ring_at(a, 0) == a,
        ring_at(a, ring_dist(a, b)) == b,
        ring_at(a, 8 - (8 - ring_dist(a, b))) == b,
        ring_at(a, 8) == a,
{
}

proof fn lemma_ring_forward(x: int, i: int)
    requires
        0 <= x < 8,
        0 <= i < 8,
    ensures
        (((x + i) % 8) + 1) % 8 == (x + i + 1) % 8,
{
}

proof fn lemma_ring_backward(x: int, i: int)
    requires
        0 <= x < 8,
        0 <= i < 8,
    ensures
        (((x + 8 - i) % 8) + 8 - 1) % 8 == (x + 8 - (i + 1)) % 8,
{
}

/// The path from `a` to `b` has `min(n, 8 - n) + 1` headings, where `n` is
/// the counter-clockwise ring distance from `a` to `b`.
pub proof fn lemma_turn_path_len(a: Dir, b: Dir)
    requires
        a.wf(),
        b.wf(),
    ensures
        turn_path(a, b) matches Some(s) ==> s.len() == (if ring_dist(a, b) < 8 - ring_dist(a, b) {
            ring_dist(a, b)
        } else {
            8 - ring_dist(a, b)
        }) + 1,
{
}

} // verus!
