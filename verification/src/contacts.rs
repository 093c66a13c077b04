//! Contact generation: an all-pairs proximity test over predicted positions
//! that emits the active constraint set for the current step, together with
//! the arena that holds the constraints and their solver scratch values.

use vstd::prelude::*;

verus! {

use crate::fp::{SCALE, sadd, ssub, add_fp};
use crate::vec2::{
    Vec2,
    spec_vsub,
    spec_normal,
    spec_axis_normal,
    spec_dist,
    dist_fp,
    normal_from,
    axis_normal,
};
use crate::particles::Particles;

/// How the activation threshold (and rest length) of a pair is chosen:
/// a fixed distance shared by all pairs (abstract "linked" constraints), or
/// the sum of the two radii (physical contacts).
#[derive(Clone, Copy, Debug, PartialEq, Eq, Structural)]
pub enum ContactRule {
    Fixed(i64),
    RadiusSum,
}

/// One active constraint between the unordered particle pair `(a, b)`,
/// `a < b`.  `normal` points from `b` toward `a`; `rest` is the threshold
/// the pair was generated with.
#[derive(Clone, Copy, Debug, PartialEq, Eq, Structural)]
pub struct Contact {
    pub a: usize,
    pub b: usize,
    pub normal: Vec2,
    pub rest: i64,
    pub stiffness: i64,
}

/// The threshold (= rest length) of pair `(i, j)` under `rule`.
pub open spec fn spec_pair_rest(rad: Seq<i64>, rule: ContactRule, i: int, j: int) -> int {
    match rule {
        ContactRule::Fixed(t) => t as int,
        ContactRule::RadiusSum => sadd(rad[i] as int, rad[j] as int),
    }
}

/// Whether pair `(i, j)` is close enough to emit a constraint.
pub open spec fn spec_pair_active(
    pos: Seq<Vec2>,
    rad: Seq<i64>,
    rule: ContactRule,
    i: int,
    j: int,
) -> bool {
    spec_dist(pos[i], pos[j]) <= spec_pair_rest(rad, rule, i, j)
}

/// The normal of pair `(i, j)`: the normalized offset from `j` to `i`, or
/// the fixed first-axis fallback when the two points coincide exactly (the
/// documented deterministic policy for degenerate geometry).
pub open spec fn spec_pair_normal(pos: Seq<Vec2>, i: int, j: int) -> Vec2 {
    let d = spec_dist(pos[i], pos[j]);
    if d > 0 {
        spec_normal(spec_vsub(pos[i], pos[j]), d)
    } else {
        spec_axis_normal()
    }
}

/// The constraint emitted for an active pair `(i, j)`.
pub open spec fn spec_contact_of(
    pos: Seq<Vec2>,
    rad: Seq<i64>,
    rule: ContactRule,
    stiffness: i64,
    i: int,
    j: int,
) -> Contact {
    Contact {
        a: i as usize,
        b: j as usize,
        normal: spec_pair_normal(pos, i, j),
        rest: spec_pair_rest(rad, rule, i, j) as i64,
        stiffness: stiffness,
    }
}

/// The contacts emitted by the all-pairs sweep from pair `(i, j)` on, in
/// lexicographic pair order.
pub open spec fn spec_gen(
    pos: Seq<Vec2>,
    rad: Seq<i64>,
    rule: ContactRule,
    stiffness: i64,
    i: nat,
    j: nat,
) -> Seq<Contact>
    decreases pos.len() - i, pos.len() - j,
{
    if i >= pos.len() {
        Seq::empty()
    } else if j >= pos.len() {
        spec_gen(pos, rad, rule, stiffness, i + 1, i + 2)
    } else {
        let tail = spec_gen(pos, rad, rule, stiffness, i, j + 1);
        if spec_pair_active(pos, rad, rule, i as int, j as int) {
            seq![spec_contact_of(pos, rad, rule, stiffness, i as int, j as int)] + tail
        } else {
            tail
        }
    }
}

/// The full contact set of a configuration: every unordered pair `(i, j)`,
/// `i < j`, whose separation is at most its threshold.
pub open spec fn spec_contacts(
    pos: Seq<Vec2>,
    rad: Seq<i64>,
    rule: ContactRule,
    stiffness: i64,
) -> Seq<Contact> {
    spec_gen(pos, rad, rule, stiffness, 0, 1)
}

/// Every contact names two distinct particles below `n`, first index lower.
pub open spec fn contacts_bounded(cs: Seq<Contact>, n: int) -> bool {
    forall|k: int|
        0 <= k < cs.len() ==> {
            &&& (#[trigger] cs[k]).a < cs[k].b
            &&& (cs[k].b as int) < n
        }
}

/// Every contact carries the given stiffness.
pub open spec fn contacts_stiff(cs: Seq<Contact>, stiffness: i64) -> bool {
    forall|k: int| 0 <= k < cs.len() ==> (#[trigger] cs[k]).stiffness == stiffness
}

/// The generated contact set is well-formed.
pub proof fn lemma_gen_in_range(
    pos: Seq<Vec2>,
    rad: Seq<i64>,
    rule: ContactRule,
    stiffness: i64,
    i: nat,
    j: nat,
)
    requires
        i < j,
        pos.len() <= usize::MAX,
    ensures
        contacts_bounded(spec_gen(pos, rad, rule, stiffness, i, j), pos.len() as int),
        contacts_stiff(spec_gen(pos, rad, rule, stiffness, i, j), stiffness),
    decreases pos.len() - i, pos.len() - j,
{
    if i >= pos.len() {
    } else if j >= pos.len() {
        lemma_gen_in_range(pos, rad, rule, stiffness, i + 1, i + 2);
    } else {
        lemma_gen_in_range(pos, rad, rule, stiffness, i, j + 1);
        let tail = spec_gen(pos, rad, rule, stiffness, i, j + 1);
        if spec_pair_active(pos, rad, rule, i as int, j as int) {
            let c = spec_contact_of(pos, rad, rule, stiffness, i as int, j as int);
            let whole = seq![c] + tail;
            assert(whole[0] == c);
            assert(forall|k: int| 1 <= k < whole.len() ==> whole[k] == tail[k - 1]);
            assert(contacts_bounded(whole, pos.len() as int));
            assert(contacts_stiff(whole, stiffness));
        }
    }
}

/// The constraint arena: the per-step contact list and its index-aligned
/// solver scratch values (accumulated multiplier, residual, preconditioner).
/// It is rebuilt from scratch at every step; nothing persists across steps.
pub struct Constraints {
    pub contacts: Vec<Contact>,
    pub multiplier: Vec<i64>,
    pub gradient: Vec<i64>,
    pub precond: Vec<i64>,
}

impl Constraints {
    /// The scratch arrays are index-aligned with the contact list.
    pub open spec fn wf(&self) -> bool {
        &&& self.multiplier@.len() == self.contacts@.len()
        &&& self.gradient@.len() == self.contacts@.len()
        &&& self.precond@.len() == self.contacts@.len()
    }

    /// The number of active constraints.
    pub fn len(&self) -> (n: usize)
        ensures
            n == self.contacts@.len(),
    {
        self.contacts.len()
    }

    /// An empty arena.
    pub fn new() -> (r: Constraints)
        ensures
            r.wf(),
            r.contacts@.len() == 0,
    {
        Constraints {
            contacts: Vec::new(),
            multiplier: Vec::new(),
            gradient: Vec::new(),
            precond: Vec::new(),
        }
    }

    /// Clear the arena and emit one constraint for every unordered pair of
    /// predicted positions within its threshold, with zero-initialized
    /// multiplier, residual, and preconditioner.
    pub fn regenerate(&mut self, ps: &Particles, rule: ContactRule, stiffness: i64)
        requires
            ps.wf(),
        ensures
            final(self).wf(),
            final(self).contacts@ == spec_contacts(ps.predicted@, ps.radius@, rule, stiffness),
            contacts_bounded(final(self).contacts@, ps.position@.len() as int),
            contacts_stiff(final(self).contacts@, stiffness),
            forall|k: int|
                0 <= k < final(self).contacts@.len() ==> {
                    &&& final(self).multiplier@[k] == 0
                    &&& final(self).gradient@[k] == 0
                    &&& final(self).precond@[k] == 0
                },
    {
        self.contacts.clear();
        self.multiplier.clear();
        self.gradient.clear();
        self.precond.clear();
        let n = ps.predicted.len();
        proof {
            lemma_gen_in_range(ps.predicted@, ps.radius@, rule, stiffness, 0, 1);
        }
        let ghost full = spec_contacts(ps.predicted@, ps.radius@, rule, stiffness);
        let mut i: usize = 0;
        while i < n
            invariant
                ps.wf(),
                n == ps.predicted@.len(),
                i <= n,
                self.contacts@ + spec_gen(
                    ps.predicted@,
                    ps.radius@,
                    rule,
                    stiffness,
                    i as nat,
                    (i + 1) as nat,
                ) == full,
                self.multiplier@.len() == self.contacts@.len(),
                self.gradient@.len() == self.contacts@.len(),
                self.precond@.len() == self.contacts@.len(),
                forall|k: int|
                    0 <= k < self.contacts@.len() ==> {
                        &&& self.multiplier@[k] == 0
                        &&& self.gradient@[k] == 0
                        &&& self.precond@[k] == 0
                    },
            decreases n - i,
        {
            let mut j: usize = i + 1;
            while j < n
                invariant
                    ps.wf(),
                    n == ps.predicted@.len(),
                    i < n,
                    i < j,
                    j <= n,
                    self.contacts@ + spec_gen(
                        ps.predicted@,
                        ps.radius@,
                        rule,
                        stiffness,
                        i as nat,
                        j as nat,
                    ) == full,
                    self.multiplier@.len() == self.contacts@.len(),
                    self.gradient@.len() == self.contacts@.len(),
                    self.precond@.len() == self.contacts@.len(),
                    forall|k: int|
                        0 <= k < self.contacts@.len() ==> {
                            &&& self.multiplier@[k] == 0
                            &&& self.gradient@[k] == 0
                            &&& self.precond@[k] == 0
                        },
                decreases n - j,
            {
                let pi = ps.predicted[i];
                let pj = ps.predicted[j];
                let d = dist_fp(pi, pj);
                let rest = match rule {
                    ContactRule::Fixed(t) => t,
                    ContactRule::RadiusSum => add_fp(ps.radius[i], ps.radius[j]),
                };
                let ghost before = self.contacts@;
                if d <= rest {
                    let normal = if d > 0 {
                        normal_from(pi.minus(pj), d)
                    } else {
                        axis_normal()
                    };
                    let c = Contact { a: i, b: j, normal, rest, stiffness };
                    self.contacts.push(c);
                    self.multiplier.push(0);
                    self.gradient.push(0);
                    self.precond.push(0);
                    proof {
                        assert(c == spec_contact_of(
                            ps.predicted@,
                            ps.radius@,
                            rule,
                            stiffness,
                            i as int,
                            j as int,
                        ));
                        assert(self.contacts@ + spec_gen(
                            ps.predicted@,
                            ps.radius@,
                            rule,
                            stiffness,
                            i as nat,
                            (j + 1) as nat,
                        ) =~= before + spec_gen(
                            ps.predicted@,
                            ps.radius@,
                            rule,
                            stiffness,
                            i as nat,
                            j as nat,
                        ));
                    }
                } else {
                    proof {
                        assert(spec_gen(
                            ps.predicted@,
                            ps.radius@,
                            rule,
                            stiffness,
                            i as nat,
                            j as nat,
                        ) == spec_gen(
                            ps.predicted@,
                            ps.radius@,
                            rule,
                            stiffness,
                            i as nat,
                            (j + 1) as nat,
                        ));
                    }
                }
                j = j + 1;
            }
            i = i + 1;
        }
        proof {
            assert(spec_gen(
                ps.predicted@,
                ps.radius@,
                rule,
                stiffness,
                i as nat,
                (i + 1) as nat,
            ) =~= Seq::<Contact>::empty());
            assert(self.contacts@ =~= full);
        }
    }
}

} // verus!
