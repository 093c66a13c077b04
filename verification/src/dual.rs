//! The dual constraint solver: preconditioned projected-gradient ascent on
//! the Lagrange multiplier of each compliant constraint.  Every iteration
//! reads only state committed at the end of the previous iteration (Jacobi
//! discipline); the applied multiplier deltas become equal-and-opposite
//! velocity updates scaled by inverse mass, and positions are re-derived
//! from velocities and the fixed start-of-step positions.

use vstd::prelude::*;

verus! {

use crate::fp::{SCALE, sat64, sadd, ssub, fmul, fdiv, add_fp, sub_fp, mul_fp, div_fp, neg_fp};
use crate::vec2::{Vec2, spec_vadd, spec_vsub, spec_vscale, spec_vdot};
use crate::particles::{Particles, spec_rederived};
use crate::contacts::{Contact, Constraints, contacts_bounded};

/// The state a dual iteration reads and writes: velocities, positions, and
/// the per-constraint multiplier, residual, and preconditioner.
#[verifier::ext_equal]
pub struct DualState {
    pub vel: Seq<Vec2>,
    pub pos: Seq<Vec2>,
    pub mult: Seq<i64>,
    pub grad: Seq<i64>,
    pub prec: Seq<i64>,
}

/// The dual state held by a particle store and a constraint arena.
pub open spec fn dual_state_of(ps: Particles, cs: Constraints) -> DualState {
    DualState {
        vel: ps.velocity@,
        pos: ps.position@,
        mult: cs.multiplier@,
        grad: cs.gradient@,
        prec: cs.precond@,
    }
}

/// Constraint violation: the offset of pair `(a, b)` along the normal,
/// minus the rest length.  Zero means exactly satisfied.
pub open spec fn spec_violation(pos: Seq<Vec2>, c: Contact) -> int {
    ssub(spec_vdot(spec_vsub(pos[c.a as int], pos[c.b as int]), c.normal), c.rest as int)
}

/// The residual (dual gradient) of one constraint: minus the violation,
/// minus compliance times the accumulated multiplier.
pub open spec fn spec_gradient(pos: Seq<Vec2>, c: Contact, m: int, compliance: int) -> int {
    ssub(sat64(-spec_violation(pos, c)), fmul(m, compliance))
}

/// The diagonal preconditioner of one constraint: the reciprocal of the sum
/// of the two inverse masses and the compliance.  When that sum is zero
/// (two immovable particles under a rigid constraint) the preconditioner is
/// zero, so the constraint applies no impulse.
pub open spec fn spec_precond(w: Seq<i64>, c: Contact, compliance: int) -> int {
    let d = sadd(sadd(w[c.a as int] as int, w[c.b as int] as int), compliance);
    if d > 0 {
        fdiv(SCALE as int, d)
    } else {
        0
    }
}

/// The new multiplier after one relaxed step: in inequality (unilateral)
/// mode it is projected onto the non-negative half-line, so contacts only
/// ever push; in equality mode it may take either sign.
pub open spec fn spec_new_mult(m: int, delta: int, unilateral: bool) -> int {
    let m1 = sadd(m, delta);
    if unilateral && m1 < 0 {
        0
    } else {
        m1
    }
}

/// Apply one contact's impulse to the two velocities it touches: equal and
/// opposite, each side scaled by its inverse mass.
pub open spec fn apply_one(vel: Seq<Vec2>, c: Contact, applied: i64, w: Seq<i64>) -> Seq<Vec2> {
    if (c.a as int) < vel.len() && (c.b as int) < vel.len() && (c.a as int) < w.len() && (
    c.b as int) < w.len() {
        let p = spec_vscale(c.normal, applied as int);
        let v1 = vel.update(
            c.a as int,
            spec_vadd(vel[c.a as int], spec_vscale(p, w[c.a as int] as int)),
        );
        v1.update(c.b as int, spec_vsub(v1[c.b as int], spec_vscale(p, w[c.b as int] as int)))
    } else {
        vel
    }
}

/// Apply the first `k` contacts' impulses in order.
pub open spec fn apply_impulses(
    vel: Seq<Vec2>,
    contacts: Seq<Contact>,
    applied: Seq<i64>,
    w: Seq<i64>,
    k: nat,
) -> Seq<Vec2>
    decreases k,
{
    if k == 0 {
        vel
    } else {
        let prev = apply_impulses(vel, contacts, applied, w, (k - 1) as nat);
        apply_one(prev, contacts[k - 1], applied[k - 1], w)
    }
}

/// Applying impulses never changes the number of particles.
pub proof fn lemma_apply_impulses_len(
    vel: Seq<Vec2>,
    contacts: Seq<Contact>,
    applied: Seq<i64>,
    w: Seq<i64>,
    k: nat,
)
    ensures
        apply_impulses(vel, contacts, applied, w, k).len() == vel.len(),
    decreases k,
{
    if k > 0 {
        lemma_apply_impulses_len(vel, contacts, applied, w, (k - 1) as nat);
    }
}

/// One dual iteration under Jacobi discipline: residuals and preconditioners
/// for every constraint from the committed state, then the (projected)
/// multiplier updates, then the velocity impulses, then every position
/// re-derived from its velocity and the fixed start-of-step position.
pub open spec fn dual_iter_spec(
    s: DualState,
    contacts: Seq<Contact>,
    w: Seq<i64>,
    last_pos: Seq<Vec2>,
    compliance: int,
    relax: int,
    dt: int,
    unilateral: bool,
) -> DualState {
    let nc = contacts.len();
    let grad = Seq::new(
        nc,
        |k: int| spec_gradient(s.pos, contacts[k], s.mult[k] as int, compliance) as i64,
    );
    let prec = Seq::new(nc, |k: int| spec_precond(w, contacts[k], compliance) as i64);
    let mult = Seq::new(
        nc,
        |k: int|
            spec_new_mult(
                s.mult[k] as int,
                fmul(fmul(relax, prec[k] as int), grad[k] as int),
                unilateral,
            ) as i64,
    );
    let applied = Seq::new(nc, |k: int| ssub(mult[k] as int, s.mult[k] as int) as i64);
    let vel = apply_impulses(s.vel, contacts, applied, w, nc);
    let pos = Seq::new(s.pos.len(), |i: int| spec_rederived(vel[i], last_pos[i], dt));
    DualState { vel, pos, mult, grad, prec }
}

/// `iters` dual iterations from `s`.
pub open spec fn dual_solve_spec(
    s: DualState,
    contacts: Seq<Contact>,
    w: Seq<i64>,
    last_pos: Seq<Vec2>,
    compliance: int,
    relax: int,
    dt: int,
    unilateral: bool,
    iters: nat,
) -> DualState
    decreases iters,
{
    if iters == 0 {
        s
    } else {
        dual_iter_spec(
            dual_solve_spec(
                s,
                contacts,
                w,
                last_pos,
                compliance,
                relax,
                dt,
                unilateral,
                (iters - 1) as nat,
            ),
            contacts,
            w,
            last_pos,
            compliance,
            relax,
            dt,
            unilateral,
        )
    }
}

/// The first `k` multipliers and applied deltas have been updated from
/// `mult0` by one relaxed, possibly projected, step.
pub open spec fn mult_phase_done(
    mult: Seq<i64>,
    applied: Seq<i64>,
    mult0: Seq<i64>,
    prec: Seq<i64>,
    grad: Seq<i64>,
    relax: int,
    unilateral: bool,
    k: int,
) -> bool {
    forall|t: int|
        0 <= t < k ==> {
            &&& (#[trigger] mult[t]) as int == spec_new_mult(
                mult0[t] as int,
                fmul(fmul(relax, prec[t] as int), grad[t] as int),
                unilateral,
            )
            &&& applied[t] as int == ssub(mult[t] as int, mult0[t] as int)
        }
}

/// One dual iteration over the whole constraint set.
pub fn dual_iteration(
    ps: &mut Particles,
    cs: &mut Constraints,
    compliance: i64,
    relax: i64,
    dt: i64,
    unilateral: bool,
)
    requires
        old(ps).wf(),
        old(cs).wf(),
        contacts_bounded(old(cs).contacts@, old(ps).position@.len() as int),
    ensures
        final(ps).wf(),
        final(cs).wf(),
        final(cs).contacts@ == old(cs).contacts@,
        final(ps).position@.len() == old(ps).position@.len(),
        final(ps).predicted@ == old(ps).predicted@,
        final(ps).last_position@ == old(ps).last_position@,
        final(ps).last_velocity@ == old(ps).last_velocity@,
        final(ps).inv_mass@ == old(ps).inv_mass@,
        final(ps).radius@ == old(ps).radius@,
        dual_state_of(*final(ps), *final(cs)) == dual_iter_spec(
            dual_state_of(*old(ps), *old(cs)),
            old(cs).contacts@,
            old(ps).inv_mass@,
            old(ps).last_position@,
            compliance as int,
            relax as int,
            dt as int,
            unilateral,
        ),
{
    let ghost s0 = dual_state_of(*ps, *cs);
    let ghost target = dual_iter_spec(
        s0,
        cs.contacts@,
        ps.inv_mass@,
        ps.last_position@,
        compliance as int,
        relax as int,
        dt as int,
        unilateral,
    );
    let nc = cs.contacts.len();
    let np = ps.position.len();

    // Residual and preconditioner for every constraint, from committed state.
    let mut k: usize = 0;
    while k < nc
        invariant
            k <= nc,
            old(ps).wf(),
            old(cs).wf(),
            *ps == *old(ps),
            np == ps.position@.len(),
            nc == cs.contacts@.len(),
            contacts_bounded(cs.contacts@, np as int),
            cs.contacts@ == old(cs).contacts@,
            cs.multiplier@ == old(cs).multiplier@,
            cs.gradient@.len() == nc,
            cs.precond@.len() == nc,
            forall|t: int|
                0 <= t < k ==> {
                    &&& cs.gradient@[t] as int == spec_gradient(
                        ps.position@,
                        cs.contacts@[t],
                        cs.multiplier@[t] as int,
                        compliance as int,
                    )
                    &&& cs.precond@[t] as int == spec_precond(
                        ps.inv_mass@,
                        cs.contacts@[t],
                        compliance as int,
                    )
                },
        decreases nc - k,
    {
        let c = cs.contacts[k];
        let pa = ps.position[c.a];
        let pb = ps.position[c.b];
        let viol = sub_fp(pa.minus(pb).dot(c.normal), c.rest);
        let g = sub_fp(neg_fp(viol), mul_fp(cs.multiplier[k], compliance));
        let wa = ps.inv_mass[c.a];
        let wb = ps.inv_mass[c.b];
        let d = add_fp(add_fp(wa, wb), compliance);
        let p = if d > 0 {
            div_fp(SCALE, d)
        } else {
            0
        };
        cs.gradient[k] = g;
        cs.precond[k] = p;
        k = k + 1;
    }

    proof {
        assert(cs.gradient@ =~= target.grad);
        assert(cs.precond@ =~= target.prec);
    }

    // Projected multiplier updates; record each applied delta.
    let mut applied: Vec<i64> = Vec::new();
    let ghost mult0 = cs.multiplier@;
    let mut k: usize = 0;
    while k < nc
        invariant
            k <= nc,
            old(ps).wf(),
            old(cs).wf(),
            *ps == *old(ps),
            np == ps.position@.len(),
            nc == cs.contacts@.len(),
            contacts_bounded(cs.contacts@, np as int),
            cs.contacts@ == old(cs).contacts@,
            cs.gradient@ == target.grad,
            cs.precond@ == target.prec,
            cs.gradient@.len() == nc,
            cs.precond@.len() == nc,
            mult0 == old(cs).multiplier@,
            cs.multiplier@.len() == nc,
            applied@.len() == k,
            forall|t: int| k <= t < nc ==> cs.multiplier@[t] == mult0[t],
            mult_phase_done(
                cs.multiplier@,
                applied@,
                mult0,
                target.prec,
                target.grad,
                relax as int,
                unilateral,
                k as int,
            ),
        decreases nc - k,
    {
        let m0 = cs.multiplier[k];
        let delta = mul_fp(mul_fp(relax, cs.precond[k]), cs.gradient[k]);
        let m1 = add_fp(m0, delta);
        let m2 = if unilateral && m1 < 0 {
            0
        } else {
            m1
        };
        let ghost mult_before = cs.multiplier@;
        let ghost applied_before = applied@;
        cs.multiplier[k] = m2;
        applied.push(sub_fp(m2, m0));
        let ghost kprev = k as int;
        k = k + 1;
        proof {
            assert forall|t: int| 0 <= t < k implies ({
                &&& (#[trigger] cs.multiplier@[t]) as int == spec_new_mult(
                    mult0[t] as int,
                    fmul(
                        fmul(relax as int, target.prec[t] as int),
                        target.grad[t] as int,
                    ),
                    unilateral,
                )
                &&& applied@[t] as int == ssub(cs.multiplier@[t] as int, mult0[t] as int)
            }) by {
                if t < kprev {
                    assert(cs.multiplier@[t] == mult_before[t]);
                    assert(applied@[t] == applied_before[t]);
                    assert(mult_before[t] as int == spec_new_mult(
                        mult0[t] as int,
                        fmul(
                            fmul(relax as int, target.prec[t] as int),
                            target.grad[t] as int,
                        ),
                        unilateral,
                    ));
                    assert(applied_before[t] as int == ssub(
                        mult_before[t] as int,
                        mult0[t] as int,
                    ));
                } else {
                    assert(t == kprev);
                }
            }
            assert(mult_phase_done(
                cs.multiplier@,
                applied@,
                mult0,
                target.prec,
                target.grad,
                relax as int,
                unilateral,
                k as int,
            ));
        }
    }
    proof {
        assert forall|t: int| 0 <= t < nc implies cs.multiplier@[t] == target.mult[t] by {
            assert(target.mult[t] as int == spec_new_mult(
                mult0[t] as int,
                fmul(
                    fmul(relax as int, target.prec[t] as int),
                    target.grad[t] as int,
                ),
                unilateral,
            ));
        }
        assert(cs.multiplier@ =~= target.mult);
        assert(applied@ =~= Seq::new(
            nc as nat,
            |t: int| ssub(target.mult[t] as int, mult0[t] as int) as i64,
        ));
    }

    // Equal-and-opposite velocity impulses, scaled by inverse mass.
    let ghost vel0 = ps.velocity@;
    let mut k: usize = 0;
    while k < nc
        invariant
            k <= nc,
            old(ps).wf(),
            old(cs).wf(),
            cs.multiplier@ == target.mult,
            cs.gradient@ == target.grad,
            cs.precond@ == target.prec,
            cs.wf(),
            ps.position@ == old(ps).position@,
            ps.predicted@ == old(ps).predicted@,
            ps.last_position@ == old(ps).last_position@,
            ps.last_velocity@ == old(ps).last_velocity@,
            ps.inv_mass@ == old(ps).inv_mass@,
            ps.radius@ == old(ps).radius@,
            np == ps.position@.len(),
            nc == cs.contacts@.len(),
            contacts_bounded(cs.contacts@, np as int),
            cs.contacts@ == old(cs).contacts@,
            applied@.len() == nc,
            vel0 == old(ps).velocity@,
            vel0.len() == np,
            ps.velocity@ == apply_impulses(vel0, cs.contacts@, applied@, ps.inv_mass@, k as nat),
            ps.velocity@.len() == np,
        decreases nc - k,
    {
        let c = cs.contacts[k];
        let ak = applied[k];
        let pvec = c.normal.scaled(ak);
        let wa = ps.inv_mass[c.a];
        let wb = ps.inv_mass[c.b];
        let va = ps.velocity[c.a];
        ps.velocity[c.a] = va.plus(pvec.scaled(wa));
        let vb = ps.velocity[c.b];
        ps.velocity[c.b] = vb.minus(pvec.scaled(wb));
        proof {
            assert(ps.velocity@ =~= apply_one(
                apply_impulses(vel0, cs.contacts@, applied@, ps.inv_mass@, k as nat),
                cs.contacts@[k as int],
                applied@[k as int],
                ps.inv_mass@,
            ));
        }
        k = k + 1;
    }
    proof {
        assert(ps.velocity@ =~= target.vel);
    }

    // Re-derive all positions from the updated velocities.
    ps.rederive(dt);
    proof {
        assert(ps.position@ =~= target.pos);
        assert(dual_state_of(*ps, *cs) =~= target);
    }
}

/// Run `iters` dual iterations over the constraint set.
pub fn dual_solve(
    ps: &mut Particles,
    cs: &mut Constraints,
    compliance: i64,
    relax: i64,
    dt: i64,
    unilateral: bool,
    iters: usize,
)
    requires
        old(ps).wf(),
        old(cs).wf(),
        contacts_bounded(old(cs).contacts@, old(ps).position@.len() as int),
    ensures
        final(ps).wf(),
        final(cs).wf(),
        final(cs).contacts@ == old(cs).contacts@,
        final(ps).position@.len() == old(ps).position@.len(),
        final(ps).predicted@ == old(ps).predicted@,
        final(ps).last_position@ == old(ps).last_position@,
        final(ps).last_velocity@ == old(ps).last_velocity@,
        final(ps).inv_mass@ == old(ps).inv_mass@,
        final(ps).radius@ == old(ps).radius@,
        dual_state_of(*final(ps), *final(cs)) == dual_solve_spec(
            dual_state_of(*old(ps), *old(cs)),
            old(cs).contacts@,
            old(ps).inv_mass@,
            old(ps).last_position@,
            compliance as int,
            relax as int,
            dt as int,
            unilateral,
            iters as nat,
        ),
{
    let ghost s0 = dual_state_of(*ps, *cs);
    let mut it: usize = 0;
    while it < iters
        invariant
            it <= iters,
            old(ps).wf(),
            old(cs).wf(),
            ps.wf(),
            cs.wf(),
            cs.contacts@ == old(cs).contacts@,
            ps.position@.len() == old(ps).position@.len(),
            ps.predicted@ == old(ps).predicted@,
            ps.last_position@ == old(ps).last_position@,
            ps.last_velocity@ == old(ps).last_velocity@,
            ps.inv_mass@ == old(ps).inv_mass@,
            ps.radius@ == old(ps).radius@,
            contacts_bounded(cs.contacts@, ps.position@.len() as int),
            s0 == dual_state_of(*old(ps), *old(cs)),
            dual_state_of(*ps, *cs) == dual_solve_spec(
                s0,
                old(cs).contacts@,
                old(ps).inv_mass@,
                old(ps).last_position@,
                compliance as int,
                relax as int,
                dt as int,
                unilateral,
                it as nat,
            ),
        decreases iters - it,
    {
        dual_iteration(ps, cs, compliance, relax, dt, unilateral);
        it = it + 1;
    }
}

} // verus!
