//! The primal constraint solver: diagonally preconditioned gradient descent
//! on the backward-Euler force-balance residual, in velocity space.  Contact
//! forces only resist interpenetration (the penetration is clamped to zero
//! from above), and an immovable particle is never updated.

use vstd::prelude::*;

verus! {

use crate::fp::{SCALE, sadd, ssub, fmul, fdiv, add_fp, sub_fp, mul_fp, div_fp};
use crate::vec2::{Vec2, spec_vzero, spec_vadd, spec_vsub, spec_vscale};
use crate::particles::{Particles, spec_rederived};
use crate::contacts::{Contact, Constraints, contacts_bounded};
use crate::dual::spec_violation;

/// The state a primal iteration reads and writes.
#[verifier::ext_equal]
pub struct PrimalState {
    pub vel: Seq<Vec2>,
    pub pos: Seq<Vec2>,
}

/// The primal state held by a particle store.
pub open spec fn primal_state_of(ps: Particles) -> PrimalState {
    PrimalState { vel: ps.velocity@, pos: ps.position@ }
}

/// The clamped penetration of a contact: the violation, or zero when the
/// pair is separated (contacts never pull).
pub open spec fn spec_penetration(pos: Seq<Vec2>, c: Contact) -> int {
    let v = spec_violation(pos, c);
    if v < 0 {
        v
    } else {
        0
    }
}

/// The force a contact applies to its first particle's accumulator (the
/// second receives the opposite): the normal scaled by stiffness times the
/// clamped penetration, subtracted for `a` and added for `b`.
pub open spec fn spec_contact_force(pos: Seq<Vec2>, c: Contact) -> Vec2 {
    spec_vscale(c.normal, fmul(c.stiffness as int, spec_penetration(pos, c)))
}

/// Accumulate the first `k` contacts' forces into per-particle accumulators.
pub open spec fn accum_forces(
    f: Seq<Vec2>,
    contacts: Seq<Contact>,
    pos: Seq<Vec2>,
    k: nat,
) -> Seq<Vec2>
    decreases k,
{
    if k == 0 {
        f
    } else {
        let prev = accum_forces(f, contacts, pos, (k - 1) as nat);
        let c = contacts[k - 1];
        if (c.a as int) < prev.len() && (c.b as int) < prev.len() {
            let fv = spec_contact_force(pos, c);
            let f1 = prev.update(c.a as int, spec_vsub(prev[c.a as int], fv));
            f1.update(c.b as int, spec_vadd(f1[c.b as int], fv))
        } else {
            prev
        }
    }
}

/// Accumulate the first `k` contacts' stiffnesses into the diagonal
/// approximation of the force Jacobian.
pub open spec fn accum_jdiag(jd: Seq<i64>, contacts: Seq<Contact>, k: nat) -> Seq<i64>
    decreases k,
{
    if k == 0 {
        jd
    } else {
        let prev = accum_jdiag(jd, contacts, (k - 1) as nat);
        let c = contacts[k - 1];
        if (c.a as int) < prev.len() && (c.b as int) < prev.len() {
            let j1 = prev.update(c.a as int, sadd(prev[c.a as int] as int, c.stiffness as int) as i64);
            j1.update(c.b as int, sadd(j1[c.b as int] as int, c.stiffness as int) as i64)
        } else {
            prev
        }
    }
}

/// One particle's new velocity: one preconditioned descent step on the
/// residual `mass * (velocity - last_velocity) - force`.  A particle with
/// inverse mass zero is immovable and is left exactly as it is.
pub open spec fn spec_primal_new_vel(
    v: Vec2,
    last_v: Vec2,
    w: int,
    f: Vec2,
    jd: int,
    relax: int,
) -> Vec2 {
    if w == 0 {
        v
    } else {
        let m = fdiv(SCALE as int, w);
        let d = sadd(m, jd);
        let pr = if d > 0 {
            fdiv(SCALE as int, d)
        } else {
            0
        };
        let res = spec_vsub(spec_vscale(spec_vsub(v, last_v), m), f);
        spec_vsub(v, spec_vscale(res, fmul(relax, pr)))
    }
}

/// One primal iteration under Jacobi discipline: all forces and diagonal
/// terms from committed state, then every velocity stepped, then every
/// position re-derived from its velocity and the start-of-step position.
pub open spec fn primal_iter_spec(
    s: PrimalState,
    contacts: Seq<Contact>,
    w: Seq<i64>,
    last_pos: Seq<Vec2>,
    last_vel: Seq<Vec2>,
    relax: int,
    dt: int,
) -> PrimalState {
    let n = s.vel.len();
    let zero_f = Seq::new(n, |i: int| spec_vzero());
    let zero_j = Seq::new(n, |i: int| 0i64);
    let f = accum_forces(zero_f, contacts, s.pos, contacts.len());
    let jd = accum_jdiag(zero_j, contacts, contacts.len());
    let vel = Seq::new(
        n,
        |i: int|
            spec_primal_new_vel(
                s.vel[i],
                last_vel[i],
                w[i] as int,
                f[i],
                jd[i] as int,
                relax,
            ),
    );
    let pos = Seq::new(s.pos.len(), |i: int| spec_rederived(vel[i], last_pos[i], dt));
    PrimalState { vel, pos }
}

/// `iters` primal iterations from `s`.
pub open spec fn primal_solve_spec(
    s: PrimalState,
    contacts: Seq<Contact>,
    w: Seq<i64>,
    last_pos: Seq<Vec2>,
    last_vel: Seq<Vec2>,
    relax: int,
    dt: int,
    iters: nat,
) -> PrimalState
    decreases iters,
{
    if iters == 0 {
        s
    } else {
        primal_iter_spec(
            primal_solve_spec(s, contacts, w, last_pos, last_vel, relax, dt, (iters - 1) as nat),
            contacts,
            w,
            last_pos,
            last_vel,
            relax,
            dt,
        )
    }
}

/// One primal iteration over the whole constraint set.
pub fn primal_iteration(ps: &mut Particles, cs: &Constraints, relax: i64, dt: i64)
    requires
        old(ps).wf(),
        contacts_bounded(cs.contacts@, old(ps).position@.len() as int),
    ensures
        final(ps).wf(),
        final(ps).position@.len() == old(ps).position@.len(),
        final(ps).predicted@ == old(ps).predicted@,
        final(ps).last_position@ == old(ps).last_position@,
        final(ps).last_velocity@ == old(ps).last_velocity@,
        final(ps).inv_mass@ == old(ps).inv_mass@,
        final(ps).radius@ == old(ps).radius@,
        primal_state_of(*final(ps)) == primal_iter_spec(
            primal_state_of(*old(ps)),
            cs.contacts@,
            old(ps).inv_mass@,
            old(ps).last_position@,
            old(ps).last_velocity@,
            relax as int,
            dt as int,
        ),
{
    let ghost s0 = primal_state_of(*ps);
    let ghost target = primal_iter_spec(
        s0,
        cs.contacts@,
        ps.inv_mass@,
        ps.last_position@,
        ps.last_velocity@,
        relax as int,
        dt as int,
    );
    let nc = cs.contacts.len();
    let np = ps.position.len();

    // Zero-initialized per-particle accumulators.
    let mut forces: Vec<Vec2> = Vec::new();
    let mut jdiag: Vec<i64> = Vec::new();
    let mut i: usize = 0;
    while i < np
        invariant
            i <= np,
            forces@.len() == i,
            jdiag@.len() == i,
            forall|t: int| 0 <= t < i ==> forces@[t] == spec_vzero(),
            forall|t: int| 0 <= t < i ==> jdiag@[t] == 0i64,
        decreases np - i,
    {
        forces.push(Vec2::zero());
        jdiag.push(0);
        i = i + 1;
    }
    let ghost zero_f = Seq::new(np as nat, |t: int| spec_vzero());
    let ghost zero_j = Seq::new(np as nat, |t: int| 0i64);
    proof {
        assert(forces@ =~= zero_f);
        assert(jdiag@ =~= zero_j);
    }

    // Accumulate forces and diagonal terms from committed state.
    let mut k: usize = 0;
    while k < nc
        invariant
            k <= nc,
            old(ps).wf(),
            *ps == *old(ps),
            np == ps.position@.len(),
            nc == cs.contacts@.len(),
            contacts_bounded(cs.contacts@, np as int),
            forces@ == accum_forces(zero_f, cs.contacts@, ps.position@, k as nat),
            jdiag@ == accum_jdiag(zero_j, cs.contacts@, k as nat),
            forces@.len() == np,
            jdiag@.len() == np,
        decreases nc - k,
    {
        let c = cs.contacts[k];
        let pa = ps.position[c.a];
        let pb = ps.position[c.b];
        let viol = sub_fp(pa.minus(pb).dot(c.normal), c.rest);
        let pen = if viol < 0 {
            viol
        } else {
            0
        };
        let fv = c.normal.scaled(mul_fp(c.stiffness, pen));
        let fa = forces[c.a];
        forces[c.a] = fa.minus(fv);
        let fb = forces[c.b];
        forces[c.b] = fb.plus(fv);
        let ja = jdiag[c.a];
        jdiag[c.a] = add_fp(ja, c.stiffness);
        let jb = jdiag[c.b];
        jdiag[c.b] = add_fp(jb, c.stiffness);
        proof {
            assert(forces@ =~= accum_forces(zero_f, cs.contacts@, ps.position@, (k + 1) as nat));
            assert(jdiag@ =~= accum_jdiag(zero_j, cs.contacts@, (k + 1) as nat));
        }
        k = k + 1;
    }

    // Preconditioned velocity step for every movable particle.
    let ghost vel0 = ps.velocity@;
    let mut i: usize = 0;
    while i < np
        invariant
            i <= np,
            old(ps).wf(),
            ps.wf(),
            np == ps.position@.len(),
            ps.position@ == old(ps).position@,
            ps.predicted@ == old(ps).predicted@,
            ps.last_position@ == old(ps).last_position@,
            ps.last_velocity@ == old(ps).last_velocity@,
            ps.inv_mass@ == old(ps).inv_mass@,
            ps.radius@ == old(ps).radius@,
            vel0 == old(ps).velocity@,
            ps.velocity@.len() == np,
            forces@.len() == np,
            jdiag@.len() == np,
            forall|t: int| i <= t < np ==> ps.velocity@[t] == vel0[t],
            forall|t: int|
                0 <= t < i ==> ps.velocity@[t] == spec_primal_new_vel(
                    vel0[t],
                    ps.last_velocity@[t],
                    ps.inv_mass@[t] as int,
                    forces@[t],
                    jdiag@[t] as int,
                    relax as int,
                ),
        decreases np - i,
    {
        let w = ps.inv_mass[i];
        if w > 0 {
            let m = div_fp(SCALE, w);
            let d = add_fp(m, jdiag[i]);
            let pr = if d > 0 {
                div_fp(SCALE, d)
            } else {
                0
            };
            let v = ps.velocity[i];
            let lv = ps.last_velocity[i];
            let res = v.minus(lv).scaled(m).minus(forces[i]);
            ps.velocity[i] = v.minus(res.scaled(mul_fp(relax, pr)));
        }
        i = i + 1;
    }

    // Re-derive all positions from the updated velocities.
    ps.rederive(dt);
    proof {
        assert(ps.velocity@ =~= target.vel);
        assert(ps.position@ =~= target.pos);
        assert(primal_state_of(*ps) =~= target);
    }
}

/// Run `iters` primal iterations over the constraint set.
pub fn primal_solve(ps: &mut Particles, cs: &Constraints, relax: i64, dt: i64, iters: usize)
    requires
        old(ps).wf(),
        contacts_bounded(cs.contacts@, old(ps).position@.len() as int),
    ensures
        final(ps).wf(),
        final(ps).position@.len() == old(ps).position@.len(),
        final(ps).predicted@ == old(ps).predicted@,
        final(ps).last_position@ == old(ps).last_position@,
        final(ps).last_velocity@ == old(ps).last_velocity@,
        final(ps).inv_mass@ == old(ps).inv_mass@,
        final(ps).radius@ == old(ps).radius@,
        primal_state_of(*final(ps)) == primal_solve_spec(
            primal_state_of(*old(ps)),
            cs.contacts@,
            old(ps).inv_mass@,
            old(ps).last_position@,
            old(ps).last_velocity@,
            relax as int,
            dt as int,
            iters as nat,
        ),
{
    let ghost s0 = primal_state_of(*ps);
    let mut it: usize = 0;
    while it < iters
        invariant
            it <= iters,
            old(ps).wf(),
            ps.wf(),
            ps.position@.len() == old(ps).position@.len(),
            ps.predicted@ == old(ps).predicted@,
            ps.last_position@ == old(ps).last_position@,
            ps.last_velocity@ == old(ps).last_velocity@,
            ps.inv_mass@ == old(ps).inv_mass@,
            ps.radius@ == old(ps).radius@,
            contacts_bounded(cs.contacts@, ps.position@.len() as int),
            s0 == primal_state_of(*old(ps)),
            primal_state_of(*ps) == primal_solve_spec(
                s0,
                cs.contacts@,
                old(ps).inv_mass@,
                old(ps).last_position@,
                old(ps).last_velocity@,
                relax as int,
                dt as int,
                it as nat,
            ),
        decreases iters - it,
    {
        primal_iteration(ps, cs, relax, dt);
        it = it + 1;
    }
}

} // verus!
