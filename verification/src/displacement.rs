//! The displacement-projection solver: a simplified position-based variant
//! with no multipliers and no force accumulators.  Each particle carries a
//! persistent displacement that doubles as its velocity; one step advances
//! every position by its displacement, extrapolates a predicted position,
//! and runs a single order-independent (Jacobi) sweep that accumulates
//! overlap corrections into a scratch buffer committed only after the whole
//! sweep.  Corrections are weighted by inverse mass, so an immovable
//! particle receives a zero term and is never displaced.

use vstd::prelude::*;

verus! {

use crate::fp::{sadd, ssub, fmul, fdiv, add_fp, sub_fp, mul_fp, div_fp};
use crate::vec2::{
    Vec2,
    spec_vzero,
    spec_vadd,
    spec_vsub,
    spec_vscale,
    spec_normal,
    spec_axis_normal,
    spec_dist,
    dist_fp,
    normal_from,
    axis_normal,
};
use crate::particles::Particles;

/// The overlap correction of pair `(i, j)` applied to a scratch buffer:
/// each side moves along the pair normal by the penetration times its own
/// share `inv_mass / (inv_mass[i] + inv_mass[j])`, in opposite directions.
/// Pairs that do not overlap, or whose inverse masses are both zero, leave
/// the buffer unchanged.
pub open spec fn spec_pair_correct(
    scr: Seq<Vec2>,
    pred: Seq<Vec2>,
    rad: Seq<i64>,
    w: Seq<i64>,
    i: int,
    j: int,
) -> Seq<Vec2> {
    if 0 <= i && i < j && j < scr.len() && scr.len() == pred.len() && scr.len() == rad.len()
        && scr.len() == w.len() {
        let d = spec_dist(pred[i], pred[j]);
        let pen = ssub(sadd(rad[i] as int, rad[j] as int), d);
        let wsum = sadd(w[i] as int, w[j] as int);
        if pen > 0 && wsum > 0 {
            let n = if d > 0 {
                spec_normal(spec_vsub(pred[i], pred[j]), d)
            } else {
                spec_axis_normal()
            };
            let ci = spec_vscale(n, fmul(pen, fdiv(w[i] as int, wsum)));
            let cj = spec_vscale(n, fmul(pen, fdiv(w[j] as int, wsum)));
            let s1 = scr.update(i, spec_vadd(scr[i], ci));
            s1.update(j, spec_vsub(s1[j], cj))
        } else {
            scr
        }
    } else {
        scr
    }
}

/// The single sweep over all unordered pairs from `(i, j)` on, threading the
/// scratch buffer through in lexicographic pair order.
pub open spec fn spec_sweep_from(
    scr: Seq<Vec2>,
    pred: Seq<Vec2>,
    rad: Seq<i64>,
    w: Seq<i64>,
    i: nat,
    j: nat,
) -> Seq<Vec2>
    decreases pred.len() - i, pred.len() - j,
{
    if i >= pred.len() {
        scr
    } else if j >= pred.len() {
        spec_sweep_from(scr, pred, rad, w, i + 1, i + 2)
    } else {
        spec_sweep_from(
            spec_pair_correct(scr, pred, rad, w, i as int, j as int),
            pred,
            rad,
            w,
            i,
            j + 1,
        )
    }
}

/// The whole sweep, from a zero scratch buffer.
pub open spec fn spec_sweep(pred: Seq<Vec2>, rad: Seq<i64>, w: Seq<i64>) -> Seq<Vec2> {
    spec_sweep_from(Seq::new(pred.len(), |i: int| spec_vzero()), pred, rad, w, 0, 1)
}

/// One displacement-projection step: advance every position by its
/// displacement (held in the velocity field), extrapolate the predicted
/// position by one more displacement, then run one overlap sweep and commit
/// the accumulated corrections into the displacements.
pub fn projection_step(ps: &mut Particles)
    requires
        old(ps).wf(),
    ensures
        final(ps).wf(),
        final(ps).position@.len() == old(ps).position@.len(),
        final(ps).last_position@ == old(ps).last_position@,
        final(ps).last_velocity@ == old(ps).last_velocity@,
        final(ps).inv_mass@ == old(ps).inv_mass@,
        final(ps).radius@ == old(ps).radius@,
        forall|k: int|
            0 <= k < final(ps).position@.len() ==> {
                &&& final(ps).position@[k] == spec_vadd(
                    old(ps).position@[k],
                    old(ps).velocity@[k],
                )
                &&& final(ps).predicted@[k] == spec_vadd(
                    final(ps).position@[k],
                    old(ps).velocity@[k],
                )
            },
        final(ps).velocity@ == Seq::new(
            old(ps).velocity@.len(),
            |k: int|
                spec_vadd(
                    old(ps).velocity@[k],
                    spec_sweep(final(ps).predicted@, old(ps).radius@, old(ps).inv_mass@)[k],
                ),
        ),
{
    let n = ps.position.len();

    // Advance positions and extrapolate predictions.
    let mut i: usize = 0;
    while i < n
        invariant
            i <= n,
            old(ps).wf(),
            n == old(ps).position@.len(),
            ps.position@.len() == n,
            ps.predicted@.len() == n,
            ps.last_position@ == old(ps).last_position@,
            ps.last_velocity@ == old(ps).last_velocity@,
            ps.velocity@ == old(ps).velocity@,
            ps.inv_mass@ == old(ps).inv_mass@,
            ps.radius@ == old(ps).radius@,
            forall|k: int| i <= k < n ==> ps.position@[k] == old(ps).position@[k],
            forall|k: int|
                0 <= k < i ==> {
                    &&& ps.position@[k] == spec_vadd(old(ps).position@[k], old(ps).velocity@[k])
                    &&& ps.predicted@[k] == spec_vadd(ps.position@[k], old(ps).velocity@[k])
                },
        decreases n - i,
    {
        let p = ps.position[i];
        let v = ps.velocity[i];
        let np = p.plus(v);
        ps.position[i] = np;
        ps.predicted[i] = np.plus(v);
        i = i + 1;
    }

    // Zero scratch buffer.
    let mut scratch: Vec<Vec2> = Vec::new();
    let mut i: usize = 0;
    while i < n
        invariant
            i <= n,
            scratch@.len() == i,
            forall|t: int| 0 <= t < i ==> scratch@[t] == spec_vzero(),
        decreases n - i,
    {
        scratch.push(Vec2::zero());
        i = i + 1;
    }
    let ghost target_scr = spec_sweep(ps.predicted@, ps.radius@, ps.inv_mass@);
    proof {
        assert(scratch@ =~= Seq::new(ps.predicted@.len(), |t: int| spec_vzero()));
    }

    // One Jacobi sweep: accumulate corrections without committing them.
    let mut i: usize = 0;
    while i < n
        invariant
            i <= n,
            ps.wf(),
            n == ps.position@.len(),
            scratch@.len() == n,
            spec_sweep_from(
                scratch@,
                ps.predicted@,
                ps.radius@,
                ps.inv_mass@,
                i as nat,
                (i + 1) as nat,
            ) == target_scr,
        decreases n - i,
    {
        let mut j: usize = i + 1;
        while j < n
            invariant
                i < j,
                j <= n,
                i < n,
                ps.wf(),
                n == ps.position@.len(),
                scratch@.len() == n,
                spec_sweep_from(
                    scratch@,
                    ps.predicted@,
                    ps.radius@,
                    ps.inv_mass@,
                    i as nat,
                    j as nat,
                ) == target_scr,
            decreases n - j,
        {
            let ghost before = scratch@;
            let pi = ps.predicted[i];
            let pj = ps.predicted[j];
            let d = dist_fp(pi, pj);
            let pen = sub_fp(add_fp(ps.radius[i], ps.radius[j]), d);
            let wi = ps.inv_mass[i];
            let wj = ps.inv_mass[j];
            let wsum = add_fp(wi, wj);
            if pen > 0 && wsum > 0 {
                let nrm = if d > 0 {
                    normal_from(pi.minus(pj), d)
                } else {
                    axis_normal()
                };
                let ci = nrm.scaled(mul_fp(pen, div_fp(wi, wsum)));
                let cj = nrm.scaled(mul_fp(pen, div_fp(wj, wsum)));
                let si = scratch[i];
                scratch[i] = si.plus(ci);
                let sj = scratch[j];
                scratch[j] = sj.minus(cj);
            }
            proof {
                assert(scratch@ =~= spec_pair_correct(
                    before,
                    ps.predicted@,
                    ps.radius@,
                    ps.inv_mass@,
                    i as int,
                    j as int,
                ));
            }
            j = j + 1;
        }
        i = i + 1;
    }
    proof {
        assert(scratch@ == target_scr);
    }

    // Commit: fold the corrections into the persistent displacements.
    let ghost vel0 = ps.velocity@;
    let ghost pos1 = ps.position@;
    let ghost pred1 = ps.predicted@;
    let mut i: usize = 0;
    while i < n
        invariant
            i <= n,
            old(ps).wf(),
            ps.wf(),
            n == ps.position@.len(),
            n == old(ps).position@.len(),
            ps.position@ == pos1,
            ps.predicted@ == pred1,
            ps.last_position@ == old(ps).last_position@,
            ps.last_velocity@ == old(ps).last_velocity@,
            ps.inv_mass@ == old(ps).inv_mass@,
            ps.radius@ == old(ps).radius@,
            vel0 == old(ps).velocity@,
            forall|k: int|
                0 <= k < n ==> {
                    &&& ps.position@[k] == spec_vadd(old(ps).position@[k], old(ps).velocity@[k])
                    &&& ps.predicted@[k] == spec_vadd(ps.position@[k], old(ps).velocity@[k])
                },
            scratch@ == spec_sweep(ps.predicted@, ps.radius@, ps.inv_mass@),
            scratch@.len() == n,
            vel0.len() == n,
            ps.velocity@.len() == n,
            forall|t: int| i <= t < n ==> ps.velocity@[t] == vel0[t],
            forall|t: int|
                0 <= t < i ==> ps.velocity@[t] == spec_vadd(vel0[t], scratch@[t]),
        decreases n - i,
    {
        let v = ps.velocity[i];
        ps.velocity[i] = v.plus(scratch[i]);
        i = i + 1;
    }
    proof {
        assert(ps.velocity@ =~= Seq::new(
            vel0.len(),
            |k: int| spec_vadd(vel0[k], spec_sweep(ps.predicted@, ps.radius@, ps.inv_mass@)[k]),
        ));
    }
}

} // verus!
