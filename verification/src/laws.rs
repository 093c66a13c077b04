//! The laws of the solvers, stated and proved over the same spec functions
//! the executable contracts use: momentum exchange is balanced to within one
//! fixed-point quantum, immovable particles are never moved by any solver,
//! and contact multipliers never go negative in inequality mode.

use vstd::prelude::*;

verus! {

use vstd::arithmetic::div_mod::lemma_fundamental_div_mod;
use vstd::arithmetic::div_mod::lemma_mod_division_less_than_divisor;
use vstd::arithmetic::div_mod::lemma_div_of0;
use crate::fp::{SCALE, tdiv, fmul, fdiv};
use crate::vec2::{spec_vadd, spec_vsub, spec_vscale};
use crate::vec2::Vec2;
use crate::vec2::spec_vzero;
use crate::particles::spec_rederived;
use crate::contacts::Contact;
use crate::dual::{
    DualState,
    apply_one,
    apply_impulses,
    dual_iter_spec,
    dual_solve_spec,
    lemma_apply_impulses_len,
};
use crate::primal::{PrimalState, primal_solve_spec};
use crate::displacement::{spec_pair_correct, spec_sweep_from, spec_sweep};

/// `x` fits in the fixed-point range.
pub open spec fn in64(x: int) -> bool {
    i64::MIN <= x <= i64::MAX
}

/// The remainder a truncating division leaves is smaller than the divisor.
proof fn lemma_tdiv_decompose(x: int, d: int)
    requires
        d > 0,
    ensures
        x == d * tdiv(x, d) + (x - d * tdiv(x, d)),
        -d < x - d * tdiv(x, d) < d,
{
    if x >= 0 {
        lemma_fundamental_div_mod(x, d);
        lemma_mod_division_less_than_divisor(x, d);
    } else {
        lemma_fundamental_div_mod(-x, d);
        lemma_mod_division_less_than_divisor(-x, d);
        assert(d * tdiv(x, d) == -(d * ((-x) / d))) by (nonlinear_arith)
            requires
                tdiv(x, d) == -((-x) / d),
        ;
    }
}

/// Balanced momentum exchange of one impulse component `p`: when the two
/// inverse masses are the exact fixed-point reciprocals of the masses, the
/// two velocity deltas `p * w / SCALE` (rounded toward zero), weighted by
/// the masses, cancel to within one fixed-point quantum of momentum.
pub proof fn lemma_momentum_exchange(p: int, wa: int, wb: int, ma: int, mb: int)
    requires
        ma >= 1,
        mb >= 1,
        wa >= 0,
        wb >= 0,
        ma * wa == (SCALE as int) * (SCALE as int),
        mb * wb == (SCALE as int) * (SCALE as int),
    ensures
        -(ma + mb) < ma * tdiv(p * wa, SCALE as int) - mb * tdiv(p * wb, SCALE as int) < ma + mb,
{
    let s = SCALE as int;
    let qa = tdiv(p * wa, s);
    let qb = tdiv(p * wb, s);
    let ra = p * wa - s * qa;
    let rb = p * wb - s * qb;
    lemma_tdiv_decompose(p * wa, s);
    lemma_tdiv_decompose(p * wb, s);
    assert(p * s * s == s * (ma * qa) + ma * ra) by (nonlinear_arith)
        requires
            ma * wa == s * s,
            p * wa == s * qa + ra,
    ;
    assert(p * s * s == s * (mb * qb) + mb * rb) by (nonlinear_arith)
        requires
            mb * wb == s * s,
            p * wb == s * qb + rb,
    ;
    assert(s * (ma * qa - mb * qb) == mb * rb - ma * ra) by (nonlinear_arith)
        requires
            p * s * s == s * (ma * qa) + ma * ra,
            p * s * s == s * (mb * qb) + mb * rb,
    ;
    assert(-(ma + mb) * s < mb * rb - ma * ra < (ma + mb) * s) by (nonlinear_arith)
        requires
            -s < ra < s,
            -s < rb < s,
            ma >= 1,
            mb >= 1,
    ;
    assert(-(ma + mb) < ma * qa - mb * qb < ma + mb) by (nonlinear_arith)
        requires
            s * (ma * qa - mb * qb) == mb * rb - ma * ra,
            -(ma + mb) * s < mb * rb - ma * ra < (ma + mb) * s,
            s >= 1,
    ;
}

/// No intermediate of one contact's velocity update leaves the fixed-point
/// range, so every delta below is applied exactly, with no saturation.
pub open spec fn impulse_unsaturated(vel: Seq<Vec2>, c: Contact, applied: i64, w: Seq<i64>) -> bool {
    let s = SCALE as int;
    let px = tdiv((c.normal.x as int) * (applied as int), s);
    let py = tdiv((c.normal.y as int) * (applied as int), s);
    let wa = w[c.a as int] as int;
    let wb = w[c.b as int] as int;
    let dax = tdiv(px * wa, s);
    let day = tdiv(py * wa, s);
    let dbx = tdiv(px * wb, s);
    let dby = tdiv(py * wb, s);
    &&& in64(px)
    &&& in64(py)
    &&& in64(dax)
    &&& in64(day)
    &&& in64(dbx)
    &&& in64(dby)
    &&& in64(vel[c.a as int].x + dax)
    &&& in64(vel[c.a as int].y + day)
    &&& in64(vel[c.b as int].x - dbx)
    &&& in64(vel[c.b as int].y - dby)
}

/// Momentum conservation: one contact between two finite-mass particles,
/// whose inverse masses are the exact fixed-point reciprocals of `ma` and
/// `mb`, changes the pair's total momentum `ma * vel[a] + mb * vel[b]` by
/// less than one fixed-point quantum per component — the two applied deltas
/// are equal and opposite, each scaled by its side's inverse mass.
pub proof fn lemma_momentum_conservation(
    vel: Seq<Vec2>,
    c: Contact,
    applied: i64,
    w: Seq<i64>,
    ma: int,
    mb: int,
)
    requires
        (c.a as int) < vel.len(),
        (c.b as int) < vel.len(),
        (c.a as int) < w.len(),
        (c.b as int) < w.len(),
        c.a != c.b,
        ma >= 1,
        mb >= 1,
        ma * (w[c.a as int] as int) == (SCALE as int) * (SCALE as int),
        mb * (w[c.b as int] as int) == (SCALE as int) * (SCALE as int),
        impulse_unsaturated(vel, c, applied, w),
    ensures
        ({
            let v2 = apply_one(vel, c, applied, w);
            let da_x = v2[c.a as int].x - vel[c.a as int].x;
            let db_x = v2[c.b as int].x - vel[c.b as int].x;
            let da_y = v2[c.a as int].y - vel[c.a as int].y;
            let db_y = v2[c.b as int].y - vel[c.b as int].y;
            &&& -(ma + mb) < ma * da_x + mb * db_x < ma + mb
            &&& -(ma + mb) < ma * da_y + mb * db_y < ma + mb
        }),
{
    let s = SCALE as int;
    let wa = w[c.a as int] as int;
    let wb = w[c.b as int] as int;
    let px = tdiv((c.normal.x as int) * (applied as int), s);
    let py = tdiv((c.normal.y as int) * (applied as int), s);
    assert(wa >= 0 && wb >= 0) by (nonlinear_arith)
        requires
            ma >= 1,
            mb >= 1,
            ma * wa == s * s,
            mb * wb == s * s,
            s == SCALE as int,
    ;
    let v2 = apply_one(vel, c, applied, w);
    assert(v2[c.a as int].x == vel[c.a as int].x + tdiv(px * wa, s));
    assert(v2[c.a as int].y == vel[c.a as int].y + tdiv(py * wa, s));
    assert(v2[c.b as int].x == vel[c.b as int].x - tdiv(px * wb, s));
    assert(v2[c.b as int].y == vel[c.b as int].y - tdiv(py * wb, s));
    lemma_momentum_exchange(px, wa, wb, ma, mb);
    lemma_momentum_exchange(py, wa, wb, ma, mb);
    assert(ma * (v2[c.a as int].x - vel[c.a as int].x) + mb * (v2[c.b as int].x - vel[
        c.b as int].x) == ma * tdiv(px * wa, s) - mb * tdiv(px * wb, s)) by (nonlinear_arith)
        requires
            v2[c.a as int].x - vel[c.a as int].x == tdiv(px * wa, s),
            v2[c.b as int].x - vel[c.b as int].x == -tdiv(px * wb, s),
    ;
    assert(ma * (v2[c.a as int].y - vel[c.a as int].y) + mb * (v2[c.b as int].y - vel[
        c.b as int].y) == ma * tdiv(py * wa, s) - mb * tdiv(py * wb, s)) by (nonlinear_arith)
        requires
            v2[c.a as int].y - vel[c.a as int].y == tdiv(py * wa, s),
            v2[c.b as int].y - vel[c.b as int].y == -tdiv(py * wb, s),
    ;
}

/// A particle with inverse mass zero receives no impulse from any prefix of
/// the contact list.
pub proof fn lemma_apply_impulses_immovable(
    vel: Seq<Vec2>,
    contacts: Seq<Contact>,
    applied: Seq<i64>,
    w: Seq<i64>,
    k: nat,
    i: int,
)
    requires
        0 <= i < vel.len(),
        i < w.len(),
        w[i] == 0,
    ensures
        apply_impulses(vel, contacts, applied, w, k)[i] == vel[i],
    decreases k,
{
    if k > 0 {
        lemma_apply_impulses_immovable(vel, contacts, applied, w, (k - 1) as nat, i);
        lemma_apply_impulses_len(vel, contacts, applied, w, (k - 1) as nat);
    }
}

/// Immovability under the dual solver: a particle with inverse mass zero
/// keeps its velocity and its position through any number of iterations,
/// whatever contacts touch it, provided its position is consistent with its
/// velocity and start-of-step position (as the step driver establishes).
pub proof fn lemma_dual_immovable(
    s: DualState,
    contacts: Seq<Contact>,
    w: Seq<i64>,
    last_pos: Seq<Vec2>,
    compliance: int,
    relax: int,
    dt: int,
    unilateral: bool,
    iters: nat,
    i: int,
)
    requires
        0 <= i < s.vel.len(),
        s.pos.len() == s.vel.len(),
        i < w.len(),
        w[i] == 0,
        s.pos[i] == spec_rederived(s.vel[i], last_pos[i], dt),
    ensures
        ({
            let r = dual_solve_spec(s, contacts, w, last_pos, compliance, relax, dt, unilateral, iters);
            &&& r.vel.len() == s.vel.len()
            &&& r.pos.len() == s.pos.len()
            &&& r.vel[i] == s.vel[i]
            &&& r.pos[i] == s.pos[i]
        }),
    decreases iters,
{
    if iters > 0 {
        lemma_dual_immovable(
            s,
            contacts,
            w,
            last_pos,
            compliance,
            relax,
            dt,
            unilateral,
            (iters - 1) as nat,
            i,
        );
        let prev = dual_solve_spec(
            s,
            contacts,
            w,
            last_pos,
            compliance,
            relax,
            dt,
            unilateral,
            (iters - 1) as nat,
        );
        let r = dual_iter_spec(prev, contacts, w, last_pos, compliance, relax, dt, unilateral);
        lemma_apply_impulses_len(prev.vel, contacts, r.mult, w, contacts.len());
        let applied = Seq::new(
            contacts.len(),
            |k: int| crate::fp::ssub(r.mult[k] as int, prev.mult[k] as int) as i64,
        );
        lemma_apply_impulses_immovable(prev.vel, contacts, applied, w, contacts.len(), i);
        lemma_apply_impulses_len(prev.vel, contacts, applied, w, contacts.len());
        assert(r.vel[i] == prev.vel[i]);
        assert(r.pos[i] == spec_rederived(prev.vel[i], last_pos[i], dt));
    }
}

/// Non-negativity of contact multipliers: in inequality (unilateral) mode,
/// if every multiplier starts non-negative (they start at zero), every
/// multiplier is non-negative after any number of dual iterations.
pub proof fn lemma_dual_multipliers_nonnegative(
    s: DualState,
    contacts: Seq<Contact>,
    w: Seq<i64>,
    last_pos: Seq<Vec2>,
    compliance: int,
    relax: int,
    dt: int,
    iters: nat,
)
    requires
        forall|t: int| 0 <= t < s.mult.len() ==> s.mult[t] >= 0,
    ensures
        ({
            let r = dual_solve_spec(s, contacts, w, last_pos, compliance, relax, dt, true, iters);
            forall|t: int| 0 <= t < r.mult.len() ==> r.mult[t] >= 0
        }),
    decreases iters,
{
    if iters > 0 {
        lemma_dual_multipliers_nonnegative(
            s,
            contacts,
            w,
            last_pos,
            compliance,
            relax,
            dt,
            (iters - 1) as nat,
        );
    }
}

/// Immovability under the primal solver: a particle with inverse mass zero
/// keeps its velocity and its position through any number of iterations.
pub proof fn lemma_primal_immovable(
    s: PrimalState,
    contacts: Seq<Contact>,
    w: Seq<i64>,
    last_pos: Seq<Vec2>,
    last_vel: Seq<Vec2>,
    relax: int,
    dt: int,
    iters: nat,
    i: int,
)
    requires
        0 <= i < s.vel.len(),
        s.pos.len() == s.vel.len(),
        i < w.len(),
        w[i] == 0,
        s.pos[i] == spec_rederived(s.vel[i], last_pos[i], dt),
    ensures
        ({
            let r = primal_solve_spec(s, contacts, w, last_pos, last_vel, relax, dt, iters);
            &&& r.vel.len() == s.vel.len()
            &&& r.pos.len() == s.pos.len()
            &&& r.vel[i] == s.vel[i]
            &&& r.pos[i] == s.pos[i]
        }),
    decreases iters,
{
    if iters > 0 {
        lemma_primal_immovable(
            s,
            contacts,
            w,
            last_pos,
            last_vel,
            relax,
            dt,
            (iters - 1) as nat,
            i,
        );
    }
}

/// An immovable particle accumulates no correction anywhere in the
/// displacement sweep: its inverse-mass share of every overlap is zero.
pub proof fn lemma_sweep_immovable(
    scr: Seq<Vec2>,
    pred: Seq<Vec2>,
    rad: Seq<i64>,
    w: Seq<i64>,
    i: nat,
    j: nat,
    t: int,
)
    requires
        0 <= t < scr.len(),
        t < w.len(),
        w[t] == 0,
    ensures
        ({
            let r = spec_sweep_from(scr, pred, rad, w, i, j);
            &&& r.len() == scr.len()
            &&& r[t] == scr[t]
        }),
    decreases pred.len() - i, pred.len() - j,
{
    if i >= pred.len() {
    } else if j >= pred.len() {
        lemma_sweep_immovable(scr, pred, rad, w, i + 1, i + 2, t);
    } else {
        let scr1 = spec_pair_correct(scr, pred, rad, w, i as int, j as int);
        assert(scr1.len() == scr.len() && scr1[t] == scr[t]) by {
            let ii = i as int;
            let jj = j as int;
            if 0 <= ii && ii < jj && jj < scr.len() && scr.len() == pred.len() && scr.len()
                == rad.len() && scr.len() == w.len() && (t == ii || t == jj) {
                let d = crate::vec2::spec_dist(pred[ii], pred[jj]);
                let pen = crate::fp::ssub(crate::fp::sadd(rad[ii] as int, rad[jj] as int), d);
                let wsum = crate::fp::sadd(w[ii] as int, w[jj] as int);
                if pen > 0 && wsum > 0 {
                    let nn = if d > 0 {
                        crate::vec2::spec_normal(spec_vsub(pred[ii], pred[jj]), d)
                    } else {
                        crate::vec2::spec_axis_normal()
                    };
                    lemma_div_of0(wsum);
                    lemma_div_of0(SCALE as int);
                    assert(fdiv(0, wsum) == 0);
                    assert(fmul(pen, 0) == 0);
                    assert(spec_vscale(nn, 0) == spec_vzero()) by {
                        assert(fmul(nn.x as int, 0) == 0);
                        assert(fmul(nn.y as int, 0) == 0);
                    }
                    if t == ii {
                        assert(spec_vadd(scr[t], spec_vzero()) == scr[t]);
                    } else {
                        assert(spec_vsub(scr.update(ii, spec_vadd(scr[ii], spec_vscale(nn, fmul(
                            pen,
                            fdiv(w[ii] as int, wsum),
                        ))))[t], spec_vzero()) == scr[t]);
                    }
                }
            }
        }
        lemma_sweep_immovable(scr1, pred, rad, w, i, j + 1, t);
    }
}

/// Immovability under the displacement projector: the sweep's correction
/// for a particle with inverse mass zero is exactly zero, so committing the
/// sweep leaves its persistent displacement unchanged.
pub proof fn lemma_projection_immovable(pred: Seq<Vec2>, rad: Seq<i64>, w: Seq<i64>, t: int)
    requires
        0 <= t < pred.len(),
        t < w.len(),
        w[t] == 0,
    ensures
        spec_sweep(pred, rad, w)[t] == spec_vzero(),
{
    let zeros = Seq::new(pred.len(), |k: int| spec_vzero());
    lemma_sweep_immovable(zeros, pred, rad, w, 0, 1, t);
}

} // verus!
