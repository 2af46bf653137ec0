use vstd::prelude::*;
use crate::bodies::MoleculeInfo;
use crate::geometry::{
    clamp, clamp_to_i64, dist_sq, div_trunc, floor_sqrt, isqrt, lemma_mul_bound, lemma_sq_bound,
    lemma_tdiv_bound, tdiv, Point, POS_LIMIT, SPEED_LIMIT,
};
use crate::species::MAX_SPECIES_RADIUS;

verus! {

/// The weights by which an impulse is shared out. Equal masses share it
/// evenly; otherwise each body takes the other's mass. Either way
/// `ma * wb == mb * wa`, so momentum is kept exactly.
pub open spec fn mass_weights(ma: int, mb: int) -> (int, int) {
    if ma == mb {
        (1, 1)
    } else {
        (ma, mb)
    }
}

/// Relative velocity of `a` with respect to `b`, dotted with the offset
/// from `b` to `a`.
pub open spec fn closing_dot(a: MoleculeInfo, b: MoleculeInfo) -> int {
    (a.vel.x - b.vel.x) * (a.pos.x - b.pos.x) + (a.vel.y - b.vel.y) * (a.pos.y - b.pos.y)
}

/// One component of the elastic impulse, along the offset component `dc`,
/// in units of the mass weights.
pub open spec fn impulse(a: MoleculeInfo, b: MoleculeInfo, dc: int) -> int {
    let dd = dist_sq(a.pos, b.pos);
    let w = mass_weights(a.mass as int, b.mass as int);
    if dd == 0 {
        0
    } else {
        tdiv(2 * (dc * closing_dot(a, b)), dd * (w.0 + w.1))
    }
}

/// Velocity of `a` after the elastic exchange, before the speed limit.
pub open spec fn bounce_a(a: MoleculeInfo, b: MoleculeInfo) -> (int, int) {
    let w = mass_weights(a.mass as int, b.mass as int);
    (
        a.vel.x - w.1 * impulse(a, b, a.pos.x - b.pos.x),
        a.vel.y - w.1 * impulse(a, b, a.pos.y - b.pos.y),
    )
}

/// Velocity of `b` after the elastic exchange, before the speed limit.
pub open spec fn bounce_b(a: MoleculeInfo, b: MoleculeInfo) -> (int, int) {
    let w = mass_weights(a.mass as int, b.mass as int);
    (
        b.vel.x + w.0 * impulse(a, b, a.pos.x - b.pos.x),
        b.vel.y + w.0 * impulse(a, b, a.pos.y - b.pos.y),
    )
}

/// The offset between two centers once they are pushed apart: along the
/// old offset (or along +x for coincident centers), of length `1.01 * sum_r`
/// rounded toward zero per component.
pub open spec fn target_offset(dx: int, dy: int, sum_r: int) -> (int, int) {
    let dd = dx * dx + dy * dy;
    let k = 101 * sum_r;
    if dd == 0 {
        (k / 100, 0)
    } else {
        let m = 100 * floor_sqrt(dd);
        (tdiv(dx * k, m), tdiv(dy * k, m))
    }
}

/// The move of `a` in the de-penetration; `b` moves by the rest, the other way.
pub open spec fn push_a(a: MoleculeInfo, b: MoleculeInfo) -> (int, int) {
    let dx = a.pos.x - b.pos.x;
    let dy = a.pos.y - b.pos.y;
    let t = target_offset(dx, dy, a.radius + b.radius);
    (tdiv(t.0 - dx, 2), tdiv(t.1 - dy, 2))
}

pub open spec fn push_b(a: MoleculeInfo, b: MoleculeInfo) -> (int, int) {
    let dx = a.pos.x - b.pos.x;
    let dy = a.pos.y - b.pos.y;
    let t = target_offset(dx, dy, a.radius + b.radius);
    let p = push_a(a, b);
    (t.0 - dx - p.0, t.1 - dy - p.1)
}

/// Two molecules after a resolved contact: elastic exchange of velocity
/// along the line of centers, then de-penetration; speeds and coordinates
/// are held to the representable range.
pub open spec fn contact_result(a: MoleculeInfo, b: MoleculeInfo) -> (MoleculeInfo, MoleculeInfo) {
    let va = bounce_a(a, b);
    let vb = bounce_b(a, b);
    let pa = push_a(a, b);
    let pb = push_b(a, b);
    let sl = SPEED_LIMIT as int;
    let pl = POS_LIMIT as int;
    (
        MoleculeInfo {
            pos: Point {
                x: clamp(a.pos.x + pa.0, -pl, pl) as i64,
                y: clamp(a.pos.y + pa.1, -pl, pl) as i64,
            },
            vel: Point { x: clamp(va.0, -sl, sl) as i64, y: clamp(va.1, -sl, sl) as i64 },
            ..a
        },
        MoleculeInfo {
            pos: Point {
                x: clamp(b.pos.x - pb.0, -pl, pl) as i64,
                y: clamp(b.pos.y - pb.1, -pl, pl) as i64,
            },
            vel: Point { x: clamp(vb.0, -sl, sl) as i64, y: clamp(vb.1, -sl, sl) as i64 },
            ..b
        },
    )
}

/// `target_offset`, computed.
fn target_offset_exec(dx: i128, dy: i128, dd: i128, sum_r: i128) -> (r: (i128, i128))
    requires
        -2 * POS_LIMIT <= dx <= 2 * POS_LIMIT,
        -2 * POS_LIMIT <= dy <= 2 * POS_LIMIT,
        dd == dx * dx + dy * dy,
        0 <= sum_r <= 2 * MAX_SPECIES_RADIUS,
    ensures
        r.0 == target_offset(dx as int, dy as int, sum_r as int).0,
        r.1 == target_offset(dx as int, dy as int, sum_r as int).1,
        -20_000_000_000_000_000 <= r.0 <= 20_000_000_000_000_000,
        -20_000_000_000_000_000 <= r.1 <= 20_000_000_000_000_000,
{
    let k: i128 = 101 * sum_r;
    proof {
        lemma_sq_bound(dx as int, 2_000_000_000);
        lemma_sq_bound(dy as int, 2_000_000_000);
    }
    if dd == 0 {
        (k / 100, 0)
    } else {
        assert(dd <= 8_000_000_000_000_000_000);
        let s: u64 = isqrt(dd as u64);
        proof {
            assert(dd as u64 as int == dd as int);
            assert(s >= 1) by (nonlinear_arith)
                requires
                    dd >= 1,
                    dd < (s + 1) * (s + 1),
                    s >= 0,
            ;
            assert(s * s <= dd);
            lemma_mul_bound(s as int, s as int, 0x1_0000_0000, 0x1_0000_0000);
        }
        let m: i128 = 100 * (s as i128);
        proof {
            assert(0 <= k <= 4_848_000);
            lemma_mul_bound(dx as int, k as int, 2_000_000_000, 4_848_000);
            lemma_mul_bound(dy as int, k as int, 2_000_000_000, 4_848_000);
            assert(-20_000_000_000_000_000 <= dx * k <= 20_000_000_000_000_000);
            lemma_tdiv_bound(dx * k, m as int);
            lemma_tdiv_bound(dy * k, m as int);
        }
        (div_trunc(dx * k, m), div_trunc(dy * k, m))
    }
}

/// Resolves a contact between two molecules: the elastic exchange of
/// momentum along the line of centers, then the push that leaves their
/// centers `1.01 ×` the sum of the radii apart.
pub fn resolve_contact(a: MoleculeInfo, b: MoleculeInfo) -> (r: (MoleculeInfo, MoleculeInfo))
    requires
        a.wf(),
        b.wf(),
    ensures
        r == contact_result(a, b),
        r.0.wf(),
        r.1.wf(),
{
    let pl: i128 = POS_LIMIT as i128;
    let dx: i128 = a.pos.x as i128 - b.pos.x as i128;
    let dy: i128 = a.pos.y as i128 - b.pos.y as i128;
    let ux: i128 = a.vel.x as i128 - b.vel.x as i128;
    let uy: i128 = a.vel.y as i128 - b.vel.y as i128;
    proof {
        lemma_sq_bound(dx as int, 2_000_000_000);
        lemma_sq_bound(dy as int, 2_000_000_000);
        lemma_mul_bound(ux as int, dx as int, 2_000_000_000, 2_000_000_000);
        lemma_mul_bound(uy as int, dy as int, 2_000_000_000, 2_000_000_000);
    }
    let dot: i128 = ux * dx + uy * dy;
    let dd: i128 = dx * dx + dy * dy;
    assert(dot == closing_dot(a, b));
    assert(dd == dist_sq(a.pos, b.pos));
    let (wa, wb): (i128, i128) = if a.mass == b.mass {
        (1, 1)
    } else {
        (a.mass as i128, b.mass as i128)
    };
    assert(wa == mass_weights(a.mass as int, b.mass as int).0);
    assert(wb == mass_weights(a.mass as int, b.mass as int).1);
    let ghost bound: int = 32_000_000_000_000_000_000_000_000_000;
    let (qx, qy): (i128, i128) = if dd == 0 {
        (0, 0)
    } else {
        proof {
            lemma_mul_bound(dx as int, dot as int, 2_000_000_000, 8_000_000_000_000_000_000);
            lemma_mul_bound(dy as int, dot as int, 2_000_000_000, 8_000_000_000_000_000_000);
            assert(dd >= 1);
            lemma_mul_bound(dd as int, (wa + wb) as int, 8_000_000_000_000_000_000, 40);
            assert(dd * (wa + wb) >= 1) by (nonlinear_arith)
                requires
                    dd >= 1,
                    wa + wb >= 1,
            ;
            lemma_tdiv_bound(2 * (dx * dot), dd * (wa + wb));
            lemma_tdiv_bound(2 * (dy * dot), dd * (wa + wb));
        }
        let den: i128 = dd * (wa + wb);
        (div_trunc(2 * (dx * dot), den), div_trunc(2 * (dy * dot), den))
    };
    assert(qx == impulse(a, b, dx as int));
    assert(qy == impulse(a, b, dy as int));
    proof {
        lemma_mul_bound(wa as int, qx as int, 20, bound);
        lemma_mul_bound(wb as int, qx as int, 20, bound);
        lemma_mul_bound(wa as int, qy as int, 20, bound);
        lemma_mul_bound(wb as int, qy as int, 20, bound);
    }
    let vax = clamp_to_i64(a.vel.x as i128 - wb * qx, SPEED_LIMIT);
    let vay = clamp_to_i64(a.vel.y as i128 - wb * qy, SPEED_LIMIT);
    let vbx = clamp_to_i64(b.vel.x as i128 + wa * qx, SPEED_LIMIT);
    let vby = clamp_to_i64(b.vel.y as i128 + wa * qy, SPEED_LIMIT);

    let sum_r: i128 = a.radius as i128 + b.radius as i128;
    let (tx, ty) = target_offset_exec(dx, dy, dd, sum_r);
    let pax: i128 = div_trunc(tx - dx, 2);
    let pay: i128 = div_trunc(ty - dy, 2);
    proof {
        lemma_tdiv_bound(tx - dx, 2);
        lemma_tdiv_bound(ty - dy, 2);
    }
    let pbx: i128 = tx - dx - pax;
    let pby: i128 = ty - dy - pay;
    let na = MoleculeInfo {
        pos: Point {
            x: clamp_to_i64(a.pos.x as i128 + pax, POS_LIMIT),
            y: clamp_to_i64(a.pos.y as i128 + pay, POS_LIMIT),
        },
        vel: Point { x: vax, y: vay },
        ..a
    };
    let nb = MoleculeInfo {
        pos: Point {
            x: clamp_to_i64(b.pos.x as i128 - pbx, POS_LIMIT),
            y: clamp_to_i64(b.pos.y as i128 - pby, POS_LIMIT),
        },
        vel: Point { x: vbx, y: vby },
        ..b
    };
    (na, nb)
}

} // verus!

verus! {

/// Equal masses meeting head on, with opposite velocities along the line of
/// centers, leave the contact with their velocities exchanged.
pub proof fn lemma_equal_mass_head_on_swap(a: MoleculeInfo, b: MoleculeInfo)
    requires
        a.wf(),
        b.wf(),
        a.mass == b.mass,
        b.vel.x == -a.vel.x,
        b.vel.y == -a.vel.y,
        a.vel.x * (a.pos.y - b.pos.y) == a.vel.y * (a.pos.x - b.pos.x),
        dist_sq(a.pos, b.pos) > 0,
    ensures
        contact_result(a, b).0.vel == b.vel,
        contact_result(a, b).1.vel == a.vel,
{
    let dx = a.pos.x - b.pos.x;
    let dy = a.pos.y - b.pos.y;
    let dd = dist_sq(a.pos, b.pos);
    let vx = a.vel.x as int;
    let vy = a.vel.y as int;
    let dot = closing_dot(a, b);
    assert(dot == 2 * (vx * dx + vy * dy)) by (nonlinear_arith)
        requires
            dot == (vx - (-vx)) * dx + (vy - (-vy)) * dy,
    ;
    assert(2 * (dx * dot) == (2 * vx) * (dd * 2)) by (nonlinear_arith)
        requires
            dot == 2 * (vx * dx + vy * dy),
            vx * dy == vy * dx,
            dd == dx * dx + dy * dy,
    ;
    assert(2 * (dy * dot) == (2 * vy) * (dd * 2)) by (nonlinear_arith)
        requires
            dot == 2 * (vx * dx + vy * dy),
            vx * dy == vy * dx,
            dd == dx * dx + dy * dy,
    ;
    crate::geometry::lemma_tdiv_exact(2 * vx, dd * 2);
    crate::geometry::lemma_tdiv_exact(2 * vy, dd * 2);
    assert(impulse(a, b, dx) == 2 * vx);
    assert(impulse(a, b, dy) == 2 * vy);
}

/// A resolved contact keeps the pair's total momentum exactly, as long as
/// no new velocity component reaches the speed limit.
pub proof fn lemma_contact_conserves_momentum(a: MoleculeInfo, b: MoleculeInfo)
    requires
        a.wf(),
        b.wf(),
        -SPEED_LIMIT <= bounce_a(a, b).0 <= SPEED_LIMIT,
        -SPEED_LIMIT <= bounce_a(a, b).1 <= SPEED_LIMIT,
        -SPEED_LIMIT <= bounce_b(a, b).0 <= SPEED_LIMIT,
        -SPEED_LIMIT <= bounce_b(a, b).1 <= SPEED_LIMIT,
    ensures
        a.mass * contact_result(a, b).0.vel.x + b.mass * contact_result(a, b).1.vel.x == a.mass
            * a.vel.x + b.mass * b.vel.x,
        a.mass * contact_result(a, b).0.vel.y + b.mass * contact_result(a, b).1.vel.y == a.mass
            * a.vel.y + b.mass * b.vel.y,
{
    let ma = a.mass as int;
    let mb = b.mass as int;
    let w = mass_weights(ma, mb);
    let qx = impulse(a, b, a.pos.x - b.pos.x);
    let qy = impulse(a, b, a.pos.y - b.pos.y);
    assert(ma * w.1 == mb * w.0);
    assert(ma * (a.vel.x - w.1 * qx) + mb * (b.vel.x + w.0 * qx) == ma * a.vel.x + mb * b.vel.x)
        by (nonlinear_arith)
        requires
            ma * w.1 == mb * w.0,
    ;
    assert(ma * (a.vel.y - w.1 * qy) + mb * (b.vel.y + w.0 * qy) == ma * a.vel.y + mb * b.vel.y)
        by (nonlinear_arith)
        requires
            ma * w.1 == mb * w.0,
    ;
}

/// One component of the pushed-apart offset, in magnitude: the rounded-down
/// quotient `f` falls short of the exact one by less than one.
proof fn lemma_component_floor(dc: int, k: int, m: int)
    requires
        k >= 0,
        m >= 1,
    ensures
        tdiv(dc * k, m) * tdiv(dc * k, m) == ((if dc >= 0 { dc } else { -dc }) * k / m) * ((if dc
            >= 0 { dc } else { -dc }) * k / m),
        0 <= (if dc >= 0 { dc } else { -dc }) * k / m,
        ((if dc >= 0 { dc } else { -dc }) * k / m + 1) * m > (if dc >= 0 { dc } else { -dc }) * k,
{
    let ac = if dc >= 0 {
        dc
    } else {
        -dc
    };
    let f = ac * k / m;
    assert(ac * k >= 0) by (nonlinear_arith)
        requires
            ac >= 0,
            k >= 0,
    ;
    if dc < 0 {
        assert(-(dc * k) == ac * k) by (nonlinear_arith)
            requires
                ac == -dc,
        ;
        assert(dc * k <= 0) by (nonlinear_arith)
            requires
                dc < 0,
                k >= 0,
        ;
    }
    if dc < 0 && dc * k < 0 {
        assert(tdiv(dc * k, m) == -f);
        assert((-f) * (-f) == f * f) by (nonlinear_arith);
    } else {
        assert(tdiv(dc * k, m) == f);
    }
    vstd::arithmetic::div_mod::lemma_div_pos_is_pos(ac * k, m);
    vstd::arithmetic::div_mod::lemma_fundamental_div_mod(ac * k, m);
    assert((f + 1) * m > ac * k) by (nonlinear_arith)
        requires
            ac * k == m * f + (ac * k) % m,
            (ac * k) % m < m,
    ;
}

/// The pushed-apart offset is at least `0.99 ×` the sum of the radii long.
pub proof fn lemma_target_offset_far(dx: int, dy: int, sum_r: int)
    requires
        sum_r >= 100,
    ensures
        10000 * (target_offset(dx, dy, sum_r).0 * target_offset(dx, dy, sum_r).0
            + target_offset(dx, dy, sum_r).1 * target_offset(dx, dy, sum_r).1) >= 9801 * sum_r
            * sum_r,
{
    let k = 101 * sum_r;
    let dd = dx * dx + dy * dy;
    let t = target_offset(dx, dy, sum_r);
    if dd == 0 {
        let q = k / 100;
        vstd::arithmetic::div_mod::lemma_fundamental_div_mod(k, 100);
        assert(q >= sum_r) by (nonlinear_arith)
            requires
                k == 100 * q + k % 100,
                k % 100 < 100,
                k == 101 * sum_r,
                sum_r >= 100,
        ;
        assert(10000 * (q * q + 0 * 0) >= 9801 * sum_r * sum_r) by (nonlinear_arith)
            requires
                q >= sum_r,
                sum_r >= 100,
        ;
    } else {
        assert(dd >= 0) by (nonlinear_arith)
            requires
                dd == dx * dx + dy * dy,
        ;
        crate::geometry::lemma_floor_sqrt_exists(dd);
        let s = floor_sqrt(dd);
        assert(s >= 1) by (nonlinear_arith)
            requires
                dd >= 1,
                dd < (s + 1) * (s + 1),
                s >= 0,
        ;
        let m = 100 * s;
        lemma_component_floor(dx, k, m);
        lemma_component_floor(dy, k, m);
        let ax = if dx >= 0 {
            dx
        } else {
            -dx
        };
        let ay = if dy >= 0 {
            dy
        } else {
            -dy
        };
        let fx = ax * k / m;
        let fy = ay * k / m;
        assert(dd == ax * ax + ay * ay) by (nonlinear_arith)
            requires
                dd == dx * dx + dy * dy,
                ax == dx || ax == -dx,
                ay == dy || ay == -dy,
        ;
        assert(((fx + 1) * (fx + 1) + (fy + 1) * (fy + 1)) * (m * m) >= dd * (k * k))
            by (nonlinear_arith)
            requires
                (fx + 1) * m > ax * k,
                (fy + 1) * m > ay * k,
                ax >= 0,
                ay >= 0,
                k >= 0,
                fx >= 0,
                fy >= 0,
                m >= 1,
                dd == ax * ax + ay * ay,
        ;
        assert(10000 * ((fx + 1) * (fx + 1) + (fy + 1) * (fy + 1)) >= k * k) by (nonlinear_arith)
            requires
                ((fx + 1) * (fx + 1) + (fy + 1) * (fy + 1)) * (m * m) >= dd * (k * k),
                s * s <= dd,
                m == 100 * s,
                s >= 1,
                k >= 0,
        ;
        assert(10000 * (fx * fx + fy * fy) >= 9801 * sum_r * sum_r) by (nonlinear_arith)
            requires
                10000 * ((fx + 1) * (fx + 1) + (fy + 1) * (fy + 1)) >= k * k,
                k == 101 * sum_r,
                sum_r >= 100,
                fx >= 0,
                fy >= 0,
        ;
    }
}

/// Right after a resolved contact the two centers are at least `0.99 ×` the
/// sum of the radii apart, as long as neither was held at the coordinate
/// limit.
pub proof fn lemma_contact_separates(a: MoleculeInfo, b: MoleculeInfo)
    requires
        a.wf(),
        b.wf(),
        -POS_LIMIT <= a.pos.x + push_a(a, b).0 <= POS_LIMIT,
        -POS_LIMIT <= a.pos.y + push_a(a, b).1 <= POS_LIMIT,
        -POS_LIMIT <= b.pos.x - push_b(a, b).0 <= POS_LIMIT,
        -POS_LIMIT <= b.pos.y - push_b(a, b).1 <= POS_LIMIT,
    ensures
        10000 * dist_sq(contact_result(a, b).0.pos, contact_result(a, b).1.pos) >= 9801 * (
        a.radius + b.radius) * (a.radius + b.radius),
{
    let dx = a.pos.x - b.pos.x;
    let dy = a.pos.y - b.pos.y;
    let t = target_offset(dx, dy, a.radius + b.radius);
    let r = contact_result(a, b);
    assert(r.0.pos.x - r.1.pos.x == t.0);
    assert(r.0.pos.y - r.1.pos.y == t.1);
    lemma_target_offset_far(dx, dy, a.radius + b.radius);
}

} // verus!
