use vstd::prelude::*;
use crate::arena::Reactor;
use crate::bodies::PlayerInfo;
use crate::geometry::{
    aim, aimed, clamp, clamp_to_i64, div_trunc, lemma_mul_bound, lemma_sq_bound, lemma_tdiv_bound,
    tdiv, Point, POS_LIMIT,
};
use crate::timeline::MAX_FRAME;

verus! {

/// The player does not move toward a cursor closer than this.
pub const DEAD_ZONE: i64 = 10_000;

/// The player's center keeps this far from the reactor's.
pub const REACTOR_CLEARANCE: i64 = 88_000;

/// The field that the player's center may cross (it is narrower than the
/// molecules' field by the wall's width).
pub const PLAYER_X_MIN: i64 = -481_000;

pub const PLAYER_X_MAX: i64 = 485_000;

pub const PLAYER_Y_MIN: i64 = -317_000;

pub const PLAYER_Y_MAX: i64 = 263_000;

/// `v`, shortened to length `max` when it is longer.
pub open spec fn capped(v: (int, int), max: int) -> Point {
    if v.0 * v.0 + v.1 * v.1 > max * max {
        aimed(v.0, v.1, max)
    } else {
        Point { x: v.0 as i64, y: v.1 as i64 }
    }
}

/// The player's velocity for a frame with the cursor at offset `(ox, oy)`:
/// it speeds up toward the cursor, up to its top speed, unless the cursor
/// is in the dead zone or a swing is under way, which stop it.
pub open spec fn steered_velocity(p: PlayerInfo, ox: int, oy: int, swinging: bool, dt: u64) -> Point {
    if !swinging && ox * ox + oy * oy >= DEAD_ZONE * DEAD_ZONE {
        let a = aimed(ox, oy, p.acc as int);
        capped(
            (p.vel.x + tdiv(a.x * dt, 1_000_000), p.vel.y + tdiv(a.y * dt, 1_000_000)),
            p.max_vel as int,
        )
    } else {
        Point { x: 0, y: 0 }
    }
}

/// Where the player ends up: the move, held inside the field, and pushed
/// out to the clearance ring when it comes too near the reactor.
pub open spec fn steered_position(pos: Point, v: Point, reactor: Reactor, dt: u64) -> Point {
    let mx = clamp(pos.x + tdiv(v.x * dt, 1_000_000), PLAYER_X_MIN as int, PLAYER_X_MAX as int);
    let my = clamp(pos.y + tdiv(v.y * dt, 1_000_000), PLAYER_Y_MIN as int, PLAYER_Y_MAX as int);
    let rx = mx - reactor.center.x;
    let ry = my - reactor.center.y;
    if rx * rx + ry * ry > REACTOR_CLEARANCE * REACTOR_CLEARANCE {
        Point { x: mx as i64, y: my as i64 }
    } else {
        let e = aimed(rx, ry, REACTOR_CLEARANCE as int);
        Point { x: (reactor.center.x + e.x) as i64, y: (reactor.center.y + e.y) as i64 }
    }
}

/// The player after a frame of steering toward the cursor, if there is one.
pub open spec fn steered(
    p0: PlayerInfo,
    cursor: Option<Point>,
    swinging: bool,
    reactor: Reactor,
    dt: u64,
) -> PlayerInfo {
    let p = PlayerInfo { invul_duration: p0.invul_duration.saturating_sub(dt), ..p0 };
    if p.stun_duration > 0 {
        PlayerInfo {
            stun_duration: p.stun_duration.saturating_sub(dt),
            vel: Point { x: 0, y: 0 },
            ..p
        }
    } else {
        match cursor {
            None => PlayerInfo { vel: Point { x: 0, y: 0 }, ..p },
            Some(t) => {
                let v = steered_velocity(p, t.x - p.pos.x, t.y - p.pos.y, swinging, dt);
                PlayerInfo { vel: v, pos: steered_position(p.pos, v, reactor, dt), ..p }
            },
        }
    }
}

proof fn lemma_sq_le_within(x: int, m: int)
    requires
        m >= 0,
        x * x <= m * m,
    ensures
        -m <= x <= m,
{
    assert(-m <= x <= m) by (nonlinear_arith)
        requires
            m >= 0,
            x * x <= m * m,
    ;
}

fn steer_velocity(p: &PlayerInfo, cursor: Point, swinging: bool, dt: u64) -> (r: Point)
    requires
        p.wf(),
        cursor.in_range(POS_LIMIT as int),
        dt <= MAX_FRAME,
    ensures
        r == steered_velocity(*p, cursor.x - p.pos.x, cursor.y - p.pos.y, swinging, dt),
        r.in_range(p.max_vel as int),
{
    let ox: i128 = cursor.x as i128 - p.pos.x as i128;
    let oy: i128 = cursor.y as i128 - p.pos.y as i128;
    proof {
        lemma_sq_bound(ox as int, 2_000_000_000);
        lemma_sq_bound(oy as int, 2_000_000_000);
    }
    if swinging || ox * ox + oy * oy < 100_000_000 {
        return Point { x: 0, y: 0 };
    }
    let a = aim(ox, oy, p.acc);
    proof {
        lemma_mul_bound(a.x as int, dt as int, 100_000_000, 10_000_000);
        lemma_mul_bound(a.y as int, dt as int, 100_000_000, 10_000_000);
        lemma_tdiv_bound(a.x * dt, 1_000_000);
        lemma_tdiv_bound(a.y * dt, 1_000_000);
    }
    let vx: i128 = p.vel.x as i128 + div_trunc(a.x as i128 * dt as i128, 1_000_000);
    let vy: i128 = p.vel.y as i128 + div_trunc(a.y as i128 * dt as i128, 1_000_000);
    proof {
        lemma_sq_bound(vx as int, 2_000_000_000);
        lemma_sq_bound(vy as int, 2_000_000_000);
        lemma_sq_bound(p.max_vel as int, 1_000_000_000);
    }
    let m: i128 = p.max_vel as i128;
    if vx * vx + vy * vy > m * m {
        aim(vx, vy, p.max_vel)
    } else {
        proof {
            assert(vx * vx <= m * m && vy * vy <= m * m) by (nonlinear_arith)
                requires
                    vx * vx + vy * vy <= m * m,
            ;
            lemma_sq_le_within(vx as int, m as int);
            lemma_sq_le_within(vy as int, m as int);
        }
        Point { x: vx as i64, y: vy as i64 }
    }
}

fn steer_position(pos: Point, v: Point, reactor: &Reactor, dt: u64) -> (r: Point)
    requires
        pos.in_range(POS_LIMIT as int),
        v.in_range(POS_LIMIT as int),
        reactor.wf(),
        dt <= MAX_FRAME,
    ensures
        r == steered_position(pos, v, *reactor, dt),
        r.in_range(POS_LIMIT as int),
{
    proof {
        lemma_mul_bound(v.x as int, dt as int, 1_000_000_000, 10_000_000);
        lemma_mul_bound(v.y as int, dt as int, 1_000_000_000, 10_000_000);
        lemma_tdiv_bound(v.x * dt, 1_000_000);
        lemma_tdiv_bound(v.y * dt, 1_000_000);
    }
    let sx = div_trunc(v.x as i128 * dt as i128, 1_000_000);
    let sy = div_trunc(v.y as i128 * dt as i128, 1_000_000);
    let mx: i128 = clamp_to_i64(pos.x as i128 + sx - 2_000, 483_000) as i128 + 2_000;
    let my: i128 = clamp_to_i64(pos.y as i128 + sy + 27_000, 290_000) as i128 - 27_000;
    let rx: i128 = mx - reactor.center.x as i128;
    let ry: i128 = my - reactor.center.y as i128;
    proof {
        lemma_sq_bound(rx as int, 2_000_000_000);
        lemma_sq_bound(ry as int, 2_000_000_000);
    }
    if rx * rx + ry * ry > 7_744_000_000 {
        Point { x: mx as i64, y: my as i64 }
    } else {
        let e = aim(rx, ry, REACTOR_CLEARANCE);
        Point { x: reactor.center.x + e.x, y: reactor.center.y + e.y }
    }
}

/// Steers the player for a frame of `dt` microseconds toward the cursor
/// (none when it has left the window). Invulnerability runs down; a stunned
/// player stands still while the stun runs down; otherwise the player
/// speeds up toward the cursor, stays inside the field, and keeps clear of
/// the reactor.
pub fn player_movement(
    player: &mut PlayerInfo,
    cursor: Option<Point>,
    swinging: bool,
    reactor: &Reactor,
    dt: u64,
)
    requires
        old(player).wf(),
        reactor.wf(),
        dt <= MAX_FRAME,
        cursor matches Some(t) ==> t.in_range(POS_LIMIT as int),
    ensures
        *final(player) == steered(*old(player), cursor, swinging, *reactor, dt),
        final(player).wf(),
{
    player.invul_duration = player.invul_duration.saturating_sub(dt);
    if player.stun_duration > 0 {
        player.stun_duration = player.stun_duration.saturating_sub(dt);
        player.vel = Point { x: 0, y: 0 };
        return;
    }
    match cursor {
        None => {
            player.vel = Point { x: 0, y: 0 };
        },
        Some(t) => {
            let v = steer_velocity(player, t, swinging, dt);
            let pos = steer_position(player.pos, v, reactor, dt);
            player.vel = v;
            player.pos = pos;
        },
    }
}

} // verus!
