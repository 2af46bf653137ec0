use vstd::prelude::*;
use crate::arena::{x_max, x_min, y_max, y_min};
use crate::bodies::{MoleculeInfo, PlayerInfo, GROWTH_FULL, HIT_INVULNERABILITY, HIT_STUN};
use crate::geometry::{
    clamp, clamp_to_i64, div_trunc, lemma_mul_bound, lemma_tdiv_bound, tdiv, within, Point, POS_LIMIT,
};
use crate::resolver::all_wf;
use crate::timeline::MAX_FRAME;

verus! {

/// A molecule touches the player when its center comes this much closer
/// than the player's radius.
pub const PLAYER_CONTACT_MARGIN: i64 = 8_000;

/// A molecule after the end-of-pass update of a frame of `dt` microseconds:
/// the reacted mark is cleared, the cooldown runs down toward zero, the
/// cosmetic growth ramps up over a third of a second, the position moves by
/// the velocity, and a velocity component is turned around once the center
/// has left the play field along it.
pub open spec fn integrated(m: MoleculeInfo, dt: u64) -> MoleculeInfo {
    let pl = POS_LIMIT as int;
    let x = clamp(m.pos.x + tdiv(m.vel.x * dt, 1_000_000), -pl, pl);
    let y = clamp(m.pos.y + tdiv(m.vel.y * dt, 1_000_000), -pl, pl);
    let r = m.radius as int;
    let g = m.spawn_growth + dt * 3 / 1000;
    MoleculeInfo {
        pos: Point { x: x as i64, y: y as i64 },
        vel: Point {
            x: if x > x_max(r) || x < x_min(r) {
                -m.vel.x
            } else {
                m.vel.x as int
            } as i64,
            y: if y > y_max(r) || y < y_min(r) {
                -m.vel.y
            } else {
                m.vel.y as int
            } as i64,
        },
        reacted: false,
        reaction_cooldown: if m.reaction_cooldown > dt {
            (m.reaction_cooldown - dt) as u64
        } else {
            0
        },
        spawn_growth: if g > GROWTH_FULL {
            GROWTH_FULL
        } else {
            g as u64
        },
        ..m
    }
}

fn integrate_one(m: MoleculeInfo, dt: u64) -> (r: MoleculeInfo)
    requires
        m.wf(),
        dt <= MAX_FRAME,
    ensures
        r == integrated(m, dt),
        r.wf(),
{
    proof {
        lemma_mul_bound(m.vel.x as int, dt as int, 1_000_000_000, 10_000_000);
        lemma_mul_bound(m.vel.y as int, dt as int, 1_000_000_000, 10_000_000);
        lemma_tdiv_bound(m.vel.x * dt, 1_000_000);
        lemma_tdiv_bound(m.vel.y * dt, 1_000_000);
    }
    let sx = div_trunc(m.vel.x as i128 * dt as i128, 1_000_000);
    let sy = div_trunc(m.vel.y as i128 * dt as i128, 1_000_000);
    let x = clamp_to_i64(m.pos.x as i128 + sx, POS_LIMIT);
    let y = clamp_to_i64(m.pos.y as i128 + sy, POS_LIMIT);
    let r = m.radius;
    let vx = if x > 518_500 - r || x < -516_500 + r {
        -m.vel.x
    } else {
        m.vel.x
    };
    let vy = if y > 340_000 - r || y < -329_000 + r {
        -m.vel.y
    } else {
        m.vel.y
    };
    let g = m.spawn_growth + dt * 3 / 1000;
    MoleculeInfo {
        pos: Point { x, y },
        vel: Point { x: vx, y: vy },
        reacted: false,
        reaction_cooldown: m.reaction_cooldown.saturating_sub(dt),
        spawn_growth: if g > GROWTH_FULL {
            GROWTH_FULL
        } else {
            g
        },
        ..m
    }
}

/// The molecules not marked for removal, in order.
pub open spec fn survivors(ms: Seq<MoleculeInfo>, removed: Seq<bool>) -> Seq<MoleculeInfo>
    decreases ms.len(),
{
    if ms.len() == 0 {
        Seq::empty()
    } else {
        survivors(ms.drop_last(), removed) + if removed[ms.len() - 1] {
            Seq::empty()
        } else {
            seq![ms.last()]
        }
    }
}

/// Drops the molecules marked for removal and applies the end-of-pass
/// update to the others.
pub fn integrate_survivors(ms: Vec<MoleculeInfo>, removed: &Vec<bool>, dt: u64) -> (r: Vec<
    MoleculeInfo,
>)
    requires
        all_wf(ms@),
        removed.len() == ms.len(),
        dt <= MAX_FRAME,
    ensures
        r@ == survivors(ms@, removed@).map_values(|m: MoleculeInfo| integrated(m, dt)),
        all_wf(r@),
{
    let mut out: Vec<MoleculeInfo> = Vec::new();
    let mut i: usize = 0;
    while i < ms.len()
        invariant
            i <= ms.len(),
            removed.len() == ms.len(),
            all_wf(ms@),
            dt <= MAX_FRAME,
            out@ == survivors(ms@.subrange(0, i as int), removed@).map_values(
                |m: MoleculeInfo| integrated(m, dt),
            ),
            all_wf(out@),
        decreases ms.len() - i,
    {
        let ghost before = ms@.subrange(0, i as int);
        let ghost after = ms@.subrange(0, i + 1);
        assert(after.drop_last() =~= before);
        assert(ms@[i as int].wf());
        if !removed[i] {
            let m = integrate_one(ms[i], dt);
            out.push(m);
        }
        assert(out@ =~= survivors(after, removed@).map_values(|m: MoleculeInfo| integrated(m, dt)));
        i += 1;
    }
    assert(ms@.subrange(0, ms.len() as int) =~= ms@);
    out
}

/// A molecule touches the player.
pub open spec fn touches_player(m: MoleculeInfo, p: PlayerInfo) -> bool {
    crate::geometry::dist_sq(m.pos, p.pos) <= (p.radius + PLAYER_CONTACT_MARGIN) * (p.radius
        + PLAYER_CONTACT_MARGIN)
}

/// The molecules that do not touch the player, in order.
pub open spec fn clear_of_player(ms: Seq<MoleculeInfo>, p: PlayerInfo) -> Seq<MoleculeInfo>
    decreases ms.len(),
{
    if ms.len() == 0 {
        Seq::empty()
    } else {
        clear_of_player(ms.drop_last(), p) + if touches_player(ms.last(), p) {
            Seq::empty()
        } else {
            seq![ms.last()]
        }
    }
}

/// The player after a hit (see `PlayerInfo::take_damage`).
pub open spec fn hurt(p: PlayerInfo) -> PlayerInfo {
    if p.invul_duration == 0 {
        PlayerInfo {
            lives: if p.lives > 0 {
                (p.lives - 1) as u64
            } else {
                0
            },
            invul_duration: HIT_INVULNERABILITY,
            stun_duration: HIT_STUN,
            ..p
        }
    } else {
        p
    }
}

/// Removes every molecule that touches the player; each is a hit on the
/// player, so at most the first can hurt. Returns the molecules left and
/// whether the player was hurt.
pub fn player_contact(ms: Vec<MoleculeInfo>, player: &mut PlayerInfo) -> (r: (Vec<MoleculeInfo>, bool))
    requires
        all_wf(ms@),
        old(player).wf(),
    ensures
        r.0@ == clear_of_player(ms@, *old(player)),
        all_wf(r.0@),
        r.1 == (old(player).invul_duration == 0 && clear_of_player(ms@, *old(player)).len()
            < ms.len()),
        *final(player) == if clear_of_player(ms@, *old(player)).len() < ms.len() {
            hurt(*old(player))
        } else {
            *old(player)
        },
{
    let ghost p0 = *player;
    let reach = player.radius + PLAYER_CONTACT_MARGIN;
    let mut out: Vec<MoleculeInfo> = Vec::new();
    let mut hurt_now = false;
    let mut i: usize = 0;
    while i < ms.len()
        invariant
            i <= ms.len(),
            all_wf(ms@),
            p0.wf(),
            player.pos == p0.pos,
            player.radius == p0.radius,
            reach == p0.radius + PLAYER_CONTACT_MARGIN,
            out@ == clear_of_player(ms@.subrange(0, i as int), p0),
            all_wf(out@),
            out.len() <= i,
            hurt_now == (p0.invul_duration == 0 && out.len() < i),
            *player == if out.len() < i {
                hurt(p0)
            } else {
                p0
            },
        decreases ms.len() - i,
    {
        let ghost before = ms@.subrange(0, i as int);
        let ghost after = ms@.subrange(0, i + 1);
        assert(after.drop_last() =~= before);
        let m = ms[i];
        assert(m.wf()) by {
            assert(ms@[i as int].wf());
        }
        if within(m.pos, player.pos, reach) {
            let h = player.take_damage();
            hurt_now = hurt_now || h;
        } else {
            out.push(m);
        }
        assert(out@ =~= clear_of_player(after, p0));
        i += 1;
    }
    assert(ms@.subrange(0, ms.len() as int) =~= ms@);
    (out, hurt_now)
}

} // verus!
