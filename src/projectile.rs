use vstd::prelude::*;
use crate::bodies::{BulletInfo, PlayerInfo};
use crate::geometry::{aim, aimed, clamp, clamp_to_i64, dist_sq, strictly_within, Point, POS_LIMIT};
use crate::motion::hurt;
use crate::timeline::MAX_FRAME;

verus! {

/// Speed of a projectile, in thousandths of a pixel per second.
pub const BULLET_SPEED: i64 = 120_000;

/// A projectile has reached the player.
pub open spec fn bullet_hits(b: BulletInfo, p: PlayerInfo) -> bool {
    dist_sq(b.pos, p.pos) < (b.radius + p.radius) * (b.radius + p.radius)
}

/// How far a projectile moves in a frame of `dt` microseconds.
pub open spec fn bullet_stride(dt: u64) -> int {
    BULLET_SPEED * dt / 1_000_000
}

/// A projectile moved straight toward the player by one frame's stride.
pub open spec fn pursued(b: BulletInfo, p: PlayerInfo, dt: u64) -> BulletInfo {
    let v = aimed(p.pos.x - b.pos.x, p.pos.y - b.pos.y, bullet_stride(dt));
    let pl = POS_LIMIT as int;
    BulletInfo {
        pos: Point {
            x: clamp(b.pos.x + v.x, -pl, pl) as i64,
            y: clamp(b.pos.y + v.y, -pl, pl) as i64,
        },
        ..b
    }
}

/// The projectiles left after a frame, each moved toward the player.
pub open spec fn bullets_after(bs: Seq<BulletInfo>, p: PlayerInfo, dt: u64) -> Seq<BulletInfo>
    decreases bs.len(),
{
    if bs.len() == 0 {
        Seq::empty()
    } else {
        bullets_after(bs.drop_last(), p, dt) + if bullet_hits(bs.last(), p) {
            Seq::empty()
        } else {
            seq![pursued(bs.last(), p, dt)]
        }
    }
}

/// How many of the projectiles reach the player this frame.
pub open spec fn bullet_hit_count(bs: Seq<BulletInfo>, p: PlayerInfo) -> int
    decreases bs.len(),
{
    if bs.len() == 0 {
        0
    } else {
        bullet_hit_count(bs.drop_last(), p) + if bullet_hits(bs.last(), p) {
            1int
        } else {
            0
        }
    }
}

pub open spec fn all_bullets_wf(bs: Seq<BulletInfo>) -> bool {
    forall|k: int| 0 <= k < bs.len() ==> #[trigger] bs[k].wf()
}

/// Moves every projectile toward the player; one that has reached the
/// player is removed and hits the player, so at most the first hurts.
/// Returns the projectiles left and whether the player was hurt.
pub fn move_bullet(bs: Vec<BulletInfo>, player: &mut PlayerInfo, dt: u64) -> (r: (Vec<BulletInfo>, bool))
    requires
        all_bullets_wf(bs@),
        old(player).wf(),
        dt <= MAX_FRAME,
    ensures
        r.0@ == bullets_after(bs@, *old(player), dt),
        all_bullets_wf(r.0@),
        r.1 == (old(player).invul_duration == 0 && bullet_hit_count(bs@, *old(player)) > 0),
        *final(player) == if bullet_hit_count(bs@, *old(player)) > 0 {
            hurt(*old(player))
        } else {
            *old(player)
        },
{
    let ghost p0 = *player;
    let stride: i64 = (BULLET_SPEED as u64 * dt / 1_000_000) as i64;
    assert(stride == bullet_stride(dt));
    let mut out: Vec<BulletInfo> = Vec::new();
    let mut hurt_now = false;
    let mut i: usize = 0;
    while i < bs.len()
        invariant
            i <= bs.len(),
            all_bullets_wf(bs@),
            p0.wf(),
            player.pos == p0.pos,
            player.radius == p0.radius,
            stride == bullet_stride(dt),
            0 <= stride <= 1_200_000,
            out@ == bullets_after(bs@.subrange(0, i as int), p0, dt),
            all_bullets_wf(out@),
            hurt_now == (p0.invul_duration == 0 && bullet_hit_count(bs@.subrange(0, i as int), p0)
                > 0),
            bullet_hit_count(bs@.subrange(0, i as int), p0) >= 0,
            *player == if bullet_hit_count(bs@.subrange(0, i as int), p0) > 0 {
                hurt(p0)
            } else {
                p0
            },
        decreases bs.len() - i,
    {
        let ghost before = bs@.subrange(0, i as int);
        let ghost after = bs@.subrange(0, i + 1);
        assert(after.drop_last() =~= before);
        let b = bs[i];
        assert(b.wf()) by {
            assert(bs@[i as int].wf());
        }
        if strictly_within(b.pos, player.pos, b.radius + player.radius) {
            let h = player.take_damage();
            hurt_now = hurt_now || h;
        } else {
            let v = aim(
                player.pos.x as i128 - b.pos.x as i128,
                player.pos.y as i128 - b.pos.y as i128,
                stride,
            );
            let moved = BulletInfo {
                pos: Point {
                    x: clamp_to_i64(b.pos.x as i128 + v.x as i128, POS_LIMIT),
                    y: clamp_to_i64(b.pos.y as i128 + v.y as i128, POS_LIMIT),
                },
                ..b
            };
            out.push(moved);
        }
        assert(out@ =~= bullets_after(after, p0, dt));
        i += 1;
    }
    assert(bs@.subrange(0, bs.len() as int) =~= bs@);
    (out, hurt_now)
}

} // verus!
