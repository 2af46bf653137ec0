use vstd::prelude::*;
use crate::bodies::{BulletInfo, MoleculeInfo};
use crate::geometry::{dist_sq, within, Point, POS_LIMIT};
use crate::projectile::all_bullets_wf;
use crate::resolver::all_wf;

verus! {

/// Largest weapon scale, in thousandths.
pub const MAX_WEAPON_SCALE: i64 = 1_000_000;

/// What the weapon reports for a frame.
#[derive(Debug)]
pub struct WeaponSnapshot {
    /// The swing is in its follow-through and can strike.
    pub active: bool,
    /// Current visual scale of the weapon, in thousandths.
    pub scale: i64,
    /// Where the weapon's collider samples stand, in world space.
    pub colliders: Vec<Point>,
}

impl WeaponSnapshot {
    pub open spec fn wf(self) -> bool {
        &&& 0 <= self.scale <= MAX_WEAPON_SCALE
        &&& forall|k: int|
            0 <= k < self.colliders.len() ==> #[trigger] self.colliders[k].in_range(
                POS_LIMIT as int,
            )
    }
}

/// Reach of one collider sample on a body of radius `r`: six pixels at
/// unit scale, plus the body's radius.
pub open spec fn strike_reach(r: int, scale: int) -> int {
    r + 6 * scale
}

/// Some collider sample reaches a body of radius `r` at `pos`.
pub open spec fn struck(pos: Point, r: int, colliders: Seq<Point>, scale: int) -> bool {
    exists|k: int|
        0 <= k < colliders.len() && dist_sq(pos, #[trigger] colliders[k]) <= strike_reach(r, scale)
            * strike_reach(r, scale)
}

/// The molecules that no sample reaches, in order.
pub open spec fn molecules_spared(ms: Seq<MoleculeInfo>, colliders: Seq<Point>, scale: int) -> Seq<
    MoleculeInfo,
>
    decreases ms.len(),
{
    if ms.len() == 0 {
        Seq::empty()
    } else {
        molecules_spared(ms.drop_last(), colliders, scale) + if struck(
            ms.last().pos,
            ms.last().radius as int,
            colliders,
            scale,
        ) {
            Seq::empty()
        } else {
            seq![ms.last()]
        }
    }
}

/// Points for the struck molecules: one more than the species of each.
pub open spec fn molecule_points(ms: Seq<MoleculeInfo>, colliders: Seq<Point>, scale: int) -> int
    decreases ms.len(),
{
    if ms.len() == 0 {
        0
    } else {
        molecule_points(ms.drop_last(), colliders, scale) + if struck(
            ms.last().pos,
            ms.last().radius as int,
            colliders,
            scale,
        ) {
            ms.last().index + 1
        } else {
            0
        }
    }
}

/// The projectiles that no sample reaches, in order.
pub open spec fn bullets_spared(bs: Seq<BulletInfo>, colliders: Seq<Point>, scale: int) -> Seq<
    BulletInfo,
>
    decreases bs.len(),
{
    if bs.len() == 0 {
        Seq::empty()
    } else {
        bullets_spared(bs.drop_last(), colliders, scale) + if struck(
            bs.last().pos,
            bs.last().radius as int,
            colliders,
            scale,
        ) {
            Seq::empty()
        } else {
            seq![bs.last()]
        }
    }
}

/// One point for each struck projectile.
pub open spec fn bullet_points(bs: Seq<BulletInfo>, colliders: Seq<Point>, scale: int) -> int
    decreases bs.len(),
{
    if bs.len() == 0 {
        0
    } else {
        bullet_points(bs.drop_last(), colliders, scale) + if struck(
            bs.last().pos,
            bs.last().radius as int,
            colliders,
            scale,
        ) {
            1int
        } else {
            0
        }
    }
}

/// `a + b`, held at the largest `u64`.
pub open spec fn add_capped(a: int, b: int) -> u64 {
    if a + b > u64::MAX {
        u64::MAX
    } else {
        (a + b) as u64
    }
}

/// Points are never negative.
pub proof fn lemma_points_nonneg(
    ms: Seq<MoleculeInfo>,
    bs: Seq<BulletInfo>,
    colliders: Seq<Point>,
    scale: int,
)
    ensures
        molecule_points(ms, colliders, scale) >= 0,
        bullet_points(bs, colliders, scale) >= 0,
    decreases ms.len() + bs.len(),
{
    if ms.len() > 0 {
        lemma_points_nonneg(ms.drop_last(), bs, colliders, scale);
    }
    if bs.len() > 0 {
        lemma_points_nonneg(ms, bs.drop_last(), colliders, scale);
    }
}

proof fn lemma_add_capped_step(s0: int, p: int, x: int)
    requires
        0 <= s0 <= u64::MAX,
        p >= 0,
        x >= 0,
    ensures
        add_capped(add_capped(s0, p) as int, x) == add_capped(s0, p + x),
        add_capped(add_capped(s0, p) as int, add_capped(0, x) as int) == add_capped(s0, p + x),
{
}

/// Whether some collider sample reaches a body of radius `r` at `pos`; the
/// search stops at the first that does.
fn is_struck(pos: Point, r: i64, w: &WeaponSnapshot) -> (res: bool)
    requires
        w.wf(),
        pos.in_range(POS_LIMIT as int),
        0 <= r <= 1_000_000,
    ensures
        res == struck(pos, r as int, w.colliders@, w.scale as int),
{
    let reach: i64 = r + 6 * w.scale;
    let mut k: usize = 0;
    while k < w.colliders.len()
        invariant
            k <= w.colliders.len(),
            w.wf(),
            pos.in_range(POS_LIMIT as int),
            0 <= reach,
            reach == strike_reach(r as int, w.scale as int),
            forall|q: int|
                0 <= q < k ==> !(dist_sq(pos, #[trigger] w.colliders@[q]) <= reach * reach),
        decreases w.colliders.len() - k,
    {
        assert(w.colliders@[k as int].in_range(POS_LIMIT as int));
        if within(pos, w.colliders[k], reach) {
            return true;
        }
        k += 1;
    }
    false
}

/// Removes the molecules that the weapon reaches and adds their points to
/// `score`.
pub fn strike_molecules(ms: Vec<MoleculeInfo>, w: &WeaponSnapshot, score: &mut u64) -> (r: Vec<
    MoleculeInfo,
>)
    requires
        all_wf(ms@),
        w.wf(),
    ensures
        r@ == molecules_spared(ms@, w.colliders@, w.scale as int),
        all_wf(r@),
        *final(score) == add_capped(
            *old(score) as int,
            molecule_points(ms@, w.colliders@, w.scale as int),
        ),
{
    let ghost s0 = *score as int;
    let mut out: Vec<MoleculeInfo> = Vec::new();
    let mut i: usize = 0;
    while i < ms.len()
        invariant
            i <= ms.len(),
            all_wf(ms@),
            w.wf(),
            0 <= s0 <= u64::MAX,
            out@ == molecules_spared(ms@.subrange(0, i as int), w.colliders@, w.scale as int),
            all_wf(out@),
            molecule_points(ms@.subrange(0, i as int), w.colliders@, w.scale as int) >= 0,
            *score == add_capped(
                s0,
                molecule_points(ms@.subrange(0, i as int), w.colliders@, w.scale as int),
            ),
        decreases ms.len() - i,
    {
        let ghost before = ms@.subrange(0, i as int);
        let ghost after = ms@.subrange(0, i + 1);
        assert(after.drop_last() =~= before);
        let m = ms[i];
        assert(m.wf()) by {
            assert(ms@[i as int].wf());
        }
        assert(after.last() == m);
        if is_struck(m.pos, m.radius, w) {
            assert(molecule_points(after, w.colliders@, w.scale as int) == molecule_points(
                before,
                w.colliders@,
                w.scale as int,
            ) + m.index + 1);
            proof {
                lemma_add_capped_step(
                    s0,
                    molecule_points(before, w.colliders@, w.scale as int),
                    m.index + 1,
                );
            }
            *score = score.saturating_add((m.index as u64).saturating_add(1));
        } else {
            assert(molecule_points(after, w.colliders@, w.scale as int) == molecule_points(
                before,
                w.colliders@,
                w.scale as int,
            ));
            out.push(m);
        }
        assert(out@ =~= molecules_spared(after, w.colliders@, w.scale as int));
        i += 1;
    }
    assert(ms@.subrange(0, ms.len() as int) =~= ms@);
    out
}

/// Removes the projectiles that the weapon reaches, a point each.
pub fn strike_bullets(bs: Vec<BulletInfo>, w: &WeaponSnapshot, score: &mut u64) -> (r: Vec<
    BulletInfo,
>)
    requires
        all_bullets_wf(bs@),
        w.wf(),
    ensures
        r@ == bullets_spared(bs@, w.colliders@, w.scale as int),
        all_bullets_wf(r@),
        *final(score) == add_capped(*old(score) as int, bullet_points(bs@, w.colliders@, w.scale as int)),
{
    let ghost s0 = *score as int;
    let mut out: Vec<BulletInfo> = Vec::new();
    let mut i: usize = 0;
    while i < bs.len()
        invariant
            i <= bs.len(),
            all_bullets_wf(bs@),
            w.wf(),
            0 <= s0 <= u64::MAX,
            out@ == bullets_spared(bs@.subrange(0, i as int), w.colliders@, w.scale as int),
            all_bullets_wf(out@),
            bullet_points(bs@.subrange(0, i as int), w.colliders@, w.scale as int) >= 0,
            *score == add_capped(
                s0,
                bullet_points(bs@.subrange(0, i as int), w.colliders@, w.scale as int),
            ),
        decreases bs.len() - i,
    {
        let ghost before = bs@.subrange(0, i as int);
        let ghost after = bs@.subrange(0, i + 1);
        assert(after.drop_last() =~= before);
        let b = bs[i];
        assert(b.wf()) by {
            assert(bs@[i as int].wf());
        }
        assert(after.last() == b);
        if is_struck(b.pos, b.radius, w) {
            assert(bullet_points(after, w.colliders@, w.scale as int) == bullet_points(
                before,
                w.colliders@,
                w.scale as int,
            ) + 1);
            proof {
                lemma_add_capped_step(s0, bullet_points(before, w.colliders@, w.scale as int), 1);
            }
            *score = score.saturating_add(1);
        } else {
            assert(bullet_points(after, w.colliders@, w.scale as int) == bullet_points(
                before,
                w.colliders@,
                w.scale as int,
            ));
            out.push(b);
        }
        assert(out@ =~= bullets_spared(after, w.colliders@, w.scale as int));
        i += 1;
    }
    assert(bs@.subrange(0, bs.len() as int) =~= bs@);
    out
}

} // verus!
