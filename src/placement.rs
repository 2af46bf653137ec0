use vstd::prelude::*;
use crate::bodies::{new_molecule, spawn_molecule, BulletInfo, MoleculeInfo, BULLET_RADIUS};
use crate::geometry::{aim, aimed, clamp, clamp_to_i64, Point, POS_LIMIT};
use crate::resolver::{all_wf, PendingProduct};
use crate::projectile::all_bullets_wf;
use crate::species::Product;

verus! {

/// Speed of a molecule created by a reaction, in thousandths of a pixel
/// per second.
pub const PRODUCT_SPEED: i64 = 260_000;

/// Products land up to this far (exclusive) from their point of origin,
/// on each axis alike.
pub const JITTER_SPAN: u32 = 1000;

/// What a reaction product becomes once placed.
#[derive(Clone, Copy, Debug, PartialEq, Eq, Structural)]
pub enum Placed {
    Molecule(MoleculeInfo),
    Bullet(BulletInfo),
    Nothing,
}

/// A draw mapped onto `[-1000, 1000]`.
pub open spec fn scatter(r: u32) -> int {
    (r % 2001) as int - 1000
}

/// The velocity of a product: `PRODUCT_SPEED` along the direction that two
/// draws give (straight up when both land on zero). The direction is scaled
/// up before it is normalised, so that short directions keep their length.
pub open spec fn product_velocity(r1: u32, r2: u32) -> Point {
    if scatter(r1) == 0 && scatter(r2) == 0 {
        Point { x: 0, y: PRODUCT_SPEED }
    } else {
        aimed(scatter(r1) * 1_000_000, scatter(r2) * 1_000_000, PRODUCT_SPEED as int)
    }
}

/// Where a product lands: its point of origin moved by the jitter that a
/// draw gives, along both axes.
pub open spec fn product_position(at: Point, r3: u32) -> Point {
    let j = (r3 % JITTER_SPAN) as int;
    let pl = POS_LIMIT as int;
    Point { x: clamp(at.x + j, -pl, pl) as i64, y: clamp(at.y + j, -pl, pl) as i64 }
}

/// A pending product placed with three draws.
pub open spec fn placed(pp: PendingProduct, r1: u32, r2: u32, r3: u32) -> Placed {
    let pos = product_position(pp.at, r3);
    match pp.product {
        Product::Species(s) => Placed::Molecule(new_molecule(pos, product_velocity(r1, r2), s)),
        Product::Projectile => Placed::Bullet(BulletInfo { pos, radius: BULLET_RADIUS }),
        Product::DestroyBoth => Placed::Nothing,
    }
}

/// Places a pending product with three draws: the first two pick its
/// direction, the third its jitter.
pub fn place_product(pp: PendingProduct, r1: u32, r2: u32, r3: u32) -> (r: Placed)
    ensures
        r == placed(pp, r1, r2, r3),
        r matches Placed::Molecule(m) ==> m.wf(),
        r matches Placed::Bullet(b) ==> b.wf(),
{
    let j: i128 = (r3 % JITTER_SPAN) as i128;
    let pos = Point {
        x: clamp_to_i64(pp.at.x as i128 + j, POS_LIMIT),
        y: clamp_to_i64(pp.at.y as i128 + j, POS_LIMIT),
    };
    match pp.product {
        Product::Species(s) => {
            let cx: i128 = (r1 % 2001) as i128 - 1000;
            let cy: i128 = (r2 % 2001) as i128 - 1000;
            let vel = if cx == 0 && cy == 0 {
                Point { x: 0, y: PRODUCT_SPEED }
            } else {
                aim(cx * 1_000_000, cy * 1_000_000, PRODUCT_SPEED)
            };
            Placed::Molecule(spawn_molecule(pos, vel, s))
        },
        Product::Projectile => Placed::Bullet(BulletInfo::new(pos)),
        Product::DestroyBoth => Placed::Nothing,
    }
}

/// The product placed from the `k`-th pending entry and draws `3k` to `3k + 2`.
pub open spec fn placement(pending: Seq<PendingProduct>, draws: Seq<u32>, k: int) -> Placed {
    placed(pending[k], draws[3 * k], draws[3 * k + 1], draws[3 * k + 2])
}

/// The molecules placed from the first `n` pending entries, in order.
pub open spec fn placed_molecules(pending: Seq<PendingProduct>, draws: Seq<u32>, n: int) -> Seq<
    MoleculeInfo,
>
    decreases n,
{
    if n <= 0 {
        Seq::empty()
    } else {
        placed_molecules(pending, draws, n - 1) + match placement(pending, draws, n - 1) {
            Placed::Molecule(m) => seq![m],
            _ => Seq::empty(),
        }
    }
}

/// The projectiles placed from the first `n` pending entries, in order.
pub open spec fn placed_bullets(pending: Seq<PendingProduct>, draws: Seq<u32>, n: int) -> Seq<
    BulletInfo,
>
    decreases n,
{
    if n <= 0 {
        Seq::empty()
    } else {
        placed_bullets(pending, draws, n - 1) + match placement(pending, draws, n - 1) {
            Placed::Bullet(b) => seq![b],
            _ => Seq::empty(),
        }
    }
}

/// Places every pending product, three draws each, appending the new
/// molecules and projectiles in order.
pub fn place_products(
    pending: &Vec<PendingProduct>,
    draws: &Vec<u32>,
    molecules: &mut Vec<MoleculeInfo>,
    bullets: &mut Vec<BulletInfo>,
)
    requires
        draws.len() == 3 * pending.len(),
        all_wf(old(molecules)@),
        all_bullets_wf(old(bullets)@),
    ensures
        final(molecules)@ == old(molecules)@ + placed_molecules(
            pending@,
            draws@,
            pending.len() as int,
        ),
        final(bullets)@ == old(bullets)@ + placed_bullets(pending@, draws@, pending.len() as int),
        all_wf(final(molecules)@),
        all_bullets_wf(final(bullets)@),
{
    let ghost m0 = molecules@;
    let ghost b0 = bullets@;
    let mut k: usize = 0;
    while k < pending.len()
        invariant
            k <= pending.len(),
            draws.len() == 3 * pending.len(),
            molecules@ == m0 + placed_molecules(pending@, draws@, k as int),
            bullets@ == b0 + placed_bullets(pending@, draws@, k as int),
            all_wf(molecules@),
            all_bullets_wf(bullets@),
        decreases pending.len() - k,
    {
        let p = place_product(pending[k], draws[3 * k], draws[3 * k + 1], draws[3 * k + 2]);
        assert(p == placement(pending@, draws@, k as int));
        match p {
            Placed::Molecule(m) => {
                molecules.push(m);
            },
            Placed::Bullet(b) => {
                bullets.push(b);
            },
            Placed::Nothing => {},
        }
        assert(molecules@ =~= m0 + placed_molecules(pending@, draws@, k + 1));
        assert(bullets@ =~= b0 + placed_bullets(pending@, draws@, k + 1));
        k += 1;
    }
}

} // verus!
