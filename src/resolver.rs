use vstd::prelude::*;
use crate::bodies::{MoleculeInfo, REACTION_COOLDOWN};
use crate::contact::{contact_result, resolve_contact};
use crate::geometry::{dist_sq, div_trunc, lemma_tdiv_bound, tdiv, within, Point, POS_LIMIT};
use crate::species::{reaction_products, valid_molecule_combination, Product, ReactionInfo};

verus! {

/// At or above this many live molecules, contacts no longer react.
pub const POPULATION_CAP: usize = 200;

/// A reaction product waiting to be placed, with the point it comes from.
#[derive(Clone, Copy, Debug, PartialEq, Eq, Structural)]
pub struct PendingProduct {
    pub product: Product,
    pub at: Point,
}

pub open spec fn in_contact(a: MoleculeInfo, b: MoleculeInfo) -> bool {
    dist_sq(a.pos, b.pos) <= (a.radius + b.radius) * (a.radius + b.radius)
}

/// The point halfway from `b` to `a`, rounded toward `b`.
pub open spec fn midpoint(a: MoleculeInfo, b: MoleculeInfo) -> Point {
    Point {
        x: (b.pos.x + tdiv(a.pos.x - b.pos.x, 2)) as i64,
        y: (b.pos.y + tdiv(a.pos.y - b.pos.y, 2)) as i64,
    }
}

/// Whether two molecules react on this contact: they touch, the population
/// is under the cap, the table lists the pair, and both have cooled down.
pub open spec fn reaction_fires(a: MoleculeInfo, b: MoleculeInfo, population: int) -> bool {
    &&& in_contact(a, b)
    &&& population < POPULATION_CAP
    &&& reaction_products(a.index, b.index).is_some()
    &&& a.reaction_cooldown + b.reaction_cooldown == 0
}

/// The products of a list that spawn something, in order, placed at `at`.
pub open spec fn pending_of(products: Seq<Product>, at: Point) -> Seq<PendingProduct>
    decreases products.len(),
{
    if products.len() == 0 {
        Seq::empty()
    } else {
        let p = products.last();
        pending_of(products.drop_last(), at) + if p == Product::DestroyBoth {
            Seq::empty()
        } else {
            seq![PendingProduct { product: p, at }]
        }
    }
}

/// A molecule marked as having reacted, with a fresh cooldown.
pub open spec fn mark_reacted(m: MoleculeInfo) -> MoleculeInfo {
    MoleculeInfo { reacted: true, reaction_cooldown: REACTION_COOLDOWN, ..m }
}

/// The state of a pairwise pass: the molecules, which of them are to be
/// removed, and the products waiting to be placed.
pub type PassState = (Seq<MoleculeInfo>, Seq<bool>, Seq<PendingProduct>);

/// One pair of the pass. Pairs with a member that already reacted, or that
/// do not touch, are left alone. A touching pair may react (see
/// `reaction_fires`), and is then always resolved physically.
pub open spec fn pair_step(s: PassState, i: int, j: int, population: int) -> PassState {
    let a = s.0[i];
    let b = s.0[j];
    if a.reacted || b.reacted || !in_contact(a, b) {
        s
    } else {
        let fires = reaction_fires(a, b, population);
        let products = reaction_products(a.index, b.index).unwrap();
        let a1 = if fires {
            mark_reacted(a)
        } else {
            a
        };
        let b1 = if fires {
            mark_reacted(b)
        } else {
            b
        };
        let r = contact_result(a1, b1);
        (
            s.0.update(i, r.0).update(j, r.1),
            if fires && products.contains(Product::DestroyBoth) {
                s.1.update(i, true).update(j, true)
            } else {
                s.1
            },
            if fires {
                s.2 + pending_of(products, midpoint(a, b))
            } else {
                s.2
            },
        )
    }
}

/// The pairs `(i, j)`, `(i, j + 1)`, ... `(i, n - 1)`, in order.
pub open spec fn row_from(s: PassState, i: int, j: int, n: int, population: int) -> PassState
    decreases n - j,
{
    if j >= n {
        s
    } else {
        row_from(pair_step(s, i, j, population), i, j + 1, n, population)
    }
}

/// Every pair `(i, j)` with `i0 <= i < j < n`, row by row.
pub open spec fn rows_from(s: PassState, i: int, n: int, population: int) -> PassState
    decreases n - i,
{
    if i >= n {
        s
    } else {
        rows_from(row_from(s, i, i + 1, n, population), i + 1, n, population)
    }
}

/// The whole pass over `n` molecules, counted as `population`.
pub open spec fn pass_result(molecules: Seq<MoleculeInfo>) -> PassState {
    rows_from(
        (molecules, Seq::new(molecules.len(), |k: int| false), Seq::empty()),
        0,
        molecules.len() as int,
        molecules.len() as int,
    )
}

pub open spec fn all_wf(ms: Seq<MoleculeInfo>) -> bool {
    forall|k: int| 0 <= k < ms.len() ==> #[trigger] ms[k].wf()
}

fn midpoint_exec(a: MoleculeInfo, b: MoleculeInfo) -> (r: Point)
    requires
        a.wf(),
        b.wf(),
    ensures
        r == midpoint(a, b),
        r.in_range(POS_LIMIT as int),
{
    let hx = div_trunc(a.pos.x as i128 - b.pos.x as i128, 2);
    let hy = div_trunc(a.pos.y as i128 - b.pos.y as i128, 2);
    proof {
        lemma_tdiv_bound(a.pos.x - b.pos.x, 2);
        lemma_tdiv_bound(a.pos.y - b.pos.y, 2);
        vstd::arithmetic::div_mod::lemma_fundamental_div_mod(
            if a.pos.x - b.pos.x >= 0 { a.pos.x - b.pos.x } else { b.pos.x - a.pos.x },
            2,
        );
        vstd::arithmetic::div_mod::lemma_fundamental_div_mod(
            if a.pos.y - b.pos.y >= 0 { a.pos.y - b.pos.y } else { b.pos.y - a.pos.y },
            2,
        );
    }
    Point { x: (b.pos.x as i128 + hx) as i64, y: (b.pos.y as i128 + hy) as i64 }
}

/// Appends the placeable products of `products` at `at`; says whether the
/// list destroys both inputs.
fn collect_products(pending: &mut Vec<PendingProduct>, products: &Vec<Product>, at: Point) -> (destroys: bool)
    ensures
        final(pending)@ == old(pending)@ + pending_of(products@, at),
        destroys == products@.contains(Product::DestroyBoth),
{
    let ghost start = pending@;
    let mut destroys = false;
    let mut k: usize = 0;
    while k < products.len()
        invariant
            k <= products.len(),
            pending@ == start + pending_of(products@.subrange(0, k as int), at),
            destroys == products@.subrange(0, k as int).contains(Product::DestroyBoth),
        decreases products.len() - k,
    {
        let p = products[k];
        let ghost before = products@.subrange(0, k as int);
        let ghost after = products@.subrange(0, k + 1);
        assert(after.drop_last() =~= before);
        assert(after.last() == p);
        match p {
            Product::DestroyBoth => {
                destroys = true;
                assert(pending_of(after, at) =~= pending_of(before, at));
                assert(after.contains(Product::DestroyBoth)) by {
                    assert(after[k as int] == Product::DestroyBoth);
                }
            },
            _ => {
                pending.push(PendingProduct { product: p, at });
                assert(pending@ =~= start + pending_of(after, at));
                assert(after.contains(Product::DestroyBoth) == before.contains(Product::DestroyBoth))
                    by {
                    if after.contains(Product::DestroyBoth) {
                        let w = choose|w: int| 0 <= w < after.len() && after[w] == Product::DestroyBoth;
                        assert(before[w] == Product::DestroyBoth);
                    }
                    if before.contains(Product::DestroyBoth) {
                        let w = choose|w: int| 0 <= w < before.len() && before[w] == Product::DestroyBoth;
                        assert(after[w] == Product::DestroyBoth);
                    }
                }
            },
        }
        k += 1;
    }
    assert(products@.subrange(0, products.len() as int) =~= products@);
    destroys
}

/// Resolves the pair `(i, j)` of the pass.
fn resolve_pair(
    molecules: &mut Vec<MoleculeInfo>,
    destroyed: &mut Vec<bool>,
    pending: &mut Vec<PendingProduct>,
    i: usize,
    j: usize,
    population: usize,
)
    requires
        all_wf(old(molecules)@),
        old(destroyed).len() == old(molecules).len(),
        i < j < old(molecules).len(),
    ensures
        (final(molecules)@, final(destroyed)@, final(pending)@) == pair_step(
            (old(molecules)@, old(destroyed)@, old(pending)@),
            i as int,
            j as int,
            population as int,
        ),
        all_wf(final(molecules)@),
        final(destroyed).len() == final(molecules).len(),
        final(molecules).len() == old(molecules).len(),
{
    let a = molecules[i];
    let b = molecules[j];
    assert(a.wf() && b.wf()) by {
        assert(molecules@[i as int].wf());
        assert(molecules@[j as int].wf());
    }
    if a.reacted || b.reacted {
        return;
    }
    if !within(a.pos, b.pos, a.radius + b.radius) {
        return;
    }
    let mut a1 = a;
    let mut b1 = b;
    if population < POPULATION_CAP && a.reaction_cooldown == 0 && b.reaction_cooldown == 0 {
        match valid_molecule_combination(a.index, b.index) {
            ReactionInfo::Reaction(products) => {
                a1.reacted = true;
                b1.reacted = true;
                a1.reaction_cooldown = REACTION_COOLDOWN;
                b1.reaction_cooldown = REACTION_COOLDOWN;
                let at = midpoint_exec(a, b);
                let destroys = collect_products(pending, &products, at);
                if destroys {
                    destroyed.set(i, true);
                    destroyed.set(j, true);
                }
            },
            ReactionInfo::NoReaction => {},
        }
    }
    let (na, nb) = resolve_contact(a1, b1);
    molecules.set(i, na);
    molecules.set(j, nb);
}

/// The pairwise pass of a frame: every unordered pair of molecules, in
/// order, reacts and is resolved as `pair_step` says, with the population
/// taken as the number of molecules at the start.
pub fn resolve_pairs(molecules: &mut Vec<MoleculeInfo>) -> (r: (Vec<bool>, Vec<PendingProduct>))
    requires
        all_wf(old(molecules)@),
    ensures
        (final(molecules)@, r.0@, r.1@) == pass_result(old(molecules)@),
        all_wf(final(molecules)@),
        r.0.len() == final(molecules).len(),
{
    let n = molecules.len();
    let mut destroyed: Vec<bool> = Vec::new();
    let mut k: usize = 0;
    while k < n
        invariant
            k <= n,
            destroyed@ == Seq::new(k as nat, |q: int| false),
        decreases n - k,
    {
        destroyed.push(false);
        k += 1;
        assert(destroyed@ =~= Seq::new(k as nat, |q: int| false));
    }
    let mut pending: Vec<PendingProduct> = Vec::new();
    let ghost init: PassState = (molecules@, destroyed@, pending@);
    assert(init == (old(molecules)@, Seq::new(n as nat, |q: int| false), Seq::<PendingProduct>::empty()));
    let mut i: usize = 0;
    while i < n
        invariant
            n == molecules.len(),
            i <= n,
            all_wf(molecules@),
            destroyed.len() == n,
            rows_from((molecules@, destroyed@, pending@), i as int, n as int, n as int)
                == rows_from(init, 0, n as int, n as int),
        decreases n - i,
    {
        let ghost row_start: PassState = (molecules@, destroyed@, pending@);
        let mut j: usize = i + 1;
        while j < n
            invariant
                n == molecules.len(),
                i < n,
                i + 1 <= j <= n,
                all_wf(molecules@),
                destroyed.len() == n,
                row_from((molecules@, destroyed@, pending@), i as int, j as int, n as int, n as int)
                    == row_from(row_start, i as int, i + 1, n as int, n as int),
            decreases n - j,
        {
            resolve_pair(molecules, &mut destroyed, &mut pending, i, j, n);
            j += 1;
        }
        i += 1;
    }
    (destroyed, pending)
}

} // verus!

verus! {

/// A pair in which either molecule is still cooling down does not react:
/// nothing is queued, nothing is marked for removal, and neither molecule is
/// marked as reacted or has its cooldown reset.
pub proof fn lemma_cooling_pair_does_not_react(s: PassState, i: int, j: int, population: int)
    requires
        0 <= i < j < s.0.len(),
        s.0[i].reaction_cooldown + s.0[j].reaction_cooldown > 0,
    ensures
        pair_step(s, i, j, population).1 == s.1,
        pair_step(s, i, j, population).2 == s.2,
        pair_step(s, i, j, population).0[i].reacted == s.0[i].reacted,
        pair_step(s, i, j, population).0[j].reacted == s.0[j].reacted,
        pair_step(s, i, j, population).0[i].reaction_cooldown == s.0[i].reaction_cooldown,
        pair_step(s, i, j, population).0[j].reaction_cooldown == s.0[j].reaction_cooldown,
{
}

/// A pair that reacts is marked as reacted, so it is skipped for the rest
/// of the pass, and both of its molecules start a fresh cooldown.
pub proof fn lemma_reaction_starts_cooldown(s: PassState, i: int, j: int, population: int)
    requires
        0 <= i < j < s.0.len(),
        !s.0[i].reacted,
        !s.0[j].reacted,
        reaction_fires(s.0[i], s.0[j], population),
    ensures
        pair_step(s, i, j, population).0[i].reacted,
        pair_step(s, i, j, population).0[j].reacted,
        pair_step(s, i, j, population).0[i].reaction_cooldown == REACTION_COOLDOWN,
        pair_step(s, i, j, population).0[j].reaction_cooldown == REACTION_COOLDOWN,
{
}

/// At or above the population cap a touching pair does not react, but it
/// is still resolved physically.
pub proof fn lemma_capped_pair_still_separates(s: PassState, i: int, j: int, population: int)
    requires
        0 <= i < j < s.0.len(),
        population >= POPULATION_CAP,
        !s.0[i].reacted,
        !s.0[j].reacted,
        in_contact(s.0[i], s.0[j]),
    ensures
        pair_step(s, i, j, population).0[i] == contact_result(s.0[i], s.0[j]).0,
        pair_step(s, i, j, population).0[j] == contact_result(s.0[i], s.0[j]).1,
        pair_step(s, i, j, population).1 == s.1,
        pair_step(s, i, j, population).2 == s.2,
{
}

proof fn lemma_row_capped(s: PassState, i: int, j: int, n: int, population: int)
    requires
        population >= POPULATION_CAP,
    ensures
        row_from(s, i, j, n, population).1 == s.1,
        row_from(s, i, j, n, population).2 == s.2,
    decreases n - j,
{
    if j < n {
        lemma_row_capped(pair_step(s, i, j, population), i, j + 1, n, population);
    }
}

proof fn lemma_rows_capped(s: PassState, i: int, n: int, population: int)
    requires
        population >= POPULATION_CAP,
    ensures
        rows_from(s, i, n, population).1 == s.1,
        rows_from(s, i, n, population).2 == s.2,
    decreases n - i,
{
    if i < n {
        lemma_row_capped(s, i, i + 1, n, population);
        lemma_rows_capped(row_from(s, i, i + 1, n, population), i + 1, n, population);
    }
}

/// With the population at or above the cap, a whole pass creates nothing
/// and removes nothing.
pub proof fn lemma_population_cap_blocks_reactions(molecules: Seq<MoleculeInfo>)
    requires
        molecules.len() >= POPULATION_CAP,
    ensures
        pass_result(molecules).1 == Seq::new(molecules.len(), |k: int| false),
        pass_result(molecules).2 == Seq::<PendingProduct>::empty(),
{
    lemma_rows_capped(
        (molecules, Seq::new(molecules.len(), |k: int| false), Seq::empty()),
        0,
        molecules.len() as int,
        molecules.len() as int,
    );
}

} // verus!
