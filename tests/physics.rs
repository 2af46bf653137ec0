use mole_rancher_demake::arena::{clamp_inside_reactor, Reactor};
use mole_rancher_demake::bodies::{spawn_molecule, MoleculeInfo, REACTION_COOLDOWN};
use mole_rancher_demake::contact::resolve_contact;
use mole_rancher_demake::geometry::{isqrt, Point};
use mole_rancher_demake::motion::integrate_survivors;
use mole_rancher_demake::resolver::{resolve_pairs, POPULATION_CAP};
use mole_rancher_demake::species::{
    get_molecule_mass, get_molecule_radius, valid_molecule_combination, Product, ReactionInfo,
};

fn molecule(x: i64, y: i64, vx: i64, vy: i64, index: usize) -> MoleculeInfo {
    let mut m = spawn_molecule(Point::new(x, y), Point::new(vx, vy), index);
    m.reacted = false;
    m.reaction_cooldown = 0;
    m
}

fn products(a: usize, b: usize) -> Option<Vec<Product>> {
    match valid_molecule_combination(a, b) {
        ReactionInfo::Reaction(v) => Some(v),
        ReactionInfo::NoReaction => None,
    }
}

#[test]
fn reaction_table_entries() {
    assert_eq!(products(0, 0), Some(vec![Product::DestroyBoth, Product::Projectile]));
    assert_eq!(
        products(0, 1),
        Some(vec![
            Product::DestroyBoth,
            Product::Species(0),
            Product::Species(0),
            Product::Species(0)
        ])
    );
    assert_eq!(
        products(4, 0),
        Some(vec![
            Product::DestroyBoth,
            Product::Species(3),
            Product::Species(3),
            Product::Species(0)
        ])
    );
    assert_eq!(
        products(2, 2),
        Some(vec![
            Product::DestroyBoth,
            Product::Projectile,
            Product::Species(0),
            Product::Species(0),
            Product::Species(0)
        ])
    );
    assert_eq!(products(1, 1), None);
    assert_eq!(products(3, 4), None);
    assert_eq!(products(7, 0), None);
}

#[test]
fn reaction_table_ignores_order() {
    for a in 0..6 {
        for b in 0..6 {
            assert_eq!(products(a, b), products(b, a));
        }
    }
}

#[test]
fn species_constants_with_fallback() {
    assert_eq!(get_molecule_radius(0), 10_000);
    assert_eq!(get_molecule_radius(4), 24_000);
    assert_eq!(get_molecule_radius(9), 20_000);
    assert_eq!(get_molecule_mass(0), 6);
    assert_eq!(get_molecule_mass(4), 16);
    assert_eq!(get_molecule_mass(100), 20);
}

#[test]
fn integer_square_roots() {
    assert_eq!(isqrt(0), 0);
    assert_eq!(isqrt(1), 1);
    assert_eq!(isqrt(24), 4);
    assert_eq!(isqrt(25), 5);
    assert_eq!(isqrt(u64::MAX), 4_294_967_295);
}

#[test]
fn equal_masses_head_on_swap_velocities() {
    let a = molecule(0, 0, 100_000, 0, 0);
    let b = molecule(15_000, 0, -100_000, 0, 0);
    let (na, nb) = resolve_contact(a, b);
    assert_eq!(na.vel, Point::new(-100_000, 0));
    assert_eq!(nb.vel, Point::new(100_000, 0));

    let a = molecule(0, 0, 30_000, 40_000, 3);
    let b = molecule(-6_000, -8_000, -30_000, -40_000, 3);
    let (na, nb) = resolve_contact(a, b);
    assert_eq!(na.vel, b.vel);
    assert_eq!(nb.vel, a.vel);
}

#[test]
fn contact_keeps_momentum() {
    let a = molecule(0, 0, 120_000, -35_000, 0);
    let b = molecule(21_000, 13_000, -80_000, 55_000, 4);
    let (na, nb) = resolve_contact(a, b);
    let before_x = a.mass * a.vel.x + b.mass * b.vel.x;
    let before_y = a.mass * a.vel.y + b.mass * b.vel.y;
    assert_eq!(na.mass * na.vel.x + nb.mass * nb.vel.x, before_x);
    assert_eq!(na.mass * na.vel.y + nb.mass * nb.vel.y, before_y);
    assert_ne!(na.vel, a.vel);
}

#[test]
fn contact_pushes_centers_apart() {
    let cases = [
        (molecule(0, 0, 0, 0, 0), molecule(5_000, 1_000, 0, 0, 0)),
        (molecule(0, 0, 0, 0, 4), molecule(-3_000, 20_000, 0, 0, 2)),
        (molecule(7_000, 7_000, 0, 0, 1), molecule(7_000, 7_000, 0, 0, 3)),
    ];
    for (a, b) in cases {
        let (na, nb) = resolve_contact(a, b);
        let dx = (na.pos.x - nb.pos.x) as f64;
        let dy = (na.pos.y - nb.pos.y) as f64;
        let sum = (a.radius + b.radius) as f64;
        let d = (dx * dx + dy * dy).sqrt();
        assert!(d >= 0.99 * sum, "{} < 0.99 * {}", d, sum);
        assert!(d <= 1.01 * sum + 2.0);
    }
}

#[test]
fn coincident_centers_separate_along_x() {
    let a = molecule(1_000, 2_000, 0, 0, 0);
    let b = molecule(1_000, 2_000, 0, 0, 0);
    let (na, nb) = resolve_contact(a, b);
    assert_eq!(na.pos.x - nb.pos.x, 20_200);
    assert_eq!(na.pos.y, nb.pos.y);
}

#[test]
fn reacting_pair_destroys_both_and_queues_projectile() {
    let mut ms = vec![molecule(0, 0, 0, 0, 0), molecule(10_000, 0, 0, 0, 0)];
    let (removed, pending) = resolve_pairs(&mut ms);
    assert_eq!(removed, vec![true, true]);
    assert_eq!(pending.len(), 1);
    assert_eq!(pending[0].product, Product::Projectile);
    assert_eq!(pending[0].at, Point::new(5_000, 0));
    assert!(ms[0].reacted && ms[1].reacted);
    assert_eq!(ms[0].reaction_cooldown, REACTION_COOLDOWN);
    let left = integrate_survivors(ms, &removed, 16_667);
    assert!(left.is_empty());
}

#[test]
fn fresh_products_do_not_react_until_cooled() {
    let a = spawn_molecule(Point::new(0, 0), Point::new(0, 0), 0);
    let b = spawn_molecule(Point::new(5_000, 0), Point::new(0, 0), 0);
    let mut ms = vec![a, b];
    let (removed, pending) = resolve_pairs(&mut ms);
    assert!(pending.is_empty());
    assert_eq!(removed, vec![false, false]);
    let mut ms = integrate_survivors(ms, &removed, 16_667);
    assert!(!ms[0].reacted && ms[0].reaction_cooldown > 0);
    ms[0].pos = Point::new(0, 0);
    ms[1].pos = Point::new(5_000, 0);
    let (removed, pending) = resolve_pairs(&mut ms);
    assert!(pending.is_empty());
    assert_eq!(removed, vec![false, false]);
    let mut ms = integrate_survivors(ms, &removed, 300_000);
    assert_eq!(ms[0].reaction_cooldown, 0);
    assert_eq!(ms[1].reaction_cooldown, 0);
    ms[0].pos = Point::new(0, 0);
    ms[1].pos = Point::new(5_000, 0);
    let (removed, pending) = resolve_pairs(&mut ms);
    assert_eq!(removed, vec![true, true]);
    assert_eq!(pending.len(), 1);
}

#[test]
fn population_cap_blocks_reactions_but_separates() {
    let mut ms = Vec::new();
    for k in 0..POPULATION_CAP as i64 {
        ms.push(molecule(k * 100, 0, 0, 0, 0));
    }
    let before = ms.clone();
    let (removed, pending) = resolve_pairs(&mut ms);
    assert!(pending.is_empty());
    assert!(removed.iter().all(|r| !r));
    assert_eq!(ms.len(), POPULATION_CAP);
    assert_ne!(ms[0].pos, before[0].pos);
    assert!(ms.iter().all(|m| !m.reacted));
}

#[test]
fn below_cap_the_same_contact_reacts() {
    let mut ms = Vec::new();
    for k in 0..(POPULATION_CAP as i64 - 1) {
        ms.push(molecule(k * 100, 0, 0, 0, 0));
    }
    let (_, pending) = resolve_pairs(&mut ms);
    assert!(!pending.is_empty());
}

#[test]
fn confinement_removes_overflow_exactly() {
    let r = get_molecule_radius(2);
    let x_max = 518_500 - r;
    let y_min = -329_000 + r;
    let mut ms = vec![
        molecule(x_max + 700, 0, 250_000, 0, 2),
        molecule(0, y_min - 1_200, 0, -90_000, 2),
        molecule(100, 100, 1, 1, 2),
    ];
    clamp_inside_reactor(&mut ms);
    assert_eq!(ms[0].pos, Point::new(x_max, 0));
    assert_eq!(ms[0].vel, Point::new(250_000, 0));
    assert_eq!(ms[1].pos, Point::new(0, y_min));
    assert_eq!(ms[1].vel, Point::new(0, -90_000));
    assert_eq!(ms[2].pos, Point::new(100, 100));
}

#[test]
fn integration_moves_and_reflects() {
    let m = molecule(0, 0, 100_000, -50_000, 0);
    let out = integrate_survivors(vec![m], &vec![false], 500_000);
    assert_eq!(out[0].pos, Point::new(50_000, -25_000));
    assert_eq!(out[0].vel, m.vel);
    assert_eq!(out[0].spawn_growth, 1000);
    let edge = molecule(507_000, 0, 100_000, 0, 0);
    let out = integrate_survivors(vec![edge], &vec![false], 100_000);
    assert_eq!(out[0].pos.x, 517_000);
    assert_eq!(out[0].vel.x, -100_000);
}

#[test]
fn reactor_aperture_below_center() {
    let r = Reactor { center: Point::new(0, 0) };
    assert_eq!(r.aperture(), Point::new(0, -48_000));
}

#[test]
fn contact_exact_values_unequal_masses() {
    let a = molecule(0, 0, 100_000, 0, 0);
    let b = molecule(20_000, 0, 0, 0, 4);
    let (na, nb) = resolve_contact(a, b);
    assert_eq!(na.vel, Point::new(-45_440, 0));
    assert_eq!(nb.vel, Point::new(54_540, 0));
    assert_eq!(na.pos, Point::new(-7_170, 0));
    assert_eq!(nb.pos, Point::new(27_170, 0));
}
