use vstd::prelude::*;

verus! {

/// What one entry of a reaction's product list asks for.
#[derive(Clone, Copy, Debug, PartialEq, Eq, Structural)]
pub enum Product {
    /// A new molecule of the given species.
    Species(usize),
    /// Both reacting molecules are removed.
    DestroyBoth,
    /// A homing projectile is created.
    Projectile,
}

/// The outcome of bringing two species into contact.
#[derive(Debug)]
pub enum ReactionInfo {
    Reaction(Vec<Product>),
    NoReaction,
}

/// The combination table, on a pair given smaller species first.
pub open spec fn table_entry(lo: usize, hi: usize) -> Option<Seq<Product>> {
    if lo == 0 && hi == 0 {
        Some(seq![Product::DestroyBoth, Product::Projectile])
    } else if lo == 0 && hi == 1 {
        Some(seq![Product::DestroyBoth, Product::Species(0), Product::Species(0), Product::Species(0)])
    } else if lo == 0 && hi == 2 {
        Some(seq![Product::DestroyBoth, Product::Species(1), Product::Species(1), Product::Species(0)])
    } else if lo == 0 && hi == 3 {
        Some(seq![Product::DestroyBoth, Product::Species(2), Product::Species(2), Product::Species(0)])
    } else if lo == 0 && hi == 4 {
        Some(seq![Product::DestroyBoth, Product::Species(3), Product::Species(3), Product::Species(0)])
    } else if lo == 2 && hi == 2 {
        Some(
            seq![
                Product::DestroyBoth,
                Product::Projectile,
                Product::Species(0),
                Product::Species(0),
                Product::Species(0),
            ],
        )
    } else {
        None
    }
}

/// The products of two species in contact, whichever comes first.
pub open spec fn reaction_products(a: usize, b: usize) -> Option<Seq<Product>> {
    if a <= b {
        table_entry(a, b)
    } else {
        table_entry(b, a)
    }
}

/// Looks up what two species in contact turn into.
pub fn valid_molecule_combination(a: usize, b: usize) -> (r: ReactionInfo)
    ensures
        match r {
            ReactionInfo::Reaction(v) => reaction_products(a, b) == Some(v@),
            ReactionInfo::NoReaction => reaction_products(a, b).is_none(),
        },
{
    let (lo, hi) = if a <= b {
        (a, b)
    } else {
        (b, a)
    };
    if lo == 0 && hi == 0 {
        ReactionInfo::Reaction(vec![Product::DestroyBoth, Product::Projectile])
    } else if lo == 0 && hi == 1 {
        ReactionInfo::Reaction(
            vec![Product::DestroyBoth, Product::Species(0), Product::Species(0), Product::Species(0)],
        )
    } else if lo == 0 && hi == 2 {
        ReactionInfo::Reaction(
            vec![Product::DestroyBoth, Product::Species(1), Product::Species(1), Product::Species(0)],
        )
    } else if lo == 0 && hi == 3 {
        ReactionInfo::Reaction(
            vec![Product::DestroyBoth, Product::Species(2), Product::Species(2), Product::Species(0)],
        )
    } else if lo == 0 && hi == 4 {
        ReactionInfo::Reaction(
            vec![Product::DestroyBoth, Product::Species(3), Product::Species(3), Product::Species(0)],
        )
    } else if lo == 2 && hi == 2 {
        ReactionInfo::Reaction(
            vec![
                Product::DestroyBoth,
                Product::Projectile,
                Product::Species(0),
                Product::Species(0),
                Product::Species(0),
            ],
        )
    } else {
        ReactionInfo::NoReaction
    }
}

/// Radius of a species, in thousandths of a pixel; unknown species take the
/// default tier.
pub open spec fn species_radius(index: usize) -> int {
    if index == 0 {
        10_000
    } else if index == 1 {
        12_000
    } else if index == 2 {
        16_000
    } else if index == 3 {
        20_000
    } else if index == 4 {
        24_000
    } else {
        20_000
    }
}

/// Mass of a species; unknown species take the default tier.
pub open spec fn species_mass(index: usize) -> int {
    if index == 0 {
        6
    } else if index == 1 {
        8
    } else if index == 2 {
        10
    } else if index == 3 {
        12
    } else if index == 4 {
        16
    } else {
        20
    }
}

/// Largest radius of any species.
pub const MAX_SPECIES_RADIUS: i64 = 24_000;

/// Largest mass of any species.
pub const MAX_SPECIES_MASS: i64 = 20;

pub fn get_molecule_radius(index: usize) -> (r: i64)
    ensures
        r == species_radius(index),
        10_000 <= r <= MAX_SPECIES_RADIUS,
{
    match index {
        0 => 10_000,
        1 => 12_000,
        2 => 16_000,
        3 => 20_000,
        4 => 24_000,
        _ => 20_000,
    }
}

pub fn get_molecule_mass(index: usize) -> (r: i64)
    ensures
        r == species_mass(index),
        6 <= r <= MAX_SPECIES_MASS,
{
    match index {
        0 => 6,
        1 => 8,
        2 => 10,
        3 => 12,
        4 => 16,
        _ => 20,
    }
}

} // verus!
