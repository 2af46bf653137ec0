use vstd::prelude::*;
use crate::geometry::{Point, POS_LIMIT, SPEED_LIMIT};
use crate::species::{get_molecule_mass, get_molecule_radius, species_mass, species_radius};

verus! {

/// Time in microseconds during which a molecule that has just been created
/// or has just reacted cannot react.
pub const REACTION_COOLDOWN: u64 = 250_000;

/// Upper bound of a reaction cooldown, in microseconds.
pub const MAX_COOLDOWN: u64 = 10_000_000;

/// The value of `spawn_growth` once a molecule has grown to full size.
pub const GROWTH_FULL: u64 = 1000;

/// Radius of a projectile, in thousandths of a pixel.
pub const BULLET_RADIUS: i64 = 6_000;

/// Largest radius that a player may have, in thousandths of a pixel.
pub const PLAYER_RADIUS_LIMIT: i64 = 1_000_000;

/// Largest acceleration that a player may have, in thousandths of a pixel
/// per second squared.
pub const PLAYER_ACC_LIMIT: i64 = 100_000_000;

/// The player's acceleration toward the cursor.
pub const PLAYER_ACC: i64 = 12_000_000;

/// The player's top speed.
pub const PLAYER_MAX_VEL: i64 = 240_000;

/// Invulnerability that a hit gives the player, in microseconds.
pub const HIT_INVULNERABILITY: u64 = 1_000_000;

/// Stun that a hit gives the player, in microseconds.
pub const HIT_STUN: u64 = 400_000;

/// A live molecule of the arena.
#[derive(Clone, Copy, Debug, PartialEq, Eq, Structural)]
pub struct MoleculeInfo {
    pub pos: Point,
    /// Velocity, in thousandths of a pixel per second.
    pub vel: Point,
    /// Species.
    pub index: usize,
    /// Set once the molecule has reacted during the current pass.
    pub reacted: bool,
    /// Microseconds left before the molecule may react again.
    pub reaction_cooldown: u64,
    pub radius: i64,
    pub mass: i64,
    /// Cosmetic growth after spawning, in thousandths of full size.
    pub spawn_growth: u64,
}

impl MoleculeInfo {
    pub open spec fn wf(self) -> bool {
        &&& self.pos.in_range(POS_LIMIT as int)
        &&& self.vel.in_range(SPEED_LIMIT as int)
        &&& self.radius == species_radius(self.index)
        &&& self.mass == species_mass(self.index)
        &&& self.reaction_cooldown <= MAX_COOLDOWN
        &&& self.spawn_growth <= GROWTH_FULL
    }
}

/// A freshly created molecule of species `index`.
pub open spec fn new_molecule(pos: Point, vel: Point, index: usize) -> MoleculeInfo {
    MoleculeInfo {
        pos,
        vel,
        index,
        reacted: true,
        reaction_cooldown: REACTION_COOLDOWN,
        radius: species_radius(index) as i64,
        mass: species_mass(index) as i64,
        spawn_growth: 0,
    }
}

/// Creates a molecule: it starts marked as reacted, with a short cooldown
/// and at zero size, and takes radius and mass from its species.
pub fn spawn_molecule(pos: Point, vel: Point, index: usize) -> (r: MoleculeInfo)
    requires
        pos.in_range(POS_LIMIT as int),
        vel.in_range(SPEED_LIMIT as int),
    ensures
        r == new_molecule(pos, vel, index),
        r.wf(),
{
    MoleculeInfo {
        pos,
        vel,
        index,
        reacted: true,
        reaction_cooldown: REACTION_COOLDOWN,
        radius: get_molecule_radius(index),
        mass: get_molecule_mass(index),
        spawn_growth: 0,
    }
}

/// A homing projectile.
#[derive(Clone, Copy, Debug, PartialEq, Eq, Structural)]
pub struct BulletInfo {
    pub pos: Point,
    pub radius: i64,
}

impl BulletInfo {
    pub open spec fn wf(self) -> bool {
        self.pos.in_range(POS_LIMIT as int) && self.radius == BULLET_RADIUS
    }

    pub fn new(pos: Point) -> (r: BulletInfo)
        requires
            pos.in_range(POS_LIMIT as int),
        ensures
            r.pos == pos,
            r.radius == BULLET_RADIUS,
            r.wf(),
    {
        BulletInfo { pos, radius: BULLET_RADIUS }
    }
}

/// What the simulation knows of the player.
#[derive(Clone, Copy, Debug, PartialEq, Eq, Structural)]
pub struct PlayerInfo {
    pub pos: Point,
    pub lives: u64,
    /// Microseconds left before the game is over, once the lives are spent.
    pub death_countdown: u64,
    /// Microseconds survived.
    pub time_survived: u64,
    pub score: u64,
    /// Velocity, in thousandths of a pixel per second.
    pub vel: Point,
    /// Acceleration toward the cursor, in thousandths of a pixel per second squared.
    pub acc: i64,
    /// Top speed, in thousandths of a pixel per second.
    pub max_vel: i64,
    pub radius: i64,
    /// Microseconds left during which the player cannot act.
    pub stun_duration: u64,
    /// Microseconds left during which the player cannot be hurt.
    pub invul_duration: u64,
}

impl PlayerInfo {
    pub open spec fn wf(self) -> bool {
        &&& self.pos.in_range(POS_LIMIT as int)
        &&& 0 <= self.radius <= PLAYER_RADIUS_LIMIT
        &&& self.vel.in_range(self.max_vel as int)
        &&& 0 <= self.max_vel <= SPEED_LIMIT
        &&& 0 <= self.acc <= PLAYER_ACC_LIMIT
    }

    /// A player at rest at `pos`, with three lives and nothing scored.
    pub fn new(pos: Point, radius: i64) -> (r: PlayerInfo)
        requires
            pos.in_range(POS_LIMIT as int),
            0 <= radius <= PLAYER_RADIUS_LIMIT,
        ensures
            r.wf(),
            r.pos == pos,
            r.radius == radius,
            r.lives == 3,
            r.score == 0,
            r.death_countdown == 0,
            r.time_survived == 0,
            r.stun_duration == 0,
            r.invul_duration == 0,
            r.vel == (Point { x: 0, y: 0 }),
            r.acc == PLAYER_ACC,
            r.max_vel == PLAYER_MAX_VEL,
    {
        PlayerInfo {
            pos,
            lives: 3,
            death_countdown: 0,
            time_survived: 0,
            score: 0,
            vel: Point { x: 0, y: 0 },
            acc: PLAYER_ACC,
            max_vel: PLAYER_MAX_VEL,
            radius,
            stun_duration: 0,
            invul_duration: 0,
        }
    }

    /// A hit: unless the player is invulnerable it costs a life and gives
    /// invulnerability and a stun. Returns whether the hit did damage.
    pub fn take_damage(&mut self) -> (hurt: bool)
        ensures
            hurt == (old(self).invul_duration == 0),
            hurt ==> *final(self) == (PlayerInfo {
                lives: if old(self).lives > 0 {
                    (old(self).lives - 1) as u64
                } else {
                    0
                },
                invul_duration: HIT_INVULNERABILITY,
                stun_duration: HIT_STUN,
                ..*old(self)
            }),
            !hurt ==> *final(self) == *old(self),
    {
        if self.invul_duration == 0 {
            self.invul_duration = HIT_INVULNERABILITY;
            self.stun_duration = HIT_STUN;
            self.lives = self.lives.saturating_sub(1);
            true
        } else {
            false
        }
    }
}

} // verus!
