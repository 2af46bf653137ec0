use vstd::prelude::*;
use crate::arena::{clamp_inside_reactor, confined, Reactor};
use crate::bodies::{BulletInfo, MoleculeInfo, PlayerInfo};
use crate::geometry::{Point, POS_LIMIT};
use crate::motion::{clear_of_player, hurt, integrate_survivors, integrated, player_contact, survivors};
use crate::placement::{place_products, placed_bullets, placed_molecules};
use crate::projectile::{all_bullets_wf, bullet_hit_count, bullets_after, move_bullet};
use crate::resolver::{all_wf, pass_result, resolve_pairs, PendingProduct};
use crate::timeline::{clock_after, spawn_molecules, spawned, SpawnTracker, MAX_FRAME};
use crate::weapon::{
    add_capped, bullet_points, bullets_spared, molecule_points, molecules_spared, strike_bullets,
    strike_molecules, WeaponSnapshot,
};

verus! {

/// Radius of the player, in thousandths of a pixel.
pub const PLAYER_RADIUS: i64 = 24_000;

/// Relies on `rand::random::<u32>` for a draw from the thread's generator;
/// any value may come back.
#[verifier::external_body]
fn random_u32() -> (r: u32) {
    rand::random::<u32>()
}

/// What a frame reports to the layers around the simulation.
#[derive(Clone, Copy, Debug, PartialEq, Eq, Structural)]
pub struct FrameReport {
    /// Hits that hurt the player.
    pub damage_events: u64,
    /// Points scored by the weapon.
    pub score_delta: u64,
}

/// Everything that the simulation owns while a game is being played.
#[derive(Debug)]
pub struct World {
    pub reactor: Reactor,
    pub tracker: SpawnTracker,
    pub molecules: Vec<MoleculeInfo>,
    pub bullets: Vec<BulletInfo>,
    pub player: PlayerInfo,
}

/// The molecules at the start of a frame's pass: those alive, and the one
/// that the timeline emits, if any.
pub open spec fn with_spawn(ms: Seq<MoleculeInfo>, s: Option<MoleculeInfo>) -> Seq<MoleculeInfo> {
    match s {
        Some(m) => ms.push(m),
        None => ms,
    }
}

/// The molecules after the pass and the end-of-pass update.
pub open spec fn moved_survivors(start: Seq<MoleculeInfo>, dt: u64) -> Seq<MoleculeInfo> {
    survivors(pass_result(start).0, pass_result(start).1).map_values(
        |m: MoleculeInfo| integrated(m, dt),
    )
}

/// The first part of a frame (see `World::begin_frame`): the molecules
/// left, the player, the products still to be placed, and whether some
/// molecule touched the player.
pub open spec fn begun(w: World, dt: u64, player_pos: Point) -> (
    Seq<MoleculeInfo>,
    PlayerInfo,
    Seq<PendingProduct>,
    bool,
) {
    let p1 = PlayerInfo { pos: player_pos, ..w.player };
    let start = with_spawn(
        w.molecules@,
        spawned(w.tracker.script(), w.tracker.clock, dt, w.reactor, player_pos),
    );
    let moved = moved_survivors(start, dt);
    let left = clear_of_player(moved, p1);
    (
        left,
        if left.len() < moved.len() {
            hurt(p1)
        } else {
            p1
        },
        pass_result(start).2,
        left.len() < moved.len(),
    )
}

/// The last part of a frame (see `World::end_frame`): the molecules, the
/// projectiles and the player.
pub open spec fn ended(
    ms0: Seq<MoleculeInfo>,
    bs0: Seq<BulletInfo>,
    p0: PlayerInfo,
    dt: u64,
    weapon: WeaponSnapshot,
) -> (Seq<MoleculeInfo>, Seq<BulletInfo>, PlayerInfo) {
    let bs = bullets_after(bs0, p0, dt);
    let ms = ms0.map_values(|m: MoleculeInfo| confined(m));
    let p1 = if bullet_hit_count(bs0, p0) > 0 {
        hurt(p0)
    } else {
        p0
    };
    let cs = weapon.colliders@;
    let sc = weapon.scale as int;
    if weapon.active {
        (
            molecules_spared(ms, cs, sc),
            bullets_spared(bs, cs, sc),
            PlayerInfo {
                score: add_capped(
                    add_capped(p1.score as int, molecule_points(ms, cs, sc)) as int,
                    bullet_points(bs, cs, sc),
                ),
                ..p1
            },
        )
    } else {
        (ms, bs, p1)
    }
}

/// A whole frame, with `draws` for the placement of reaction products.
pub open spec fn frame_outcome(
    w: World,
    dt: u64,
    player_pos: Point,
    weapon: WeaponSnapshot,
    draws: Seq<u32>,
) -> (Seq<MoleculeInfo>, Seq<BulletInfo>, PlayerInfo) {
    let b = begun(w, dt, player_pos);
    let n = b.2.len() as int;
    ended(
        b.0 + placed_molecules(b.2, draws, n),
        w.bullets@ + placed_bullets(b.2, draws, n),
        b.1,
        dt,
        weapon,
    )
}

impl World {
    pub open spec fn wf(self) -> bool {
        &&& self.reactor.wf()
        &&& self.tracker.wf()
        &&& all_wf(self.molecules@)
        &&& all_bullets_wf(self.bullets@)
        &&& self.player.wf()
    }

    /// A fresh game: the reactor at the origin, the standard timeline at its
    /// start, no bodies, and the player at `player_pos` with three lives.
    pub fn new(player_pos: Point) -> (r: World)
        requires
            player_pos.in_range(POS_LIMIT as int),
        ensures
            r.wf(),
            r.molecules@.len() == 0,
            r.bullets@.len() == 0,
            r.player.lives == 3,
            r.player.score == 0,
            r.player.pos == player_pos,
            r.reactor.center == (Point { x: 0, y: 0 }),
    {
        World {
            reactor: Reactor { center: Point { x: 0, y: 0 } },
            tracker: SpawnTracker::standard(),
            molecules: Vec::new(),
            bullets: Vec::new(),
            player: PlayerInfo::new(player_pos, PLAYER_RADIUS),
        }
    }

    /// The first part of a frame: the timeline may emit a molecule, the
    /// pairwise pass runs, the survivors move, and molecules that touch the
    /// player hit it and go. Returns the reaction products still to be
    /// placed, and whether the player was hurt.
    pub fn begin_frame(&mut self, dt: u64, player_pos: Point) -> (r: (Vec<PendingProduct>, bool))
        requires
            old(self).wf(),
            dt <= MAX_FRAME,
            player_pos.in_range(POS_LIMIT as int),
        ensures
            final(self).wf(),
            final(self).reactor == old(self).reactor,
            final(self).bullets@ == old(self).bullets@,
            final(self).tracker.levels@ == old(self).tracker.levels@,
            final(self).tracker.clock == clock_after(
                old(self).tracker.script(),
                old(self).tracker.clock,
                dt,
            ),
            final(self).molecules@ == begun(*old(self), dt, player_pos).0,
            final(self).player == begun(*old(self), dt, player_pos).1,
            r.0@ == begun(*old(self), dt, player_pos).2,
            r.1 == (old(self).player.invul_duration == 0 && begun(*old(self), dt, player_pos).3),
    {
        self.player.pos = player_pos;
        let s = spawn_molecules(&mut self.tracker, &self.reactor, player_pos, dt);
        let mut ms: Vec<MoleculeInfo> = Vec::new();
        core::mem::swap(&mut ms, &mut self.molecules);
        match s {
            Some(m) => {
                ms.push(m);
            },
            None => {},
        }
        let (removed, pending) = resolve_pairs(&mut ms);
        let moved = integrate_survivors(ms, &removed, dt);
        let (left, hurt_now) = player_contact(moved, &mut self.player);
        self.molecules = left;
        (pending, hurt_now)
    }

    /// The last part of a frame: projectiles pursue the player, molecules
    /// are held inside the play field, and an active weapon clears what it
    /// reaches. Returns whether a projectile hurt the player.
    pub fn end_frame(&mut self, dt: u64, weapon: &WeaponSnapshot) -> (hurt_now: bool)
        requires
            old(self).wf(),
            dt <= MAX_FRAME,
            weapon.wf(),
        ensures
            final(self).wf(),
            final(self).reactor == old(self).reactor,
            final(self).tracker.levels@ == old(self).tracker.levels@,
            final(self).tracker.clock == old(self).tracker.clock,
            (final(self).molecules@, final(self).bullets@, final(self).player) == ended(
                old(self).molecules@,
                old(self).bullets@,
                old(self).player,
                dt,
                *weapon,
            ),
            hurt_now == (old(self).player.invul_duration == 0 && bullet_hit_count(
                old(self).bullets@,
                old(self).player,
            ) > 0),
    {
        let mut bs: Vec<BulletInfo> = Vec::new();
        core::mem::swap(&mut bs, &mut self.bullets);
        let (bs, hurt_now) = move_bullet(bs, &mut self.player, dt);
        let ghost before_confine = self.molecules@;
        clamp_inside_reactor(&mut self.molecules);
        assert(self.molecules@ =~= before_confine.map_values(|m: MoleculeInfo| confined(m)));
        if weapon.active {
            let mut ms: Vec<MoleculeInfo> = Vec::new();
            core::mem::swap(&mut ms, &mut self.molecules);
            let mut score = self.player.score;
            let ms = strike_molecules(ms, weapon, &mut score);
            let bs = strike_bullets(bs, weapon, &mut score);
            self.player.score = score;
            self.molecules = ms;
            self.bullets = bs;
        } else {
            self.bullets = bs;
        }
        hurt_now
    }

    /// Places reaction products with the given draws, three for each.
    pub fn place_reaction_products(&mut self, pending: &Vec<PendingProduct>, draws: &Vec<u32>)
        requires
            old(self).wf(),
            draws.len() == 3 * pending.len(),
        ensures
            final(self).wf(),
            final(self).reactor == old(self).reactor,
            final(self).tracker.levels@ == old(self).tracker.levels@,
            final(self).tracker.clock == old(self).tracker.clock,
            final(self).player == old(self).player,
            final(self).molecules@ == old(self).molecules@ + placed_molecules(
                pending@,
                draws@,
                pending.len() as int,
            ),
            final(self).bullets@ == old(self).bullets@ + placed_bullets(
                pending@,
                draws@,
                pending.len() as int,
            ),
    {
        place_products(pending, draws, &mut self.molecules, &mut self.bullets);
    }

    /// One frame of `dt` microseconds, with the player at `player_pos` and
    /// the weapon as reported: `begin_frame`, then the reaction products
    /// placed with random draws, then `end_frame`.
    pub fn step(&mut self, dt: u64, player_pos: Point, weapon: &WeaponSnapshot) -> (r: FrameReport)
        requires
            old(self).wf(),
            dt <= MAX_FRAME,
            player_pos.in_range(POS_LIMIT as int),
            weapon.wf(),
        ensures
            final(self).wf(),
            final(self).reactor == old(self).reactor,
            final(self).tracker.levels@ == old(self).tracker.levels@,
            final(self).tracker.clock == clock_after(
                old(self).tracker.script(),
                old(self).tracker.clock,
                dt,
            ),
            final(self).player.pos == player_pos,
            exists|draws: Seq<u32>|
                draws.len() == 3 * begun(*old(self), dt, player_pos).2.len() && (
                final(self).molecules@,
                final(self).bullets@,
                final(self).player,
            ) == #[trigger] frame_outcome(*old(self), dt, player_pos, *weapon, draws),
            r.damage_events <= 1,
            r.damage_events == 1 ==> old(self).player.invul_duration == 0,
            old(self).player.score + r.score_delta == final(self).player.score,
            !weapon.active ==> r.score_delta == 0,
    {
        let score0 = self.player.score;
        let (pending, hurt_first) = self.begin_frame(dt, player_pos);
        let mut draws: Vec<u32> = Vec::new();
        let mut k: usize = 0;
        while k < pending.len()
            invariant
                k <= pending.len(),
                draws.len() == 3 * k,
            decreases pending.len() - k,
        {
            draws.push(random_u32());
            draws.push(random_u32());
            draws.push(random_u32());
            k += 1;
        }
        self.place_reaction_products(&pending, &draws);
        let ghost mid = self.player;
        let ghost mid_ms = self.molecules@.map_values(|m: MoleculeInfo| confined(m));
        let ghost mid_bs = bullets_after(self.bullets@, self.player, dt);
        let hurt_second = self.end_frame(dt, weapon);
        assert(frame_outcome(*old(self), dt, player_pos, *weapon, draws@) == (
            self.molecules@,
            self.bullets@,
            self.player,
        ));
        proof {
            crate::weapon::lemma_points_nonneg(
                mid_ms,
                mid_bs,
                weapon.colliders@,
                weapon.scale as int,
            );
        }
        assert(hurt_first ==> mid.invul_duration > 0);
        let damage_events: u64 = if hurt_first || hurt_second {
            1
        } else {
            0
        };
        assert(self.player.score >= score0) by {
            assert(mid.score == score0);
        }
        FrameReport { damage_events, score_delta: self.player.score - score0 }
    }
}

} // verus!
