use mole_rancher_demake::arena::Reactor;
use mole_rancher_demake::bodies::{spawn_molecule, BulletInfo, PlayerInfo};
use mole_rancher_demake::geometry::Point;
use mole_rancher_demake::placement::{place_product, Placed};
use mole_rancher_demake::projectile::move_bullet;
use mole_rancher_demake::resolver::PendingProduct;
use mole_rancher_demake::scoring::{
    check_player_lives, deal_with_particles, survival_display, Particle, Score, TimeDisplay,
};
use mole_rancher_demake::species::Product;
use mole_rancher_demake::timeline::{
    run_timeline, spawn_molecules, standard_levels, Clock, SpawnEvent, SpawnTracker,
};
use mole_rancher_demake::weapon::WeaponSnapshot;
use mole_rancher_demake::world::World;

const FRAME: u64 = 16_667;

fn idle_weapon() -> WeaponSnapshot {
    WeaponSnapshot { active: false, scale: 1000, colliders: vec![] }
}

#[test]
fn first_scripted_spawn() {
    let reactor = Reactor { center: Point::new(0, 0) };
    let mut tracker = SpawnTracker::standard();
    let dts = vec![FRAME; 120];
    let players = vec![Point::new(0, 220_000); 120];
    let log = run_timeline(&mut tracker, &reactor, &dts, &players);
    assert_eq!(log.len(), 120);
    assert!(log[..59].iter().all(|e| e.is_none()));
    let m = log[59].expect("the first event is due after one second");
    assert_eq!(m.index, 4);
    assert_eq!(m.pos, Point::new(0, -48_000));
    assert_eq!(m.vel, Point::new(0, 200_000));
    assert!(m.reacted);
    assert_eq!(m.radius, 24_000);
    assert_eq!(tracker.clock.increment, 1);
}

#[test]
fn spawn_timeline_is_deterministic() {
    let reactor = Reactor { center: Point::new(0, 0) };
    let n = 5_000;
    let dts: Vec<u64> = (0..n).map(|k| 10_000 + (k as u64 % 7) * 1_000).collect();
    let players: Vec<Point> =
        (0..n).map(|k| Point::new((k as i64 % 400) * 1_000 - 200_000, 220_000)).collect();
    let mut t1 = SpawnTracker::standard();
    let mut t2 = SpawnTracker::standard();
    let a = run_timeline(&mut t1, &reactor, &dts, &players);
    let b = run_timeline(&mut t2, &reactor, &dts, &players);
    assert_eq!(a, b);
    assert_eq!(t1.clock, t2.clock);
    assert!(a.iter().filter(|e| e.is_some()).count() > 20);
}

#[test]
fn timeline_wraps_after_last_level() {
    let levels = vec![vec![SpawnEvent {
        time: 0,
        species: Some(1),
        speed: 0,
        heading: 0,
        track_player: false,
    }]];
    let mut tracker = SpawnTracker::new(levels);
    let reactor = Reactor { center: Point::new(0, 0) };
    let m = spawn_molecules(&mut tracker, &reactor, Point::new(0, 0), 1);
    assert!(m.is_some());
    assert_eq!(tracker.clock, Clock { timer: 0, increment: 0, level: 0 });
}

#[test]
fn level_speeds_up_timer() {
    let levels = standard_levels();
    assert_eq!(levels.len(), 7);
    let mut tracker = SpawnTracker::new(levels);
    tracker.clock.level = 3;
    let reactor = Reactor { center: Point::new(0, 0) };
    let _ = spawn_molecules(&mut tracker, &reactor, Point::new(0, 0), 0);
    assert_eq!(tracker.clock.increment, 0);
    let _ = spawn_molecules(&mut tracker, &reactor, Point::new(0, 0), 1_000);
    assert_eq!(tracker.clock.timer, 13_000);
}

#[test]
fn tracking_event_aims_at_player() {
    let levels = vec![vec![SpawnEvent {
        time: 0,
        species: Some(0),
        speed: 100_000,
        heading: 0,
        track_player: true,
    }]];
    let mut tracker = SpawnTracker::new(levels);
    let reactor = Reactor { center: Point::new(0, 0) };
    let m = spawn_molecules(&mut tracker, &reactor, Point::new(30_000, -8_000), 1).unwrap();
    assert_eq!(m.vel, Point::new(60_000, 80_000));
}

#[test]
fn diagonal_heading() {
    let levels = vec![vec![SpawnEvent {
        time: 0,
        species: Some(0),
        speed: 1_000_000,
        heading: 3,
        track_player: false,
    }]];
    let mut tracker = SpawnTracker::new(levels);
    let reactor = Reactor { center: Point::new(0, 0) };
    let m = spawn_molecules(&mut tracker, &reactor, Point::new(0, 0), 1).unwrap();
    assert_eq!(m.vel, Point::new(707_107, -707_107));
}

#[test]
fn pause_events_spawn_nothing() {
    let levels = vec![vec![SpawnEvent {
        time: 0,
        species: None,
        speed: 0,
        heading: 0,
        track_player: false,
    }]];
    let mut tracker = SpawnTracker::new(levels);
    let reactor = Reactor { center: Point::new(0, 0) };
    assert!(spawn_molecules(&mut tracker, &reactor, Point::new(0, 0), 1).is_none());
}

#[test]
fn weapon_strike_scores_species_tier_plus_one() {
    let mut world = World::new(Point::new(0, 220_000));
    assert_eq!(world.player.score, 0);
    assert_eq!(world.player.lives, 3);
    world.molecules.push(spawn_molecule(Point::new(100_000, 100_000), Point::new(0, 0), 2));
    let weapon = WeaponSnapshot {
        active: true,
        scale: 1000,
        colliders: vec![Point::new(400_000, 0), Point::new(100_000, 100_000)],
    };
    let report = world.step(FRAME, Point::new(0, 220_000), &weapon);
    assert_eq!(report.score_delta, 3);
    assert_eq!(world.player.score, 3);
    assert!(world.molecules.is_empty());
    assert_eq!(world.player.lives, 3);
}

#[test]
fn inactive_weapon_strikes_nothing() {
    let mut world = World::new(Point::new(0, 220_000));
    world.molecules.push(spawn_molecule(Point::new(100_000, 100_000), Point::new(0, 0), 2));
    let weapon = WeaponSnapshot {
        active: false,
        scale: 1000,
        colliders: vec![Point::new(100_000, 100_000)],
    };
    let report = world.step(FRAME, Point::new(0, 220_000), &weapon);
    assert_eq!(report.score_delta, 0);
    assert_eq!(world.molecules.len(), 1);
}

#[test]
fn weapon_strikes_projectiles_for_one_point() {
    let mut world = World::new(Point::new(0, 220_000));
    world.bullets.push(BulletInfo::new(Point::new(-200_000, 0)));
    let weapon = WeaponSnapshot {
        active: true,
        scale: 2000,
        colliders: vec![Point::new(-200_000, 17_000)],
    };
    let hurt = world.end_frame(FRAME, &weapon);
    assert!(!hurt);
    assert!(world.bullets.is_empty());
    assert_eq!(world.player.score, 1);
}

#[test]
fn projectile_hits_once_within_invulnerability() {
    let mut player = PlayerInfo::new(Point::new(0, 0), 24_000);
    let mut bullets = vec![
        BulletInfo::new(Point::new(500_000, 0)),
        BulletInfo::new(Point::new(520_000, 0)),
    ];
    let mut damage_events = 0;
    for _ in 0..600 {
        player.tick_timers(FRAME);
        let (left, hurt) = move_bullet(bullets, &mut player, FRAME);
        bullets = left;
        if hurt {
            damage_events += 1;
        }
    }
    assert_eq!(damage_events, 1);
    assert!(bullets.is_empty());
    assert_eq!(player.lives, 2);
}

#[test]
fn projectile_pursues_player() {
    let mut player = PlayerInfo::new(Point::new(0, 0), 24_000);
    let (left, hurt) = move_bullet(vec![BulletInfo::new(Point::new(300_000, 400_000))], &mut player, 1_000_000);
    assert!(!hurt);
    assert_eq!(left[0].pos, Point::new(228_000, 304_000));
}

#[test]
fn molecule_touching_player_hurts_and_vanishes() {
    let mut world = World::new(Point::new(0, 220_000));
    world.molecules.push(spawn_molecule(Point::new(10_000, 220_000), Point::new(0, 0), 0));
    world.molecules.push(spawn_molecule(Point::new(-20_000, 220_000), Point::new(0, 0), 0));
    let report = world.step(FRAME, Point::new(0, 220_000), &idle_weapon());
    assert_eq!(report.damage_events, 1);
    assert_eq!(world.player.lives, 2);
    assert!(world.molecules.is_empty());
    assert_eq!(world.player.invul_duration, 1_000_000);
}

#[test]
fn reaction_in_world_places_products() {
    let mut world = World::new(Point::new(0, 220_000));
    let mut a = spawn_molecule(Point::new(-300_000, 0), Point::new(0, 0), 0);
    let mut b = spawn_molecule(Point::new(-285_000, 0), Point::new(0, 0), 2);
    a.reacted = false;
    a.reaction_cooldown = 0;
    b.reacted = false;
    b.reaction_cooldown = 0;
    world.molecules.push(a);
    world.molecules.push(b);
    world.step(FRAME, Point::new(0, 220_000), &idle_weapon());
    assert_eq!(world.molecules.len(), 3);
    assert!(world.molecules.iter().all(|m| m.reacted));
    assert_eq!(world.molecules.iter().filter(|m| m.index == 1).count(), 2);
    for m in &world.molecules {
        let speed = ((m.vel.x as f64).powi(2) + (m.vel.y as f64).powi(2)).sqrt();
        assert!((speed - 260_000.0).abs() < 5.0, "speed {}", speed);
        assert!(m.pos.x >= -292_500 && m.pos.x < -291_500);
    }
}

#[test]
fn product_placement_from_draws() {
    let pp = PendingProduct { product: Product::Species(1), at: Point::new(0, 0) };
    match place_product(pp, 2000, 1000, 5) {
        Placed::Molecule(m) => {
            assert_eq!(m.pos, Point::new(5, 5));
            assert_eq!(m.vel, Point::new(260_000, 0));
            assert_eq!(m.index, 1);
            assert_eq!(m.radius, 12_000);
        }
        other => panic!("unexpected {:?}", other),
    }
    let pp = PendingProduct { product: Product::Projectile, at: Point::new(40, -40) };
    assert_eq!(place_product(pp, 0, 0, 1_999), Placed::Bullet(BulletInfo::new(Point::new(1_039, 959))));
    let pp = PendingProduct { product: Product::Species(0), at: Point::new(0, 0) };
    match place_product(pp, 1000, 1000, 0) {
        Placed::Molecule(m) => assert_eq!(m.vel, Point::new(0, 260_000)),
        other => panic!("unexpected {:?}", other),
    }
}

#[test]
fn long_run_keeps_going() {
    let mut world = World::new(Point::new(-400_000, 250_000));
    for _ in 0..3_000 {
        world.step(FRAME, Point::new(-400_000, 250_000), &idle_weapon());
        world.player.tick_timers(FRAME);
    }
    assert!(world.tracker.clock.level > 0);
    assert!(world.molecules.len() + world.bullets.len() > 0);
}

#[test]
fn damage_respects_invulnerability() {
    let mut p = PlayerInfo::new(Point::new(0, 0), 24_000);
    assert!(p.take_damage());
    assert_eq!(p.lives, 2);
    assert_eq!(p.stun_duration, 400_000);
    assert!(!p.take_damage());
    assert_eq!(p.lives, 2);
    p.tick_timers(1_000_000);
    assert_eq!(p.invul_duration, 0);
    assert!(p.take_damage());
    assert_eq!(p.lives, 1);
}

#[test]
fn life_cycle_records_best_results() {
    let mut p = PlayerInfo::new(Point::new(0, 0), 24_000);
    let mut score = Score::new();
    assert!(!check_player_lives(&mut p, &mut score, 500_000));
    assert_eq!(p.time_survived, 500_000);
    p.lives = 0;
    p.score = 42;
    assert!(!check_player_lives(&mut p, &mut score, 500_000));
    assert_eq!(score.highscore, 42);
    assert_eq!(score.hightime, 500_000);
    assert_eq!(p.death_countdown, 1_500_000);
    assert!(!check_player_lives(&mut p, &mut score, 1_000_000));
    assert_eq!(p.invul_duration, 1_000_000);
    assert!(check_player_lives(&mut p, &mut score, 1_000_000));
}

#[test]
fn particles_fade_and_drift() {
    let ps = vec![
        Particle { pos: Point::new(0, 0), velocity: Point::new(3, -2), fade: 1_000_000 },
        Particle { pos: Point::new(0, 0), velocity: Point::new(1, 1), fade: 10_000 },
    ];
    let out = deal_with_particles(ps, 16_667);
    assert_eq!(out.len(), 1);
    assert_eq!(out[0].pos, Point::new(3, -2));
    assert_eq!(out[0].fade, 983_333);
}

#[test]
fn survival_time_display() {
    assert_eq!(survival_display(12_345_678), TimeDisplay::Hundredths(1_234));
    assert_eq!(survival_display(59_500_000), TimeDisplay::FiftyNine);
    assert_eq!(survival_display(125_900_000), TimeDisplay::MinutesSeconds(2, 5));
    assert_eq!(survival_display(3_661_000_000), TimeDisplay::MinutesSeconds(1, 1));
}
