use mole_rancher_demake::arena::Reactor;
use mole_rancher_demake::bodies::PlayerInfo;
use mole_rancher_demake::geometry::Point;
use mole_rancher_demake::steering::player_movement;

const FRAME: u64 = 16_667;

fn reactor() -> Reactor {
    Reactor { center: Point::new(0, 0) }
}

#[test]
fn player_speeds_up_toward_cursor_then_caps() {
    let mut p = PlayerInfo::new(Point::new(200_000, 200_000), 24_000);
    player_movement(&mut p, Some(Point::new(400_000, 200_000)), false, &reactor(), FRAME);
    assert_eq!(p.vel, Point::new(200_004, 0));
    assert_eq!(p.pos, Point::new(203_333, 200_000));
    player_movement(&mut p, Some(Point::new(400_000, 200_000)), false, &reactor(), FRAME);
    assert_eq!(p.vel, Point::new(240_000, 0));
    assert_eq!(p.pos, Point::new(207_333, 200_000));
}

#[test]
fn player_stops_in_dead_zone_or_while_swinging() {
    let mut p = PlayerInfo::new(Point::new(200_000, 200_000), 24_000);
    player_movement(&mut p, Some(Point::new(205_000, 200_000)), false, &reactor(), FRAME);
    assert_eq!(p.vel, Point::new(0, 0));
    assert_eq!(p.pos, Point::new(200_000, 200_000));
    player_movement(&mut p, Some(Point::new(0, 200_000)), true, &reactor(), FRAME);
    assert_eq!(p.vel, Point::new(0, 0));
    player_movement(&mut p, None, false, &reactor(), FRAME);
    assert_eq!(p.pos, Point::new(200_000, 200_000));
}

#[test]
fn stunned_player_stands_still() {
    let mut p = PlayerInfo::new(Point::new(200_000, 200_000), 24_000);
    assert!(p.take_damage());
    player_movement(&mut p, Some(Point::new(0, 0)), false, &reactor(), 100_000);
    assert_eq!(p.stun_duration, 300_000);
    assert_eq!(p.invul_duration, 900_000);
    assert_eq!(p.pos, Point::new(200_000, 200_000));
    assert_eq!(p.vel, Point::new(0, 0));
}

#[test]
fn player_held_inside_field() {
    let mut p = PlayerInfo::new(Point::new(484_000, 0), 24_000);
    p.vel = Point::new(240_000, 0);
    player_movement(&mut p, Some(Point::new(700_000, 0)), false, &reactor(), FRAME);
    assert_eq!(p.pos, Point::new(485_000, 0));
}

#[test]
fn player_kept_clear_of_reactor() {
    let mut p = PlayerInfo::new(Point::new(90_000, 0), 24_000);
    player_movement(&mut p, Some(Point::new(0, 0)), false, &reactor(), FRAME);
    assert_eq!(p.pos, Point::new(88_000, 0));
}
