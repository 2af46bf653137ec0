use mole_rancher_demake::swing::{SwingInput, WeaponPivot};

#[test]
fn swing_cycle() {
    let mut w = WeaponPivot::new();
    assert!(!w.active);
    w.handle_input(SwingInput::Press, false);
    assert!(w.held && w.swinging && !w.active);
    assert_eq!(w.time_left, 300_000);
    w.tick(100_000);
    assert_eq!(w.backswing, 200);
    w.tick(100_000);
    assert_eq!(w.backswing, 320);
    w.handle_input(SwingInput::Release, false);
    assert!(w.active && !w.held);
    assert_eq!(w.progress(), 0);
    w.tick(200_000);
    assert_eq!(w.time_left, 100_000);
    assert_eq!(w.progress(), 666);
    assert!(w.active);
    w.tick(150_000);
    assert!(!w.active && !w.swinging);
    assert_eq!(w.backswing, 0);
    assert!(!w.clockwise_swing);
}

#[test]
fn stunned_player_cannot_start_swing() {
    let mut w = WeaponPivot::new();
    w.handle_input(SwingInput::Press, true);
    assert_eq!(w, WeaponPivot::new());
    w.handle_input(SwingInput::Release, false);
    assert_eq!(w, WeaponPivot::new());
}

#[test]
fn press_during_swing_is_ignored() {
    let mut w = WeaponPivot::new();
    w.handle_input(SwingInput::Press, false);
    w.handle_input(SwingInput::Release, false);
    w.tick(50_000);
    let before = w;
    w.handle_input(SwingInput::Press, false);
    assert_eq!(w, before);
}
