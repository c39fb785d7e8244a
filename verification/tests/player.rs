use cube_chase::context::Inner;
use cube_chase::context::PlayerStatus;
use cube_chase::player::color_for_status;
use cube_chase::player::ColorState;
use cube_chase::player::Player;
use cube_chase::player::SpeedState;

#[test]
fn status_colors() {
    assert_eq!(color_for_status(PlayerStatus::Fine), ColorState { r: 0, g: 255, b: 0 });
    assert_eq!(color_for_status(PlayerStatus::Caution), ColorState { r: 255, g: 255, b: 0 });
    assert_eq!(color_for_status(PlayerStatus::Danger), ColorState { r: 255, g: 0, b: 0 });
    // the rules name no color for a dead player: the zero color remains
    assert_eq!(color_for_status(PlayerStatus::Death), ColorState { r: 0, g: 0, b: 0 });
}

#[test]
fn change_suppression() {
    let mut game = Inner::new();
    let mut p = Player::new();
    let sp = SpeedState { l: 10, r: 10 };
    // first tick: both commands differ from the zero memory and are emitted
    let a1 = p.process(&mut game, 0, false, sp);
    assert_eq!(a1.color, Some(ColorState { r: 0, g: 255, b: 0 }));
    assert_eq!(a1.speed, Some(sp));
    // same color and speed again: nothing is emitted
    let a2 = p.process(&mut game, 10, false, sp);
    assert_eq!(a2.color, None);
    assert_eq!(a2.speed, None);
    // a changed speed is emitted exactly once, with the new value
    let sp2 = SpeedState { l: -5, r: 5 };
    let a3 = p.process(&mut game, 20, false, sp2);
    assert_eq!(a3.color, None);
    assert_eq!(a3.speed, Some(sp2));
    let a4 = p.process(&mut game, 30, false, sp2);
    assert_eq!(a4.speed, None);
}

#[test]
fn color_follows_health_bands() {
    let mut game = Inner::new();
    let mut p = Player::new();
    let sp = SpeedState { l: 0, r: 0 };
    let a1 = p.process(&mut game, 0, false, sp);
    assert_eq!(a1.color, Some(ColorState { r: 0, g: 255, b: 0 }));
    // drop to 50: caution, yellow, emitted once
    assert_eq!(game.damage(50, 10), Some(50));
    let a2 = p.process(&mut game, 20, false, sp);
    assert_eq!(a2.color, Some(ColorState { r: 255, g: 255, b: 0 }));
    let a3 = p.process(&mut game, 30, false, sp);
    assert_eq!(a3.color, None);
    // drop to 20 after the window: danger, red
    let _ = game.status(2011);
    assert_eq!(game.damage(30, 2012), Some(20));
    let a4 = p.process(&mut game, 2013, false, sp);
    assert_eq!(a4.color, Some(ColorState { r: 255, g: 0, b: 0 }));
}

#[test]
fn pause_press_toggles_and_suppresses_motion() {
    let mut game = Inner::new();
    let mut p = Player::new();
    let sp = SpeedState { l: 30, r: 30 };
    // the pause press toggles the flag; motion is suppressed while paused
    let a1 = p.process(&mut game, 0, true, sp);
    assert!(game.paused());
    assert_eq!(a1.speed, None);
    // color still flows while paused
    assert_eq!(a1.color, Some(ColorState { r: 0, g: 255, b: 0 }));
    let a2 = p.process(&mut game, 10, false, sp);
    assert!(game.paused());
    assert_eq!(a2.speed, None);
    // unpausing lets the pending speed through
    let a3 = p.process(&mut game, 20, true, sp);
    assert!(!game.paused());
    assert_eq!(a3.speed, Some(sp));
}

#[test]
fn player_status_read_ends_cooldown() {
    let mut game = Inner::new();
    let mut p = Player::new();
    let sp = SpeedState { l: 0, r: 0 };
    assert_eq!(game.damage(10, 100), Some(90));
    // a player tick within the window keeps the cooldown
    let _ = p.process(&mut game, 2100, false, sp);
    assert_eq!(game.hit, Some(100));
    // one after it clears the cooldown lazily
    let _ = p.process(&mut game, 2101, false, sp);
    assert_eq!(game.hit, None);
}
