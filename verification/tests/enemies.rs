use cube_chase::context::Inner;
use cube_chase::enemies::easy::decide_motion;
use cube_chase::enemies::easy::turn_right;
use cube_chase::enemies::easy::Easy;
use cube_chase::enemies::squared_distance;
use cube_chase::enemies::Enemy;
use cube_chase::enemies::Gate;
use cube_chase::enemies::Position;
use cube_chase::player::ColorState;

fn at(x: i32, y: i32, angle: i32) -> Position {
    Position { x, y, angle }
}

#[test]
fn squared_distance_values() {
    assert_eq!(squared_distance(&at(0, 0, 0), &at(3, 4, 0)), 25);
    assert_eq!(squared_distance(&at(100, 100, 0), &at(120, 110, 0)), 500);
    assert_eq!(squared_distance(&at(-5, -5, 0), &at(5, 5, 0)), 200);
    assert_eq!(squared_distance(&at(7, -2, 90), &at(7, -2, 270)), 0);
    // the full coordinate range fits without overflow
    assert_eq!(
        squared_distance(&at(i32::MIN, 0, 0), &at(i32::MAX, 0, 0)),
        4294967295u128 * 4294967295u128
    );
}

#[test]
fn wraparound_turn_decision() {
    // heading 350, target bearing 10: right across the 0/360 seam is the
    // 20-degree arc, not the 340-degree one through 180
    assert!(turn_right(350, 10));
    assert_eq!(decide_motion(350, 10), (2, -2));
    // and the mirror case turns left
    assert!(!turn_right(10, 350));
    assert_eq!(decide_motion(10, 350), (-2, 2));
}

#[test]
fn plain_turn_decision() {
    assert!(turn_right(0, 90));
    assert!(!turn_right(0, 270));
    assert!(turn_right(200, 300));
    assert!(!turn_right(200, 100));
}

#[test]
fn deadband_drives_straight() {
    assert_eq!(decide_motion(100, 105), (6, 6));
    assert_eq!(decide_motion(100, 110), (6, 6));
    assert_eq!(decide_motion(100, 90), (6, 6));
    assert_eq!(decide_motion(100, 111), (2, -2));
    assert_eq!(decide_motion(100, 89), (-2, 2));
}

#[test]
fn rate_gate_skips_fast_ticks() {
    let game = Inner::new();
    let mut e = Enemy::new(0, Easy::new(), 0);
    // less than 200 ms since construction: skipped
    assert_eq!(e.gate(&game, 199), Gate::Idle);
    assert_eq!(e.gate(&game, 200), Gate::Run);
    // a skipped tick leaves the rate timer where it was
    assert_eq!(e.gate(&game, 399), Gate::Idle);
    assert_eq!(e.gate(&game, 400), Gate::Run);
    assert_eq!(e.gate(&game, 600), Gate::Run);
}

#[test]
fn paused_controller_sends_one_stop() {
    let mut game = Inner::new();
    game.pause();
    let mut e = Enemy::new(0, Easy::new(), 0);
    assert_eq!(e.gate(&game, 300), Gate::Stop);
    assert_eq!(e.gate(&game, 600), Gate::Idle);
    assert_eq!(e.gate(&game, 900), Gate::Idle);
    // unpausing clears the marker and pursuit resumes
    game.pause();
    assert_eq!(e.gate(&game, 1200), Gate::Run);
    // pausing again earns exactly one new stop
    game.pause();
    assert_eq!(e.gate(&game, 1500), Gate::Stop);
    assert_eq!(e.gate(&game, 1800), Gate::Idle);
}

#[test]
fn enemy_init_shows_blue() {
    let mut e = Enemy::new(3, Easy::new(), 0);
    assert_eq!(e.init(), ColorState { r: 0, g: 0, b: 255 });
}

#[test]
fn pursuit_tick_hits_and_steers() {
    let mut game = Inner::new();
    let mut e = Enemy::new(1, Easy::new(), 0);
    let player = at(100, 100, 0);
    let enemy = at(120, 110, 350);
    // squared distance 500 < 1000: contact; bearing 10 from heading 350:
    // pivot right
    let acts = e.update(&mut game, 50, &player, &enemy, 10);
    assert_eq!(acts.hit, Some(90));
    assert_eq!(acts.motor, Some((2, -2)));
    assert_eq!(game.health, 90);
    // same steering again: suppressed; hit refused inside the window
    let acts2 = e.update(&mut game, 100, &player, &enemy, 10);
    assert_eq!(acts2.hit, None);
    assert_eq!(acts2.motor, None);
    // new bearing within the deadband: drive straight, emitted once
    let acts3 = e.update(&mut game, 150, &player, &enemy, 355);
    assert_eq!(acts3.hit, None);
    assert_eq!(acts3.motor, Some((6, 6)));
}

#[test]
fn contact_radius_boundary() {
    let mut game = Inner::new();
    let mut e = Enemy::new(0, Easy::new(), 0);
    // squared distance exactly 1000: no contact
    let far = e.update(&mut game, 10, &at(30, 10, 0), &at(0, 0, 0), 18);
    assert_eq!(far.hit, None);
    assert_eq!(game.health, 100);
    // squared distance 981 < 1000: contact
    let near = e.update(&mut game, 20, &at(30, 9, 0), &at(0, 0, 0), 16);
    assert_eq!(near.hit, Some(90));
    assert_eq!(game.health, 90);
}

#[test]
fn contact_scenario_across_cooldown() {
    // the end-to-end pursuit scenario: an enemy in continuous contact
    // lands one hit per cooldown window
    let mut game = Inner::new();
    let mut e = Enemy::new(0, Easy::new(), 0);
    let player = at(100, 100, 0);
    let enemy = at(110, 110, 0);
    let mut healths = Vec::new();
    for t in [250u64, 500, 750] {
        assert_eq!(e.gate(&game, t), Gate::Run);
        let acts = e.update(&mut game, t, &player, &enemy, 45);
        healths.push((acts.hit, game.health));
    }
    // first tick lands the hit, the next two are refused
    assert_eq!(healths[0], (Some(90), 90));
    assert_eq!(healths[1], (None, 90));
    assert_eq!(healths[2], (None, 90));
    // a status read more than 2 seconds after the hit ends the window
    let _ = game.status(2251);
    assert_eq!(e.gate(&game, 2300), Gate::Run);
    let acts = e.update(&mut game, 2300, &player, &enemy, 45);
    assert_eq!(acts.hit, Some(80));
    assert_eq!(game.health, 80);
}
