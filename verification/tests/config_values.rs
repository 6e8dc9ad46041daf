use snake::config::{Config, Growth, REWARD, SPAWN_RETRIES};
use snake::geometry::Location;

#[test]
fn default_config_is_the_usual_board() {
    let c = Config::default();
    assert_eq!(c.cols, 30);
    assert_eq!(c.rows, 20);
    assert_eq!(c.growth, Growth::EveryNthTick(10));
    assert_eq!(c.frame_ms, 250);
    assert_eq!(c.poll_ms, 10);
    assert!(c.is_valid());
    assert_eq!(REWARD, 100);
    assert!(SPAWN_RETRIES > 0);
}

#[test]
fn config_new_rejects_what_cannot_be_played() {
    assert!(Config::new(4, 2, Growth::OnFood, 2, 1).is_some());
    assert!(Config::new(3, 2, Growth::OnFood, 2, 1).is_none());
    assert!(Config::new(4, 1, Growth::OnFood, 2, 1).is_none());
    assert!(Config::new(4, 2, Growth::EveryNthTick(0), 2, 1).is_none());
    assert!(Config::new(4, 2, Growth::EveryNthTick(1), 2, 1).is_some());
    assert!(Config::new(4, 2, Growth::OnFood, 10, 10).is_none());
    assert!(Config::new(4, 2, Growth::OnFood, 0, 0).is_none());
    let c = Config::new(30, 20, Growth::EveryNthTick(5), 500, 20).unwrap();
    assert_eq!(c, Config { cols: 30, rows: 20, growth: Growth::EveryNthTick(5), frame_ms: 500, poll_ms: 20 });
}

#[test]
fn interior_excludes_the_border() {
    let c = Config::default();
    assert!(c.is_playable(Location { x: 1, y: 1 }));
    assert!(c.is_playable(Location { x: 29, y: 19 }));
    assert!(!c.is_playable(Location { x: 0, y: 5 }));
    assert!(!c.is_playable(Location { x: 5, y: 0 }));
    assert!(!c.is_playable(Location { x: 30, y: 5 }));
    assert!(!c.is_playable(Location { x: 5, y: 20 }));
}

#[test]
fn growth_by_tick_goes_by_the_interval() {
    let c = Config::default();
    assert!(c.is_growth_due(0, false));
    assert!(c.is_growth_due(10, false));
    assert!(c.is_growth_due(20, true));
    assert!(!c.is_growth_due(1, true));
    assert!(!c.is_growth_due(19, false));
    let five = Config::new(30, 20, Growth::EveryNthTick(5), 250, 10).unwrap();
    assert!(five.is_growth_due(15, false));
    assert!(!five.is_growth_due(16, false));
    assert!(!five.is_growth_due(u64::MAX - 1, false));
    assert!(five.is_growth_due(u64::MAX, false));
}

#[test]
fn growth_on_food_goes_by_the_food() {
    let c = Config::new(30, 20, Growth::OnFood, 250, 10).unwrap();
    assert!(c.is_growth_due(3, true));
    assert!(!c.is_growth_due(10, false));
    assert!(!c.is_growth_due(0, false));
}

#[test]
fn a_zero_interval_never_grows() {
    let c = Config { cols: 30, rows: 20, growth: Growth::EveryNthTick(0), frame_ms: 250, poll_ms: 10 };
    assert!(!c.is_valid());
    assert!(!c.is_growth_due(0, true));
    assert!(!c.is_growth_due(7, false));
}

#[test]
fn sleep_is_the_rest_of_the_frame() {
    let c = Config::default();
    assert_eq!(c.sleep_for(0), 250);
    assert_eq!(c.sleep_for(10), 240);
    assert_eq!(c.sleep_for(249), 1);
    assert_eq!(c.sleep_for(250), 0);
    assert_eq!(c.sleep_for(9000), 0);
}
