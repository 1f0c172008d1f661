use grid_snake::{AdvanceResult, Config, Direction, Point, Simulation, UNITS_PER_CELL};

fn config(speed: u32) -> Config {
    Config {
        grid_scale: 20,
        speed,
        food_min_x: -20,
        food_max_x: 20,
        food_min_y: -10,
        food_max_y: 10,
    }
}

fn far_food() -> Point {
    Point::new(100_000, 100_000)
}

fn pts(v: &[(i64, i64)]) -> Vec<Point> {
    v.iter().map(|&(x, y)| Point::new(x, y)).collect()
}

#[test]
fn new_simulation_has_seed_path() {
    let s = Simulation::new(config(2), Point::new(200, 200));
    assert_eq!(s.waypoints(), pts(&[(20, 0), (0, 0)]));
    assert_eq!(s.heading(), Direction::Right);
    assert_eq!(s.progress(), 0);
    assert_eq!(s.pending_markers(), Vec::<usize>::new());
    assert_eq!(s.food(), Point::new(200, 200));
    assert_eq!(s.segment_count(), 1);
    assert_eq!(s.path_len(), 2);
}

#[test]
fn half_second_at_two_cells_per_second_steps_once() {
    let mut s = Simulation::new(config(2), far_food());
    let r = s.advance(500);
    assert_eq!(
        r,
        AdvanceResult { stepped: true, segment_added: None, food_consumed: false }
    );
    assert_eq!(s.progress(), 0);
    assert_eq!(s.waypoints(), pts(&[(40, 0), (20, 0)]));
}

#[test]
fn pending_growth_keeps_the_tail() {
    let mut c = config(2);
    c.food_min_x = 100;
    c.food_max_x = 100;
    c.food_min_y = 100;
    c.food_max_y = 100;
    let mut s = Simulation::new(c, Point::new(40, 0));
    let r = s.advance(500);
    assert!(r.food_consumed);
    assert_eq!(r.segment_added, None);
    assert_eq!(s.pending_markers(), vec![0]);
    assert_eq!(s.food(), Point::new(2000, 2000));
    assert_eq!(s.waypoints(), pts(&[(40, 0), (20, 0)]));
    let r = s.advance(500);
    assert_eq!(
        r,
        AdvanceResult { stepped: true, segment_added: Some(1), food_consumed: false }
    );
    assert_eq!(s.waypoints(), pts(&[(60, 0), (40, 0), (20, 0)]));
    assert_eq!(s.pending_markers(), Vec::<usize>::new());
    assert_eq!(s.segment_count(), 2);
}

#[test]
fn reversal_is_rejected() {
    let mut s = Simulation::new(config(2), far_food());
    assert!(!s.set_heading(Direction::Left));
    assert_eq!(s.heading(), Direction::Right);
}

#[test]
fn perpendicular_and_same_headings_are_accepted() {
    let mut s = Simulation::new(config(2), far_food());
    assert!(s.set_heading(Direction::Right));
    assert_eq!(s.heading(), Direction::Right);
    assert!(s.set_heading(Direction::Up));
    assert_eq!(s.heading(), Direction::Up);
    assert!(s.set_heading(Direction::Down));
    assert_eq!(s.heading(), Direction::Down);
    // The path still points right until the next step.
    assert!(!s.set_heading(Direction::Left));
    assert_eq!(s.heading(), Direction::Down);
}

#[test]
fn turning_follows_the_last_step() {
    let mut s = Simulation::new(config(1), far_food());
    assert!(s.set_heading(Direction::Up));
    s.advance(1000);
    assert_eq!(s.waypoints(), pts(&[(20, 20), (20, 0)]));
    assert!(!s.set_heading(Direction::Down));
    assert!(s.set_heading(Direction::Left));
    s.advance(1000);
    assert_eq!(s.waypoints(), pts(&[(0, 20), (20, 20)]));
    assert!(!s.set_heading(Direction::Right));
}

#[test]
fn food_on_the_head_is_eaten_and_moved() {
    let mut s = Simulation::new(config(1), Point::new(200, 0));
    for _ in 0..8 {
        let r = s.advance(1000);
        assert!(r.stepped);
        assert!(!r.food_consumed);
    }
    let r = s.advance(1000);
    assert!(r.food_consumed);
    assert_eq!(s.marker_position(0), Point::new(200, 0));
    assert_eq!(s.pending_markers(), vec![0]);
    let f = s.food();
    assert_eq!(f.x % 20, 0);
    assert_eq!(f.y % 20, 0);
    assert!(-400 <= f.x && f.x <= 400);
    assert!(-200 <= f.y && f.y <= 200);
}

#[test]
fn food_off_the_head_is_not_eaten() {
    let mut s = Simulation::new(config(1), Point::new(40, 20));
    let r = s.advance(1000);
    assert!(!r.food_consumed);
    assert_eq!(s.food(), Point::new(40, 20));
    assert_eq!(s.pending_markers(), Vec::<usize>::new());
}

#[test]
fn sub_threshold_advances_only_move_progress() {
    let mut s = Simulation::new(config(2), far_food());
    for k in 1..5u64 {
        let r = s.advance(100);
        assert_eq!(
            r,
            AdvanceResult { stepped: false, segment_added: None, food_consumed: false }
        );
        assert_eq!(s.progress(), 200 * k);
        assert_eq!(s.waypoints(), pts(&[(20, 0), (0, 0)]));
    }
    let r = s.advance(100);
    assert!(r.stepped);
    assert_eq!(s.progress(), 0);
    assert_eq!(s.path_len(), 2);
}

#[test]
fn excess_progress_is_carried_not_stepped_twice() {
    let mut s = Simulation::new(config(3), far_food());
    let r = s.advance(1000);
    assert!(r.stepped);
    assert_eq!(s.progress(), (3000 % UNITS_PER_CELL) as u64);
    assert_eq!(s.waypoints(), pts(&[(40, 0), (20, 0)]));
    let r = s.advance(700);
    assert!(r.stepped);
    assert_eq!(s.progress(), 100);
    assert_eq!(s.waypoints(), pts(&[(60, 0), (40, 0)]));
}

#[test]
fn zero_elapsed_time_changes_nothing() {
    let mut s = Simulation::new(config(2), far_food());
    let r = s.advance(0);
    assert!(!r.stepped);
    assert_eq!(s.progress(), 0);
}

#[test]
fn interpolation_between_waypoints() {
    let mut s = Simulation::new(config(1), far_food());
    assert_eq!(s.interpolated_position(0), (0, 0));
    s.advance(250);
    // A quarter of the way from (0, 0) to (20, 0), in thousandths.
    assert_eq!(s.interpolated_position(0), (5000, 0));
    s.set_heading(Direction::Down);
    s.advance(750);
    assert_eq!(s.waypoints(), pts(&[(20, -20), (20, 0)]));
    s.advance(500);
    assert_eq!(s.interpolated_position(0), (20_000, -10_000));
}

#[test]
fn new_segment_is_interpolated_from_the_tail() {
    let mut c = config(1);
    c.food_min_x = 50;
    c.food_max_x = 50;
    let mut s = Simulation::new(c, Point::new(40, 0));
    s.advance(1000);
    let r = s.advance(1000);
    assert_eq!(r.segment_added, Some(1));
    assert_eq!(s.segment_count(), 2);
    s.advance(500);
    assert_eq!(s.interpolated_position(1), (30_000, 0));
    assert_eq!(s.interpolated_position(0), (50_000, 0));
    assert_eq!(s.marker_position(2), Point::new(20, 0));
}

#[test]
fn markers_resolve_in_order_one_segment_each() {
    // Food is eaten twice in a row: (40, 0), then relocated to (60, 0).
    let c = Config {
        grid_scale: 20,
        speed: 1,
        food_min_x: 3,
        food_max_x: 3,
        food_min_y: 0,
        food_max_y: 0,
    };
    let mut s = Simulation::new(c, Point::new(40, 0));
    let r = s.advance(1000);
    assert!(r.food_consumed);
    assert_eq!(s.pending_markers(), vec![0]);
    let r = s.advance(1000);
    assert!(r.food_consumed);
    assert_eq!(r.segment_added, Some(1));
    assert_eq!(s.pending_markers(), vec![0]);
    assert_eq!(s.path_len(), 3);
    let r = s.advance(1000);
    assert_eq!(r.segment_added, None);
    assert_eq!(s.pending_markers(), vec![1]);
    let r = s.advance(1000);
    assert_eq!(r.segment_added, Some(2));
    assert_eq!(s.path_len(), 4);
    assert_eq!(s.segment_count(), 3);
    assert_eq!(s.pending_markers(), Vec::<usize>::new());
}

#[test]
fn relocate_food_scales_cells() {
    let mut s = Simulation::new(config(1), far_food());
    s.relocate_food(-20, 10);
    assert_eq!(s.food(), Point::new(-400, 200));
}

#[test]
fn random_food_stays_in_range() {
    let c = Config {
        grid_scale: 10,
        speed: 1,
        food_min_x: 5,
        food_max_x: 7,
        food_min_y: -3,
        food_max_y: -2,
    };
    for _ in 0..20 {
        let mut s = Simulation::new(c, Point::new(20, 0));
        assert!(s.advance(1000).food_consumed);
        let f = s.food();
        assert!(f.x == 50 || f.x == 60 || f.x == 70);
        assert!(f.y == -30 || f.y == -20);
    }
}

#[test]
fn direction_units() {
    assert_eq!(Direction::Left.unit(), Point::new(-1, 0));
    assert_eq!(Direction::Right.unit(), Point::new(1, 0));
    assert_eq!(Direction::Up.unit(), Point::new(0, 1));
    assert_eq!(Direction::Down.unit(), Point::new(0, -1));
}
