use frogger::collision::{check_collision, handle_collision};
use frogger::frog::Frog;
use frogger::obstacle::Obstacle;

#[test]
fn obstacle_on_the_frog_costs_a_life_and_resets() {
    let mut frog = Frog::new(10, 9, 3);
    let obstacles = vec![Obstacle::new(10, 9, 1, 1, 0)];
    handle_collision(&mut frog, &obstacles);
    assert_eq!(frog, Frog { x: 10, y: 9, lives: 2 });
    assert_eq!(obstacles, vec![Obstacle { x: 10, y: 9, width: 1, height: 1, speed: 0 }]);
}

#[test]
fn collision_sends_the_frog_back_to_the_respawn_cell() {
    let mut frog = Frog::new(3, 4, 3);
    let obstacles = vec![Obstacle::new(2, 4, 3, 1, 1)];
    handle_collision(&mut frog, &obstacles);
    assert_eq!(frog, Frog { x: 10, y: 9, lives: 2 });
}

#[test]
fn several_obstacles_on_the_frog_cost_one_life() {
    let mut frog = Frog::new(3, 4, 3);
    let obstacles = vec![
        Obstacle::new(3, 4, 1, 1, 0),
        Obstacle::new(2, 4, 3, 1, 1),
        Obstacle::new(1, 4, 3, 1, -1),
        Obstacle::new(10, 9, 1, 1, 0),
    ];
    handle_collision(&mut frog, &obstacles);
    assert_eq!(frog, Frog { x: 10, y: 9, lives: 2 });
}

#[test]
fn no_obstacle_on_the_frog_changes_nothing() {
    let mut frog = Frog::new(3, 4, 3);
    let obstacles = vec![Obstacle::new(4, 4, 3, 1, 1), Obstacle::new(3, 5, 1, 1, 0)];
    assert!(!check_collision(&frog, &obstacles));
    handle_collision(&mut frog, &obstacles);
    assert_eq!(frog, Frog { x: 3, y: 4, lives: 3 });
}

#[test]
fn no_obstacles_at_all_never_collide() {
    let mut frog = Frog::new(3, 4, 3);
    assert!(!check_collision(&frog, &[]));
    handle_collision(&mut frog, &[]);
    assert_eq!(frog, Frog { x: 3, y: 4, lives: 3 });
}

#[test]
fn check_collision_finds_a_late_obstacle() {
    let frog = Frog::new(3, 4, 3);
    let obstacles = vec![
        Obstacle::new(0, 1, 1, 1, 0),
        Obstacle::new(5, 4, 2, 1, 0),
        Obstacle::new(1, 4, 3, 1, 0),
    ];
    assert!(check_collision(&frog, &obstacles));
}

#[test]
fn lives_stop_at_zero() {
    let mut frog = Frog::new(3, 4, 1);
    let obstacles = vec![Obstacle::new(3, 4, 1, 1, 0), Obstacle::new(10, 9, 1, 1, 0)];
    handle_collision(&mut frog, &obstacles);
    assert_eq!(frog, Frog { x: 10, y: 9, lives: 0 });
    handle_collision(&mut frog, &obstacles);
    assert_eq!(frog, Frog { x: 10, y: 9, lives: 0 });
    frog.move_up();
    assert_eq!(frog, Frog { x: 10, y: 8, lives: 0 });
}

#[test]
fn lives_never_rise() {
    let mut frog = Frog::new(10, 9, 3);
    let obstacles = vec![Obstacle::new(10, 8, 1, 1, 0)];
    let mut last = frog.lives;
    for round in 0..8 {
        if round % 2 == 0 {
            frog.move_up();
        } else {
            frog.move_left();
        }
        handle_collision(&mut frog, &obstacles);
        assert!(frog.lives <= last);
        last = frog.lives;
    }
    assert_eq!(frog.lives, 2);
}
