use frogger::display::{Color, Paint};
use frogger::obstacle::Obstacle;

#[test]
fn new_obstacle_keeps_what_it_was_given() {
    let obstacle = Obstacle::new(3, 4, 2, 1, -1);
    assert_eq!(obstacle, Obstacle { x: 3, y: 4, width: 2, height: 1, speed: -1 });
}

#[test]
fn step_to_the_left_wraps_to_the_right_edge() {
    let mut obstacle = Obstacle::new(0, 3, 2, 1, -2);
    obstacle.step();
    assert_eq!(obstacle, Obstacle { x: 18, y: 3, width: 2, height: 1, speed: -2 });
}

#[test]
fn step_to_the_right_wraps_to_the_left_edge() {
    let mut obstacle = Obstacle::new(19, 3, 1, 1, 2);
    obstacle.step();
    assert_eq!(obstacle.x, 1);
    let mut obstacle = Obstacle::new(19, 3, 1, 1, 1);
    obstacle.step();
    assert_eq!(obstacle.x, 0);
}

#[test]
fn step_inside_the_row_adds_the_speed() {
    let mut obstacle = Obstacle::new(7, 2, 3, 1, 2);
    obstacle.step();
    assert_eq!(obstacle.x, 9);
    let mut obstacle = Obstacle::new(7, 2, 3, 1, -1);
    obstacle.step();
    assert_eq!(obstacle.x, 6);
}

#[test]
fn step_at_speed_zero_stays() {
    let mut obstacle = Obstacle::new(7, 2, 3, 1, 0);
    obstacle.step();
    assert_eq!(obstacle, Obstacle { x: 7, y: 2, width: 3, height: 1, speed: 0 });
}

#[test]
fn step_brings_any_column_onto_the_grid() {
    let mut obstacle = Obstacle::new(65535, 2, 1, 1, 2);
    obstacle.step();
    assert_eq!(obstacle.x, 17);
    let mut obstacle = Obstacle::new(65535, 2, 1, 1, i16::MAX);
    obstacle.step();
    assert_eq!(obstacle.x, 2);
    let mut obstacle = Obstacle::new(0, 2, 1, 1, i16::MIN);
    obstacle.step();
    assert_eq!(obstacle.x, 12);
    let mut obstacle = Obstacle::new(25, 2, 1, 1, 0);
    obstacle.step();
    assert_eq!(obstacle.x, 5);
}

#[test]
fn every_step_lands_on_the_grid() {
    for speed in -2i16..=2 {
        for x in 0u16..20 {
            let mut obstacle = Obstacle::new(x, 5, 2, 1, speed);
            obstacle.step();
            assert!(obstacle.x < 20);
            assert_eq!(i32::from(obstacle.x), (i32::from(x) + i32::from(speed)).rem_euclid(20));
            assert_eq!(
                (obstacle.y, obstacle.width, obstacle.height, obstacle.speed),
                (5, 2, 1, speed)
            );
        }
    }
}

#[test]
fn overlaps_covers_exactly_the_bar() {
    let obstacle = Obstacle::new(4, 3, 3, 1, 1);
    assert!(!obstacle.overlaps(3, 3));
    assert!(obstacle.overlaps(4, 3));
    assert!(obstacle.overlaps(5, 3));
    assert!(obstacle.overlaps(6, 3));
    assert!(!obstacle.overlaps(7, 3));
    assert!(!obstacle.overlaps(5, 2));
    assert!(!obstacle.overlaps(5, 4));
}

#[test]
fn overlaps_of_a_tall_obstacle() {
    let obstacle = Obstacle::new(1, 2, 1, 3, 0);
    assert!(!obstacle.overlaps(1, 1));
    assert!(obstacle.overlaps(1, 2));
    assert!(obstacle.overlaps(1, 4));
    assert!(!obstacle.overlaps(1, 5));
}

#[test]
fn overlaps_of_an_empty_obstacle_is_false() {
    let obstacle = Obstacle::new(4, 3, 0, 1, 0);
    assert!(!obstacle.overlaps(4, 3));
    let obstacle = Obstacle::new(4, 3, 1, 0, 0);
    assert!(!obstacle.overlaps(4, 3));
}

#[test]
fn overlaps_at_the_end_of_the_number_range() {
    let obstacle = Obstacle::new(65534, 65535, 65535, 1, 0);
    assert!(obstacle.overlaps(65534, 65535));
    assert!(obstacle.overlaps(65535, 65535));
    assert!(!obstacle.overlaps(65533, 65535));
    assert!(!obstacle.overlaps(65535, 65534));
}

#[test]
fn obstacle_is_drawn_white_on_red_at_its_first_cell() {
    let obstacle = Obstacle::new(4, 3, 3, 1, 1);
    assert_eq!(
        obstacle.draw(),
        Paint {
            x: 4,
            y: 3,
            glyph: '#',
            foreground: Some(Color::White),
            background: Some(Color::Red),
        }
    );
}

#[test]
fn obstacle_is_wiped_with_a_blank() {
    let obstacle = Obstacle::new(4, 3, 3, 1, 1);
    assert_eq!(
        obstacle.clear(),
        Paint { x: 4, y: 3, glyph: ' ', foreground: None, background: None }
    );
}
