use web_server::spiral::{build_sequence, get_next_led, get_next_led_and_dir, Direction};

#[test]
fn single_steps_respect_the_matrix_edges() {
    assert_eq!(get_next_led(0, 0, Direction::Right), Some((0, 1)));
    assert_eq!(get_next_led(0, 4, Direction::Right), None);
    assert_eq!(get_next_led(3, 2, Direction::Down), Some((4, 2)));
    assert_eq!(get_next_led(4, 2, Direction::Down), None);
    assert_eq!(get_next_led(2, 1, Direction::Left), Some((2, 0)));
    assert_eq!(get_next_led(2, 0, Direction::Left), None);
    assert_eq!(get_next_led(1, 3, Direction::Up), Some((0, 3)));
    assert_eq!(get_next_led(0, 3, Direction::Up), None);
}

#[test]
fn walk_keeps_direction_while_it_can() {
    let mut leds = [[0u8; 5]; 5];
    leds[0][0] = 1;
    assert_eq!(
        get_next_led_and_dir((0, 0), &leds, Direction::Right),
        Some(((0, 1), Direction::Right))
    );
}

#[test]
fn walk_turns_when_blocked() {
    // At the end of the first row a right-heading cursor turns down.
    let mut leds = [[0u8; 5]; 5];
    for c in 0..5 {
        leds[0][c] = 1;
    }
    assert_eq!(
        get_next_led_and_dir((0, 4), &leds, Direction::Right),
        Some(((1, 4), Direction::Down))
    );
}

#[test]
fn walk_stops_when_surrounded() {
    // Every cell visited: no move is possible from the centre.
    let leds = [[1u8; 5]; 5];
    assert_eq!(get_next_led_and_dir((2, 2), &leds, Direction::Right), None);
}

#[test]
fn spiral_sequence_covers_the_matrix_in_order() {
    let expected = [
        (0, 0),
        (0, 1),
        (0, 2),
        (0, 3),
        (0, 4),
        (1, 4),
        (2, 4),
        (3, 4),
        (4, 4),
        (4, 3),
        (4, 2),
        (4, 1),
        (4, 0),
        (3, 0),
        (2, 0),
        (1, 0),
        (1, 1),
        (1, 2),
        (1, 3),
        (2, 3),
        (3, 3),
        (3, 2),
        (3, 1),
        (2, 1),
        (2, 2),
    ];
    assert_eq!(build_sequence(), expected);
}

#[test]
fn spiral_sequence_visits_every_cell_once() {
    let sequence = build_sequence();
    for row in 0..5 {
        for column in 0..5 {
            assert_eq!(
                sequence.iter().filter(|led| **led == (row, column)).count(),
                1
            );
        }
    }
}
