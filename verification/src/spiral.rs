//! The LED-matrix spiral walk.
//!
//! A cursor walks the 5-by-5 matrix, keeping its direction as long as the
//! neighbouring cell ahead is inside the matrix and not yet visited, and
//! otherwise turning through the fixed priority right, down, left, up. The
//! walk starts in the top-left corner heading right and emits each cell it
//! reaches; once no unvisited neighbour is reachable the remaining slots
//! of the sequence keep the top-left cell.

use vstd::prelude::*;

verus! {

use vstd::array::{spec_array_update, spec_array_fill_for_copy_type};

broadcast use vstd::array::group_array_axioms;

/// The side length of the LED matrix.
pub const MATRIX_SIZE: usize = 5;

/// The number of cells of the LED matrix.
pub const MATRIX_CELLS: usize = 25;

/// A direction the cursor can move in, in turning priority order.
#[derive(Clone, Copy, Debug, PartialEq, Eq, Structural)]
pub enum Direction {
    Right,
    Down,
    Left,
    Up,
}

/// The cell one step from `(row, column)` in `direction`, or nothing when
/// that step leaves the matrix. Moving left or up only requires not
/// falling off the low edge, exactly as the walk's bounds checks have it.
pub open spec fn spec_next_led(row: usize, column: usize, direction: Direction) -> Option<
    (usize, usize),
> {
    match direction {
        Direction::Right => if column + 1 < MATRIX_SIZE {
            Some((row, (column + 1) as usize))
        } else {
            None
        },
        Direction::Down => if row + 1 < MATRIX_SIZE {
            Some((((row + 1) as usize), column))
        } else {
            None
        },
        Direction::Left => if column >= 1 {
            Some((row, (column - 1) as usize))
        } else {
            None
        },
        Direction::Up => if row >= 1 {
            Some((((row - 1) as usize), column))
        } else {
            None
        },
    }
}

/// The value of one cell of the matrix.
pub open spec fn spec_cell(
    leds: [[u8; MATRIX_SIZE]; MATRIX_SIZE],
    row: int,
    column: int,
) -> u8 {
    leds@[row]@[column]
}

/// One attempted move: the step in `direction` when it stays inside the
/// matrix and lands on a cell whose value differs from the current one.
pub open spec fn spec_try_move(
    led: (usize, usize),
    leds: [[u8; MATRIX_SIZE]; MATRIX_SIZE],
    direction: Direction,
) -> Option<((usize, usize), Direction)> {
    match spec_next_led(led.0, led.1, direction) {
        Some(next) => if spec_cell(leds, led.0 as int, led.1 as int) != spec_cell(
            leds,
            next.0 as int,
            next.1 as int,
        ) {
            Some((next, direction))
        } else {
            None
        },
        None => None,
    }
}

/// The first move that succeeds, trying the current direction first and
/// then the fixed priority right, down, left, up.
pub open spec fn spec_next_led_and_dir(
    led: (usize, usize),
    leds: [[u8; MATRIX_SIZE]; MATRIX_SIZE],
    current_dir: Direction,
) -> Option<((usize, usize), Direction)> {
    if spec_try_move(led, leds, current_dir) is Some {
        spec_try_move(led, leds, current_dir)
    } else if spec_try_move(led, leds, Direction::Right) is Some {
        spec_try_move(led, leds, Direction::Right)
    } else if spec_try_move(led, leds, Direction::Down) is Some {
        spec_try_move(led, leds, Direction::Down)
    } else if spec_try_move(led, leds, Direction::Left) is Some {
        spec_try_move(led, leds, Direction::Left)
    } else {
        spec_try_move(led, leds, Direction::Up)
    }
}

/// Takes one step from `(row, column)` in `direction`, as `spec_next_led`
/// describes.
pub fn get_next_led(row: usize, column: usize, direction: Direction) -> (r: Option<
    (usize, usize),
>)
    ensures
        r == spec_next_led(row, column, direction),
{
    match direction {
        Direction::Right => if column < MATRIX_SIZE - 1 {
            Some((row, column + 1))
        } else {
            None
        },
        Direction::Down => if row < MATRIX_SIZE - 1 {
            Some((row + 1, column))
        } else {
            None
        },
        Direction::Left => if column >= 1 {
            Some((row, column - 1))
        } else {
            None
        },
        Direction::Up => if row >= 1 {
            Some((row - 1, column))
        } else {
            None
        },
    }
}

/// Attempts one move, as `spec_try_move` describes.
fn try_move(
    current_led: (usize, usize),
    leds: &[[u8; MATRIX_SIZE]; MATRIX_SIZE],
    direction: Direction,
) -> (r: Option<((usize, usize), Direction)>)
    requires
        current_led.0 < MATRIX_SIZE,
        current_led.1 < MATRIX_SIZE,
    ensures
        r == spec_try_move(current_led, *leds, direction),
{
    match get_next_led(current_led.0, current_led.1, direction) {
        Some(next) => {
            assert(next.0 < MATRIX_SIZE && next.1 < MATRIX_SIZE);
            if leds[current_led.0][current_led.1] != leds[next.0][next.1] {
                Some((next, direction))
            } else {
                None
            }
        },
        None => None,
    }
}

/// Finds the next cell and direction of the walk, as
/// `spec_next_led_and_dir` describes.
pub fn get_next_led_and_dir(
    current_led: (usize, usize),
    leds: &[[u8; MATRIX_SIZE]; MATRIX_SIZE],
    current_dir: Direction,
) -> (r: Option<((usize, usize), Direction)>)
    requires
        current_led.0 < MATRIX_SIZE,
        current_led.1 < MATRIX_SIZE,
    ensures
        r == spec_next_led_and_dir(current_led, *leds, current_dir),
{
    if let Some(m) = try_move(current_led, leds, current_dir) {
        return Some(m);
    }
    if let Some(m) = try_move(current_led, leds, Direction::Right) {
        return Some(m);
    }
    if let Some(m) = try_move(current_led, leds, Direction::Down) {
        return Some(m);
    }
    if let Some(m) = try_move(current_led, leds, Direction::Left) {
        return Some(m);
    }
    try_move(current_led, leds, Direction::Up)
}

/// The walk's full state after some number of steps.
pub struct SpiralState {
    /// The cells emitted so far, in walk order.
    pub cells: Seq<(usize, usize)>,
    /// The visited matrix: 1 for every cell the walk has reached.
    pub visited: [[u8; MATRIX_SIZE]; MATRIX_SIZE],
    /// The cursor.
    pub led: (usize, usize),
    /// The direction the cursor last moved in.
    pub dir: Direction,
    /// Whether the walk can still move; once stuck it stays stuck.
    pub live: bool,
}

/// The all-zero visited matrix.
pub open spec fn spec_zero_matrix() -> [[u8; MATRIX_SIZE]; MATRIX_SIZE] {
    spec_array_fill_for_copy_type(spec_array_fill_for_copy_type(0u8))
}

/// The matrix with one more cell marked visited.
pub open spec fn spec_mark(
    leds: [[u8; MATRIX_SIZE]; MATRIX_SIZE],
    row: int,
    column: int,
) -> [[u8; MATRIX_SIZE]; MATRIX_SIZE] {
    spec_array_update(leds, row, spec_array_update(leds@[row], column, 1u8))
}

/// The walk's first state: the top-left cell emitted, marked visited, the
/// cursor on it heading right.
pub open spec fn spec_spiral_init() -> SpiralState {
    SpiralState {
        cells: seq![(0usize, 0usize)],
        visited: spec_mark(spec_zero_matrix(), 0, 0),
        led: (0usize, 0usize),
        dir: Direction::Right,
        live: true,
    }
}

/// One step of the walk: a stuck walk stays put; otherwise the cursor
/// takes the first move that succeeds, the new cell is emitted and marked,
/// and a walk with no possible move becomes stuck.
pub open spec fn spec_spiral_step(s: SpiralState) -> SpiralState {
    if !s.live {
        s
    } else {
        match spec_next_led_and_dir(s.led, s.visited, s.dir) {
            Some(step) => SpiralState {
                cells: s.cells.push(step.0),
                visited: spec_mark(s.visited, step.0.0 as int, step.0.1 as int),
                led: step.0,
                dir: step.1,
                live: true,
            },
            None => SpiralState {
                cells: s.cells,
                visited: s.visited,
                led: s.led,
                dir: s.dir,
                live: false,
            },
        }
    }
}

/// The walk's state after `i` steps.
pub open spec fn spec_spiral_state(i: nat) -> SpiralState
    decreases i,
{
    if i == 0 {
        spec_spiral_init()
    } else {
        spec_spiral_step(spec_spiral_state((i - 1) as nat))
    }
}

/// The finished sequence: the cells the walk emitted in its first
/// `MATRIX_CELLS - 1` steps, padded with the top-left cell where the walk
/// got stuck early.
pub open spec fn spec_sequence() -> Seq<(usize, usize)> {
    let s = spec_spiral_state((MATRIX_CELLS - 1) as nat);
    Seq::new(
        MATRIX_CELLS as nat,
        |j: int|
            if j < s.cells.len() {
                s.cells[j]
            } else {
                (0usize, 0usize)
            },
    )
}

/// Builds the spiral sequence of all matrix cells, as `spec_sequence`
/// describes.
pub fn build_sequence() -> (r: [(usize, usize); MATRIX_CELLS])
    ensures
        r@ == spec_sequence(),
{
    let mut visited: [[u8; MATRIX_SIZE]; MATRIX_SIZE] = [[0u8; MATRIX_SIZE]; MATRIX_SIZE];
    let mut arr: [(usize, usize); MATRIX_CELLS] = [(0usize, 0usize); MATRIX_CELLS];
    let mut led: (usize, usize) = (0, 0);
    let mut dir: Direction = Direction::Right;
    let mut live: bool = true;
    visited[0][0] = 1;
    proof {
        assert(visited =~= spec_spiral_init().visited);
        assert(arr@[0] == (0usize, 0usize));
    }
    let mut i: usize = 1;
    while i < MATRIX_CELLS
        invariant
            1 <= i <= MATRIX_CELLS,
            ({
                let s = spec_spiral_state((i - 1) as nat);
                &&& visited == s.visited
                &&& led == s.led
                &&& dir == s.dir
                &&& live == s.live
                &&& s.led.0 < MATRIX_SIZE && s.led.1 < MATRIX_SIZE
                &&& s.cells.len() <= i
                &&& (s.live ==> s.cells.len() == i)
                &&& forall|j: int|
                    0 <= j < i ==> arr@[j] == (if j < s.cells.len() {
                        s.cells[j]
                    } else {
                        (0usize, 0usize)
                    })
                &&& forall|j: int| i <= j < MATRIX_CELLS ==> arr@[j] == (0usize, 0usize)
            }),
        decreases MATRIX_CELLS - i,
    {
        let ghost s = spec_spiral_state((i - 1) as nat);
        if live {
            match get_next_led_and_dir(led, &visited, dir) {
                Some(step) => {
                    let (next, next_dir) = step;
                    proof {
                        assert(next.0 < MATRIX_SIZE && next.1 < MATRIX_SIZE);
                    }
                    arr[i] = next;
                    let mut marked_row: [u8; MATRIX_SIZE] = visited[next.0];
                    marked_row[next.1] = 1;
                    visited[next.0] = marked_row;
                    led = next;
                    dir = next_dir;
                    proof {
                        assert(visited =~= spec_mark(s.visited, next.0 as int, next.1 as int));
                        assert(spec_spiral_state(i as nat) == spec_spiral_step(s));
                    }
                },
                None => {
                    live = false;
                    proof {
                        assert(spec_spiral_state(i as nat) == spec_spiral_step(s));
                    }
                },
            }
        } else {
            proof {
                assert(spec_spiral_state(i as nat) == spec_spiral_step(s));
            }
        }
        i = i + 1;
    }
    proof {
        assert(arr@ =~= spec_sequence());
    }
    arr
}

} // verus!
