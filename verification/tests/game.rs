use snake::{Board, CharPalette, Direction, Food, Input, Snake, State, Vec2};

fn rendered(board: &Board, cells: usize) -> Vec<char> {
    let mut buf = vec![' '; cells];
    board.render(&mut buf, CharPalette::default()).unwrap();
    buf
}

fn count(buf: &[char], glyph: char) -> usize {
    let mut n: usize = 0;
    for &c in buf {
        if c == glyph {
            n += 1;
        }
    }
    n
}

#[test]
fn scenario_a_first_tick() {
    let snake = Snake::new(Vec2 { x: 0, y: 0 }, Direction::S);
    let food = Food::new(Vec2 { x: 5, y: 5 });
    let mut board = Board::new(10, 10, snake, food);
    board.update(None);
    assert_eq!(board.state(), State::Running);
    let buf = rendered(&board, 100);
    for (i, &c) in buf.iter().enumerate() {
        if i == 10 {
            assert_eq!(c, 'S');
        } else if i == 55 {
            assert_eq!(c, 'F');
        } else {
            assert_eq!(c, '.');
        }
    }
}

#[test]
fn scenario_b_out_of_bounds_is_game_over() {
    let snake = Snake::new(Vec2 { x: 4, y: 9 }, Direction::S);
    let food = Food::new(Vec2 { x: 5, y: 5 });
    let mut board = Board::new(10, 10, snake, food);
    board.update(None);
    assert_eq!(board.state(), State::GameOver);
}

#[test]
fn scenario_c_retry_restores_initial_state() {
    let snake = Snake::new(Vec2 { x: 4, y: 9 }, Direction::S);
    let food = Food::new(Vec2 { x: 5, y: 5 });
    let mut board = Board::new(10, 10, snake, food);
    board.update(None);
    assert_eq!(board.state(), State::GameOver);
    board.update(Some(Input::Retry));
    assert_eq!(board.state(), State::Running);
    let buf = rendered(&board, 100);
    assert_eq!(buf[94], 'S');
    assert_eq!(buf[55], 'F');
    assert_eq!(count(&buf, 'S'), 1);
    // The restored heading is still south, so the very next move runs off the
    // board again.
    board.update(None);
    assert_eq!(board.state(), State::GameOver);
}

#[test]
fn scenario_d_eating_grows_and_relocates_food() {
    let snake = Snake::new(Vec2 { x: 5, y: 4 }, Direction::S);
    let food = Food::new(Vec2 { x: 5, y: 5 });
    let mut board = Board::new(10, 10, snake, food);
    board.update(None); // head moves onto the food cell
    assert_eq!(board.state(), State::Running);
    board.update(None); // the new tail segment starts moving
    assert_eq!(board.state(), State::Running);
    let buf = rendered(&board, 100);
    // The food relocated somewhere on the grid; if it landed on a snake cell
    // its glyph wins there.
    assert_eq!(count(&buf, 'F'), 1);
    let snake_cells = count(&buf, 'S');
    assert!(snake_cells == 2 || snake_cells == 1);
    assert_eq!(count(&buf, '.'), 100 - 1 - snake_cells);
}

#[test]
fn construction_accepts_any_positive_dims() {
    for (w, h) in [(1u32, 1u32), (10, 10), (31, 21), (2, 500)] {
        let snake = Snake::new(Vec2 { x: 0, y: 0 }, Direction::E);
        let food = Food::new(Vec2 { x: 0, y: 0 });
        let board = Board::new(w, h, snake, food);
        assert_eq!(board.state(), State::Running);
        assert_eq!(board.size(), (w, h));
    }
}

#[test]
fn checked_construction_rejects_zero_dims() {
    let make_snake = || Snake::new(Vec2 { x: 0, y: 0 }, Direction::E);
    let food = Food::new(Vec2 { x: 0, y: 0 });
    assert!(Board::try_new(0, 5, make_snake(), food).is_none());
    assert!(Board::try_new(5, 0, make_snake(), food).is_none());
    assert!(Board::try_new(0, 0, make_snake(), food).is_none());
    let board = Board::try_new(5, 5, make_snake(), food).unwrap();
    assert_eq!(board.state(), State::Running);
    assert_eq!(board.size(), (5, 5));
}

#[test]
fn reversal_input_is_ignored() {
    let snake = Snake::new(Vec2 { x: 4, y: 4 }, Direction::S);
    let food = Food::new(Vec2 { x: 9, y: 9 });
    let mut board = Board::new(10, 10, snake, food);
    board.update(Some(Input::Face(Direction::N)));
    assert_eq!(board.state(), State::Running);
    let buf = rendered(&board, 100);
    // The snake kept going south to (4, 5); a turn north would have put it at
    // (4, 3).
    assert_eq!(buf[54], 'S');
    assert_eq!(buf[34], '.');
}

#[test]
fn sideways_turn_is_honored() {
    let snake = Snake::new(Vec2 { x: 4, y: 4 }, Direction::S);
    let food = Food::new(Vec2 { x: 9, y: 9 });
    let mut board = Board::new(10, 10, snake, food);
    board.update(Some(Input::Face(Direction::E)));
    let buf = rendered(&board, 100);
    assert_eq!(buf[45], 'S');
}

#[test]
fn game_over_ignores_other_inputs() {
    let snake = Snake::new(Vec2 { x: 4, y: 9 }, Direction::S);
    let food = Food::new(Vec2 { x: 5, y: 5 });
    let mut board = Board::new(10, 10, snake, food);
    board.update(None);
    assert_eq!(board.state(), State::GameOver);
    board.update(None);
    assert_eq!(board.state(), State::GameOver);
    board.update(Some(Input::Face(Direction::E)));
    assert_eq!(board.state(), State::GameOver);
}

#[test]
fn quit_from_game_over() {
    let snake = Snake::new(Vec2 { x: 4, y: 9 }, Direction::S);
    let food = Food::new(Vec2 { x: 5, y: 5 });
    let mut board = Board::new(10, 10, snake, food);
    board.update(None);
    board.update(Some(Input::Quit));
    assert_eq!(board.state(), State::Quit);
}

#[test]
fn food_position_is_recorded() {
    let food = Food::new(Vec2 { x: 3, y: 7 });
    assert_eq!(food.position, Vec2 { x: 3, y: 7 });
}
