use snake::frame::frame_text;
use snake::{Board, CharPalette, Direction, Food, Input, RenderError, Snake, State, Vec2};

fn game_over_board() -> Board {
    let snake = Snake::new(Vec2 { x: 4, y: 9 }, Direction::S);
    let food = Food::new(Vec2 { x: 5, y: 5 });
    let mut board = Board::new(10, 10, snake, food);
    board.update(None);
    assert_eq!(board.state(), State::GameOver);
    board
}

#[test]
fn wrong_buffer_size_is_refused_untouched() {
    let snake = Snake::new(Vec2 { x: 0, y: 0 }, Direction::S);
    let food = Food::new(Vec2 { x: 5, y: 5 });
    let board = Board::new(10, 10, snake, food);
    let mut buf = vec!['x'; 99];
    let r = board.render(&mut buf, CharPalette::default());
    assert_eq!(r, Err(RenderError::WrongBufferSize));
    assert!(buf.iter().all(|&c| c == 'x'));
    let mut big = vec!['x'; 101];
    let r = board.render(&mut big, CharPalette::default());
    assert_eq!(r, Err(RenderError::WrongBufferSize));
    assert!(big.iter().all(|&c| c == 'x'));
}

#[test]
fn running_frame_uses_palette_glyphs() {
    let snake = Snake::new(Vec2 { x: 1, y: 0 }, Direction::E);
    let food = Food::new(Vec2 { x: 2, y: 1 });
    let board = Board::new(3, 2, snake, food);
    let palette = CharPalette { empty_char: '_', clear_char: ' ', snake_char: 'o', food_char: '*' };
    let mut buf = vec![' '; 6];
    board.render(&mut buf, palette).unwrap();
    assert_eq!(buf, vec!['_', 'o', '_', '_', '_', '*']);
}

#[test]
fn food_glyph_wins_over_snake_glyph() {
    let snake = Snake::new(Vec2 { x: 1, y: 1 }, Direction::E);
    let food = Food::new(Vec2 { x: 1, y: 1 });
    let board = Board::new(3, 3, snake, food);
    let mut buf = vec![' '; 9];
    board.render(&mut buf, CharPalette::default()).unwrap();
    assert_eq!(buf[4], 'F');
}

#[test]
fn off_board_food_is_not_drawn() {
    let snake = Snake::new(Vec2 { x: 0, y: 0 }, Direction::S);
    let food = Food::new(Vec2 { x: 7, y: 7 });
    let board = Board::new(3, 3, snake, food);
    let mut buf = vec![' '; 9];
    board.render(&mut buf, CharPalette::default()).unwrap();
    assert!(buf.iter().all(|&c| c == 'S' || c == '.'));
    assert_eq!(buf[0], 'S');
}

#[test]
fn game_over_banner_layout() {
    let board = game_over_board();
    let mut buf = vec![' '; 100];
    board.render(&mut buf, CharPalette::default()).unwrap();
    let row = |y: usize| -> String { buf[y * 10..(y + 1) * 10].iter().collect() };
    // Width 10: the first banner line starts at column 10/2 - 9/2 - 1 = 0 on
    // row 10/2 - 2 = 3; the wider lines are clamped to column 0 and cut at the
    // right edge; the hint lines overwrite the last two rows.
    assert_eq!(row(3), "Game Over.");
    assert_eq!(row(7), "Gabe would");
    assert_eq!(row(8), "Press 'q' ");
    assert_eq!(row(9), "Press 'r' ");
    for y in [0usize, 1, 2, 4, 5, 6] {
        assert_eq!(row(y), "..........");
    }
}

#[test]
fn game_over_banner_fits_on_wide_board() {
    let snake = Snake::new(Vec2 { x: 0, y: 0 }, Direction::N);
    let food = Food::new(Vec2 { x: 5, y: 5 });
    let mut board = Board::new(31, 21, snake, food);
    board.update(None);
    assert_eq!(board.state(), State::GameOver);
    let mut buf = vec![' '; 31 * 21];
    board.render(&mut buf, CharPalette::default()).unwrap();
    let row = |y: usize| -> String { buf[y * 31..(y + 1) * 31].iter().collect() };
    // center_x = 15; "Game Over" starts at 15 - 4 - 1 = 10 on row 21/2 - 2 = 8.
    assert_eq!(&row(8)[10..19], "Game Over");
    assert_eq!(&row(12)[7..22], "Gabe would have");
    assert_eq!(&row(13)[8..20], "done better!");
    assert_eq!(&row(19)[..17], "Press 'q' to quit");
    assert_eq!(&row(20)[..18], "Press 'r' to retry");
}

#[test]
fn retry_after_banner_renders_running_frame() {
    let mut board = game_over_board();
    board.update(Some(Input::Retry));
    let mut buf = vec![' '; 100];
    board.render(&mut buf, CharPalette::default()).unwrap();
    assert_eq!(buf[94], 'S');
    assert_eq!(buf[55], 'F');
}

#[test]
fn default_palette_glyphs() {
    let palette = CharPalette::default();
    assert_eq!(palette.empty_char, '.');
    assert_eq!(palette.clear_char, ' ');
    assert_eq!(palette.snake_char, 'S');
    assert_eq!(palette.food_char, 'F');
}

#[test]
fn frame_text_layout() {
    let buf = vec!['a', 'b', 'c', 'd'];
    let text: String = frame_text(&buf, 2, 2).iter().collect();
    assert_eq!(text, "a b \nc d \n");
}

#[test]
fn frame_text_single_row() {
    let buf = vec!['S', '.', 'F'];
    let text: String = frame_text(&buf, 3, 1).iter().collect();
    assert_eq!(text, "S . F \n");
}
