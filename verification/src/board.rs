//! The game board: grid dimensions, the snake, the food, the game state
//! machine, and the recorded initial configuration used by retry.

use vstd::prelude::*;
use vstd::pervasive::unreached;
use vstd::pervasive::VecAdditionalExecFns;

use crate::geom::{opposite, Direction, Vec2};
use crate::snake::{advanced, grown, self_colliding, Snake};
use crate::text::{
    gameover_line1, gameover_line1_chars, gameover_line2, gameover_line2_chars, gameover_line3,
    gameover_line3_chars, quit_hint, quit_hint_chars, retry_hint, retry_hint_chars, write_text,
};

use rand::RngExt;

verus! {

/// Food game object.
#[derive(Copy, Clone, Eq, PartialEq, Structural, Default, Debug)]
pub struct Food {
    pub position: Vec2,
}

impl Food {
    pub fn new(position: Vec2) -> (r: Food)
        ensures
            r.position == position,
    {
        Food { position }
    }
}

/// State of the game.
#[derive(Copy, Clone, Eq, PartialEq, Structural, Debug)]
pub enum State {
    Running,
    GameOver,
    Quit,
}

/// User input: one coalesced event per tick.
#[derive(Copy, Clone, Eq, PartialEq, Structural, Debug)]
pub enum Input {
    Face(Direction),
    Retry,
    Quit,
}

/// Initial configuration, captured at construction and restored by retry.
#[derive(Copy, Clone, Eq, PartialEq, Structural, Debug)]
struct InitialState {
    snake_pos: Vec2,
    snake_dir: Direction,
    food_pos: Vec2,
}

/// The abstract state of a board.
pub ghost struct BoardView {
    pub width: int,
    pub height: int,
    pub segs: Seq<Vec2>,
    pub heading: Direction,
    pub food: Vec2,
    pub state: State,
    pub init_pos: Vec2,
    pub init_heading: Direction,
    pub init_food: Vec2,
}

/// `p` lies on a `w` by `h` grid.
pub open spec fn pos_in_bounds(w: int, h: int, p: Vec2) -> bool {
    0 <= p.x < w && 0 <= p.y < h
}

/// `p` is far enough from the edge of the i32 range that one step cannot
/// overflow.
pub open spec fn coord_safe(p: Vec2) -> bool {
    i32::MIN < p.x < i32::MAX && i32::MIN < p.y < i32::MAX
}

/// The heading after one tick's input: a request to face the exact reverse of
/// the current heading is ignored, anything else is honored.
pub open spec fn next_heading(cur: Direction, input: Option<Input>) -> Direction {
    match input {
        Some(Input::Face(d)) => if opposite(d) != cur {
            d
        } else {
            cur
        },
        _ => cur,
    }
}

/// The transition relation of one update in the running state. The food cell
/// after eating is drawn at random, so only its bounds are related.
pub open spec fn running_post(pre: BoardView, input: Option<Input>, post: BoardView) -> bool {
    let dir = next_heading(pre.heading, input);
    let segs = advanced(pre.segs, dir);
    let dead = !pos_in_bounds(pre.width, pre.height, segs[0]) || self_colliding(segs);
    &&& post.width == pre.width
    &&& post.height == pre.height
    &&& post.init_pos == pre.init_pos
    &&& post.init_heading == pre.init_heading
    &&& post.init_food == pre.init_food
    &&& post.heading == dir
    &&& if dead {
        &&& post.state == State::GameOver
        &&& post.segs == segs
        &&& post.food == pre.food
    } else if segs[0] == pre.food {
        &&& post.state == State::Running
        &&& post.segs == grown(segs)
        &&& pos_in_bounds(pre.width, pre.height, post.food)
    } else {
        &&& post.state == State::Running
        &&& post.segs == segs
        &&& post.food == pre.food
    }
}

/// Retry restores the captured initial configuration and resumes running.
pub open spec fn retried(pre: BoardView, post: BoardView) -> bool {
    &&& post.width == pre.width
    &&& post.height == pre.height
    &&& post.init_pos == pre.init_pos
    &&& post.init_heading == pre.init_heading
    &&& post.init_food == pre.init_food
    &&& post.state == State::Running
    &&& post.segs == seq![pre.init_pos]
    &&& post.heading == pre.init_heading
    &&& post.food == pre.init_food
}

/// The transition relation of one update in the game-over state.
pub open spec fn game_over_post(pre: BoardView, input: Option<Input>, post: BoardView) -> bool {
    match input {
        Some(Input::Retry) => retried(pre, post),
        Some(Input::Quit) => {
            &&& post.width == pre.width
            &&& post.height == pre.height
            &&& post.init_pos == pre.init_pos
            &&& post.init_heading == pre.init_heading
            &&& post.init_food == pre.init_food
            &&& post.state == State::Quit
            &&& post.segs == pre.segs
            &&& post.heading == pre.heading
            &&& post.food == pre.food
        },
        _ => post == pre,
    }
}

/// Palette to use when rendering characters.
#[derive(Copy, Clone, Eq, PartialEq, Structural, Debug)]
pub struct CharPalette {
    pub empty_char: char,
    pub clear_char: char,
    pub snake_char: char,
    pub food_char: char,
}

/// The glyphs used when no palette is chosen.
pub open spec fn default_palette() -> CharPalette {
    CharPalette { empty_char: '.', clear_char: ' ', snake_char: 'S', food_char: 'F' }
}

impl Default for CharPalette {
    fn default() -> (r: CharPalette)
        ensures
            r == default_palette(),
    {
        CharPalette { empty_char: '.', clear_char: ' ', snake_char: 'S', food_char: 'F' }
    }
}

/// Why a render call was refused.
#[derive(Copy, Clone, Eq, PartialEq, Structural, Debug)]
pub enum RenderError {
    WrongBufferSize,
}

/// The buffer index of cell `p` on a row-major grid of width `w`.
pub open spec fn buf_index(w: int, p: Vec2) -> int {
    p.y * w + p.x
}

/// A frame filled with one glyph.
pub open spec fn blank_frame(w: int, h: int, c: char) -> Seq<char> {
    Seq::new((w * h) as nat, |i: int| c)
}

/// Cell `i` is covered by one of the first `n` snake segments that lie on the
/// grid.
pub open spec fn snake_covers_upto(v: BoardView, i: int, n: int) -> bool {
    exists|k: int|
        0 <= k < n && pos_in_bounds(v.width, v.height, #[trigger] v.segs[k]) && buf_index(
            v.width,
            v.segs[k],
        ) == i
}

/// Cell `i` is covered by some snake segment that lies on the grid.
pub open spec fn snake_covers(v: BoardView, i: int) -> bool {
    snake_covers_upto(v, i, v.segs.len() as int)
}

/// The first `n` snake segments drawn over `base`.
pub open spec fn snake_overlay_upto(
    v: BoardView,
    palette: CharPalette,
    base: Seq<char>,
    n: int,
) -> Seq<char> {
    Seq::new(
        base.len(),
        |i: int|
            if snake_covers_upto(v, i, n) {
                palette.snake_char
            } else {
                base[i]
            },
    )
}

/// A running frame over `base`: the food glyph wins on the food cell if that
/// cell is on the grid, snake cells carry the snake glyph, and every other
/// cell keeps `base`.
pub open spec fn running_overlay(v: BoardView, palette: CharPalette, base: Seq<char>) -> Seq<
    char,
> {
    Seq::new(
        base.len(),
        |i: int|
            if pos_in_bounds(v.width, v.height, v.food) && i == buf_index(v.width, v.food) {
                palette.food_char
            } else if snake_covers(v, i) {
                palette.snake_char
            } else {
                base[i]
            },
    )
}

pub open spec fn max0(x: int) -> int {
    if x < 0 {
        0
    } else {
        x
    }
}

/// The game-over overlay: three banner lines centered around the middle row,
/// and the quit and retry hints pinned to the last two rows. Lines written
/// later win where rows coincide.
pub open spec fn game_over_overlay(v: BoardView, base: Seq<char>) -> Seq<char> {
    let cx = v.width / 2;
    let cy = v.height / 2;
    let s1 = write_text(
        base,
        v.width,
        v.height,
        gameover_line1(),
        max0(cx - gameover_line1().len() / 2 - 1),
        cy - 2,
    );
    let s2 = write_text(
        s1,
        v.width,
        v.height,
        gameover_line2(),
        max0(cx - gameover_line2().len() / 2 - 1),
        cy + 2,
    );
    let s3 = write_text(
        s2,
        v.width,
        v.height,
        gameover_line3(),
        max0(cx - gameover_line3().len() / 2 - 1),
        cy + 3,
    );
    let s4 = write_text(s3, v.width, v.height, quit_hint(), 0, v.height - 2);
    write_text(s4, v.width, v.height, retry_hint(), 0, v.height - 1)
}

/// The frame a render call produces: the board background everywhere, then the
/// overlay of the current state.
pub open spec fn rendered_frame(v: BoardView, palette: CharPalette) -> Seq<char> {
    let base = blank_frame(v.width, v.height, palette.empty_char);
    if v.state == State::Running {
        running_overlay(v, palette, base)
    } else {
        game_over_overlay(v, base)
    }
}

/// Covering by the first `n` segments is monotone in `n`.
proof fn lemma_covers_step(v: BoardView, i: int, n: int)
    ensures
        snake_covers_upto(v, i, n) ==> snake_covers_upto(v, i, n + 1),
{
    if snake_covers_upto(v, i, n) {
        let j = choose|j: int|
            0 <= j < n && pos_in_bounds(v.width, v.height, #[trigger] v.segs[j]) && buf_index(
                v.width,
                v.segs[j],
            ) == i;
        assert(0 <= j < n + 1 && pos_in_bounds(v.width, v.height, v.segs[j]) && buf_index(
            v.width,
            v.segs[j],
        ) == i);
    }
}

/// A board that contains the game of snake.
pub struct Board {
    width: u32,
    height: u32,
    snake: Snake,
    food: Food,
    state: State,
    initial_state: InitialState,
}

impl View for Board {
    type V = BoardView;

    closed spec fn view(&self) -> BoardView {
        BoardView {
            width: self.width as int,
            height: self.height as int,
            segs: self.snake.segments(),
            heading: self.snake.heading(),
            food: self.food.position,
            state: self.state,
            init_pos: self.initial_state.snake_pos,
            init_heading: self.initial_state.snake_dir,
            init_food: self.initial_state.food_pos,
        }
    }
}

impl Board {
    /// Well-formedness: positive dimensions that fit i32 coordinates, a
    /// non-empty snake, and, while running, every segment far enough from the
    /// i32 range's edge that the next step cannot overflow.
    pub open spec fn wf(self) -> bool {
        &&& 0 < self@.width <= i32::MAX
        &&& 0 < self@.height <= i32::MAX
        &&& self@.segs.len() >= 1
        &&& coord_safe(self@.init_pos)
        &&& (self@.state == State::Running ==> forall|k: int|
            0 <= k < self@.segs.len() ==> coord_safe(#[trigger] self@.segs[k]))
    }

    /// Allocates a game board. The snake's starting cells must be clear of the
    /// i32 range's edge so that a move cannot overflow.
    pub fn new(width: u32, height: u32, snake: Snake, food: Food) -> (r: Board)
        requires
            0 < width <= i32::MAX as u32,
            0 < height <= i32::MAX as u32,
            snake.wf(),
            forall|k: int| 0 <= k < snake.segments().len() ==> coord_safe(
                #[trigger] snake.segments()[k],
            ),
        ensures
            r.wf(),
            r@.width == width,
            r@.height == height,
            r@.segs == snake.segments(),
            r@.heading == snake.heading(),
            r@.food == food.position,
            r@.state == State::Running,
            r@.init_pos == snake.segments()[0],
            r@.init_heading == snake.heading(),
            r@.init_food == food.position,
    {
        let initial_state = InitialState {
            snake_pos: snake.head(),
            snake_dir: snake.direction(),
            food_pos: food.position,
        };
        Board { width, height, snake, food, state: State::Running, initial_state }
    }

    /// Checked construction: a board exists exactly when both dimensions are
    /// positive and fit the i32 grid and every starting cell of the snake is
    /// clear of the i32 range's edge.
    pub fn try_new(width: u32, height: u32, snake: Snake, food: Food) -> (r: Option<Board>)
        requires
            snake.wf(),
        ensures
            (r is Some) <==> (0 < width <= i32::MAX as u32 && 0 < height <= i32::MAX as u32
                && forall|k: int|
                0 <= k < snake.segments().len() ==> coord_safe(#[trigger] snake.segments()[k])),
            r matches Some(b) ==> b.wf() && b@.width == width && b@.height == height && b@.segs
                == snake.segments() && b@.heading == snake.heading() && b@.food == food.position
                && b@.state == State::Running && b@.init_pos == snake.segments()[0]
                && b@.init_heading == snake.heading() && b@.init_food == food.position,
    {
        if width == 0 || height == 0 {
            return None;
        }
        if width > i32::MAX as u32 || height > i32::MAX as u32 {
            return None;
        }
        let n = snake.len();
        let mut k: usize = 0;
        while k < n
            invariant
                k <= n,
                n == snake.segments().len(),
                snake.wf(),
                forall|j: int| 0 <= j < k ==> coord_safe(#[trigger] snake.segments()[j]),
            decreases n - k,
        {
            let p = snake.segment(k);
            if p.x == i32::MIN || p.x == i32::MAX || p.y == i32::MIN || p.y == i32::MAX {
                proof {
                    assert(!coord_safe(snake.segments()[k as int]));
                }
                return None;
            }
            k = k + 1;
        }
        Some(Board::new(width, height, snake, food))
    }

    /// Width and height of board.
    pub fn size(&self) -> (r: (u32, u32))
        ensures
            r.0 == self@.width,
            r.1 == self@.height,
    {
        (self.width, self.height)
    }

    /// State of the game.
    pub fn state(&self) -> (r: State)
        ensures
            r == self@.state,
    {
        self.state
    }

    /// One tick: dispatches on the game state. A board that has quit accepts
    /// no further updates.
    pub fn update(&mut self, input: Option<Input>)
        requires
            old(self).wf(),
            old(self)@.state != State::Quit,
        ensures
            final(self).wf(),
            old(self)@.state == State::Running ==> running_post(
                old(self)@,
                input,
                final(self)@,
            ),
            old(self)@.state == State::GameOver ==> game_over_post(
                old(self)@,
                input,
                final(self)@,
            ),
    {
        match self.state {
            State::Running => self.update_running(input),
            State::GameOver => self.update_game_over(input),
            State::Quit => unreached(),
        }
    }

    fn update_running(&mut self, input: Option<Input>)
        requires
            old(self).wf(),
            old(self)@.state == State::Running,
        ensures
            final(self).wf(),
            running_post(old(self)@, input, final(self)@),
    {
        let ghost pre = self@;

        // Controls snake direction
        if let Some(Input::Face(direction)) = input {
            if direction.reverse() != self.snake.direction() {
                self.snake.set_direction(direction);
            }
        }
        proof {
            assert(self.snake.heading() == next_heading(pre.heading, input));
        }

        // Updates snake
        self.snake.update();
        let snake_head_pos = self.snake.head();
        if !self.in_bounds(snake_head_pos) || self.snake.is_colliding_self() {
            self.state = State::GameOver;
            return;
        }
        proof {
            assert forall|k: int| 0 <= k < self@.segs.len() implies coord_safe(
                #[trigger] self@.segs[k],
            ) by {
                if k > 0 {
                    assert(self@.segs[k] == pre.segs[k - 1]);
                }
            }
        }
        if snake_head_pos == self.food.position {
            self.snake.grow();
            let food_x = random_below(self.width);
            let food_y = random_below(self.height);
            self.food.position = Vec2 { x: food_x as i32, y: food_y as i32 };
        }
    }

    fn update_game_over(&mut self, input: Option<Input>)
        requires
            old(self).wf(),
            old(self)@.state == State::GameOver,
        ensures
            final(self).wf(),
            game_over_post(old(self)@, input, final(self)@),
    {
        match input {
            Some(Input::Retry) => self.retry(),
            Some(Input::Quit) => self.state = State::Quit,
            _ => {},
        }
    }

    /// Restores game back to initial state after a game over.
    fn retry(&mut self)
        requires
            old(self).wf(),
        ensures
            final(self).wf(),
            retried(old(self)@, final(self)@),
    {
        self.state = State::Running;
        self.snake = Snake::new(self.initial_state.snake_pos, self.initial_state.snake_dir);
        self.food.position = self.initial_state.food_pos;
    }

    /// Renders the board into `chars`, a flat row-major character grid that
    /// must hold exactly width * height cells; a mis-sized buffer is refused
    /// before any cell is written.
    pub fn render(&self, chars: &mut Vec<char>, palette: CharPalette) -> (r: Result<
        (),
        RenderError,
    >)
        requires
            self.wf(),
            self@.state != State::Quit,
        ensures
            old(chars)@.len() == self@.width * self@.height ==> r is Ok && final(chars)@
                == rendered_frame(self@, palette),
            old(chars)@.len() != self@.width * self@.height ==> r is Err && final(chars)@ == old(
                chars,
            )@,
    {
        proof {
            assert(self@.width * self@.height < 0x8000_0000_0000_0000) by (nonlinear_arith)
                requires
                    0 <= self@.width < 0x8000_0000,
                    0 <= self@.height < 0x8000_0000,
            ;
        }
        let wh = (self.width as u64) * (self.height as u64);
        let buf_len = chars.len();
        if (buf_len as u64) != wh {
            return Err(RenderError::WrongBufferSize);
        }
        proof {
            assert(chars@.len() == self@.width * self@.height);
            assert(self@.width * self@.height <= usize::MAX);
        }
        let mut i: usize = 0;
        while i < chars.len()
            invariant
                i <= chars@.len(),
                chars@.len() == old(chars)@.len(),
                forall|j: int| 0 <= j < i ==> chars@[j] == palette.empty_char,
            decreases chars@.len() - i,
        {
            chars.set(i, palette.empty_char);
            i = i + 1;
        }
        proof {
            assert(chars@ =~= blank_frame(self@.width, self@.height, palette.empty_char));
        }
        match self.state {
            State::Running => self.render_running(chars, palette),
            State::GameOver => self.render_game_over(chars),
            State::Quit => unreached(),
        }
        Ok(())
    }

    fn render_running(&self, chars: &mut Vec<char>, palette: CharPalette)
        requires
            self@.width <= i32::MAX,
            self@.height <= i32::MAX,
            self@.width * self@.height <= usize::MAX,
            old(chars)@.len() == self@.width * self@.height,
        ensures
            final(chars)@ == running_overlay(self@, palette, old(chars)@),
    {
        let ghost base = chars@;
        let n = self.snake.len();
        let mut k: usize = 0;
        while k < n
            invariant
                k <= n,
                n == self@.segs.len(),
                self@.width <= i32::MAX,
                self@.height <= i32::MAX,
                self@.width * self@.height <= usize::MAX,
                base.len() == self@.width * self@.height,
                chars@ == snake_overlay_upto(self@, palette, base, k as int),
            decreases n - k,
        {
            let snake_pos = self.snake.segment(k);
            let ghost prev = chars@;
            let ghost v = self@;
            match self.index_of_pos(snake_pos) {
                Some(index) => {
                    chars.set(index, palette.snake_char);
                    proof {
                        assert(pos_in_bounds(v.width, v.height, v.segs[k as int]));
                        assert(index == buf_index(v.width, v.segs[k as int]));
                        assert forall|i: int| 0 <= i < base.len() implies chars@[i]
                            == snake_overlay_upto(v, palette, base, k + 1)[i] by {
                            lemma_covers_step(v, i, k as int);
                            if i == index {
                                assert(snake_covers_upto(v, i, k + 1));
                            } else {
                                assert(chars@[i] == prev[i]);
                                if snake_covers_upto(v, i, k + 1) {
                                    let j = choose|j: int|
                                        0 <= j < k + 1 && pos_in_bounds(
                                            v.width,
                                            v.height,
                                            #[trigger] v.segs[j],
                                        ) && buf_index(v.width, v.segs[j]) == i;
                                    assert(j != k);
                                    assert(snake_covers_upto(v, i, k as int));
                                }
                            }
                        }
                        assert(chars@ =~= snake_overlay_upto(v, palette, base, k + 1));
                    }
                },
                None => {
                    proof {
                        assert(!pos_in_bounds(v.width, v.height, v.segs[k as int]));
                        assert forall|i: int| 0 <= i < base.len() implies chars@[i]
                            == snake_overlay_upto(v, palette, base, k + 1)[i] by {
                            lemma_covers_step(v, i, k as int);
                            if snake_covers_upto(v, i, k + 1) {
                                let j = choose|j: int|
                                    0 <= j < k + 1 && pos_in_bounds(
                                        v.width,
                                        v.height,
                                        #[trigger] v.segs[j],
                                    ) && buf_index(v.width, v.segs[j]) == i;
                                assert(j != k);
                                assert(snake_covers_upto(v, i, k as int));
                            }
                        }
                        assert(chars@ =~= snake_overlay_upto(v, palette, base, k + 1));
                    }
                },
            }
            k = k + 1;
        }
        let food_pos = self.food.position;
        let ghost snaked = chars@;
        let ghost v = self@;
        match self.index_of_pos(food_pos) {
            Some(index) => {
                chars.set(index, palette.food_char);
                proof {
                    assert(pos_in_bounds(v.width, v.height, v.food));
                    assert(index == buf_index(v.width, v.food));
                    assert forall|i: int| 0 <= i < base.len() implies chars@[i] == running_overlay(
                        v,
                        palette,
                        base,
                    )[i] by {
                        if i != index {
                            assert(chars@[i] == snaked[i]);
                            assert(snaked[i] == snake_overlay_upto(
                                v,
                                palette,
                                base,
                                v.segs.len() as int,
                            )[i]);
                        }
                    }
                    assert(chars@ =~= running_overlay(v, palette, base));
                }
            },
            None => {
                proof {
                    assert(!pos_in_bounds(v.width, v.height, v.food));
                    assert forall|i: int| 0 <= i < base.len() implies chars@[i] == running_overlay(
                        v,
                        palette,
                        base,
                    )[i] by {
                        assert(snaked[i] == snake_overlay_upto(
                            v,
                            palette,
                            base,
                            v.segs.len() as int,
                        )[i]);
                    }
                    assert(chars@ =~= running_overlay(v, palette, base));
                }
            },
        }
    }

    fn render_game_over(&self, chars: &mut Vec<char>)
        requires
            0 < self@.width <= i32::MAX,
            0 < self@.height <= i32::MAX,
            self@.width * self@.height <= usize::MAX,
            old(chars)@.len() == self@.width * self@.height,
        ensures
            final(chars)@ == game_over_overlay(self@, old(chars)@),
    {
        let line1 = gameover_line1_chars();
        let line2 = gameover_line2_chars();
        let line3 = gameover_line3_chars();
        let quit_line = quit_hint_chars();
        let retry_line = retry_hint_chars();
        let center_x = (self.width / 2) as i32;
        let center_y = (self.height / 2) as i32;
        let x1 = {
            let t = center_x - (line1.len() / 2) as i32 - 1;
            if t < 0 {
                0
            } else {
                t
            }
        };
        let x2 = {
            let t = center_x - (line2.len() / 2) as i32 - 1;
            if t < 0 {
                0
            } else {
                t
            }
        };
        let x3 = {
            let t = center_x - (line3.len() / 2) as i32 - 1;
            if t < 0 {
                0
            } else {
                t
            }
        };
        self.render_text(chars, &line1, Vec2 { x: x1, y: center_y - 2 });
        self.render_text(chars, &line2, Vec2 { x: x2, y: center_y + 2 });
        self.render_text(chars, &line3, Vec2 { x: x3, y: center_y + 3 });
        self.render_text(chars, &quit_line, Vec2 { x: 0, y: self.height as i32 - 2 });
        self.render_text(chars, &retry_line, Vec2 { x: 0, y: self.height as i32 - 1 });
    }

    /// Writes one text line into the grid, stopping at the first character
    /// that falls off the board.
    fn render_text(&self, chars: &mut Vec<char>, text: &Vec<char>, pos: Vec2)
        requires
            self@.width <= i32::MAX,
            self@.height <= i32::MAX,
            self@.width * self@.height <= usize::MAX,
            old(chars)@.len() == self@.width * self@.height,
            text@.len() <= i32::MAX,
            pos.x + text@.len() <= i32::MAX,
        ensures
            final(chars)@.len() == old(chars)@.len(),
            final(chars)@ == write_text(
                old(chars)@,
                self@.width,
                self@.height,
                text@,
                pos.x as int,
                pos.y as int,
            ),
    {
        let ghost base = chars@;
        let ghost w = self@.width;
        let ghost h = self@.height;
        proof {
            assert(text@.skip(0) =~= text@);
        }
        let mut i: usize = 0;
        while i < text.len()
            invariant
                i <= text@.len(),
                w == self@.width,
                h == self@.height,
                self@.width <= i32::MAX,
                self@.height <= i32::MAX,
                self@.width * self@.height <= usize::MAX,
                text@.len() <= i32::MAX,
                pos.x + text@.len() <= i32::MAX,
                base == old(chars)@,
                base.len() == self@.width * self@.height,
                chars@.len() == self@.width * self@.height,
                write_text(base, w, h, text@, pos.x as int, pos.y as int) == write_text(
                    chars@,
                    w,
                    h,
                    text@.skip(i as int),
                    pos.x + i,
                    pos.y as int,
                ),
            decreases text@.len() - i,
        {
            let c_pos = Vec2 { x: pos.x + (i as i32), y: pos.y };
            let ghost rest = text@.skip(i as int);
            proof {
                assert(rest.len() > 0);
                assert(rest[0] == text@[i as int]);
            }
            match self.index_of_pos(c_pos) {
                Some(c_index) => {
                    let c = text[i];
                    let ghost prev = chars@;
                    chars.set(c_index, c);
                    proof {
                        assert(c_index == buf_index(w, c_pos));
                        assert(write_text(prev, w, h, rest, pos.x + i, pos.y as int)
                            == write_text(
                            prev.update(buf_index(w, c_pos), rest[0]),
                            w,
                            h,
                            rest.skip(1),
                            pos.x + i + 1,
                            pos.y as int,
                        ));
                        assert(rest.skip(1) =~= text@.skip(i + 1));
                    }
                },
                None => {
                    proof {
                        assert(write_text(chars@, w, h, rest, pos.x + i, pos.y as int) == chars@);
                    }
                    return ;
                },
            }
            i = i + 1;
        }
        proof {
            assert(text@.skip(text@.len() as int) =~= Seq::<char>::empty());
            assert(write_text(chars@, w, h, text@.skip(i as int), pos.x + i, pos.y as int)
                == chars@);
        }
    }

    /// Converts a board position into an index into the frame buffer.
    /// Returns None if out of bounds.
    fn index_of_pos(&self, pos: Vec2) -> (r: Option<usize>)
        requires
            self@.width <= i32::MAX,
            self@.height <= i32::MAX,
            self@.width * self@.height <= usize::MAX,
        ensures
            pos_in_bounds(self@.width, self@.height, pos) ==> r == Some(
                buf_index(self@.width, pos) as usize,
            ) && 0 <= buf_index(self@.width, pos) < self@.width * self@.height,
            !pos_in_bounds(self@.width, self@.height, pos) ==> r is None,
    {
        if pos.x < 0 || pos.y < 0 || pos.x >= self.width as i32 || pos.y >= self.height as i32 {
            return None;
        }
        proof {
            assert((pos.y as int) * (self@.width) + pos.x < self@.width * self@.height)
                by (nonlinear_arith)
                requires
                    0 <= pos.x < self@.width,
                    0 <= pos.y < self@.height,
            ;
        }
        let (x, y, width) = (pos.x as usize, pos.y as usize, self.width as usize);
        Some(y * width + x)
    }

    fn in_bounds(&self, pos: Vec2) -> (r: bool)
        requires
            self@.width <= i32::MAX,
            self@.height <= i32::MAX,
        ensures
            r == pos_in_bounds(self@.width, self@.height, pos),
    {
        pos.x >= 0 && pos.y >= 0 && pos.x < self.width as i32 && pos.y < self.height as i32
    }
}

/// Relies on rand::rng and rand::RngExt::random: one draw of a u32 from the
/// thread-local generator. Nothing is promised of the value.
#[verifier::external_body]
fn random_u32() -> u32 {
    rand::rng().random::<u32>()
}

/// A draw below `bound`; every relocation of the food lands on the grid
/// whatever the generator returned.
fn random_below(bound: u32) -> (r: u32)
    requires
        bound > 0,
    ensures
        r < bound,
{
    random_u32() % bound
}

} // verus!
