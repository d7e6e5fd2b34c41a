//! The snake game: a snake of grid cells moving one cell per step on a 22 by
//! 18 board, growing when it eats and ending when it hits a wall or itself.
use vstd::prelude::*;
use vstd::set_lib::{lemma_int_range, lemma_len_subset, set_int_range};
use crate::input::{DecodedKey, KeyCode};
use crate::chars::{append_chars, append_str, chars_of, format_padded, zero_pad};
use crate::color::Color;
use crate::framebuffer::Framebuffer;
use crate::render::{drawn_over, inner};
use crate::scene::{add_fill, add_label, add_outline, add_text, paint, painted, scene_ok, sfill, shapes_view, soutline, stext, Shape, ShapeV};
use crate::color::pack_argb;
use crate::text::decimal_digits;

verus! {

pub const GRID_WIDTH: i32 = 22;
pub const GRID_HEIGHT: i32 = 18;
pub const CELL_SIZE: usize = 14;

/// Ticks between steps (about 8 steps a second at 100 ticks a second).
pub const STEP_TICKS: usize = 12;

/// Whether the game runs or has ended.
#[derive(Debug, Clone, Copy, PartialEq, Eq, Structural)]
pub enum GameState {
    Playing,
    GameOver,
}

/// The game's state; `snake[0]` is the head.
pub struct SnakeApp {
    pub snake: Vec<(i32, i32)>,
    pub dir: (i32, i32),
    pub next_dir: (i32, i32),
    pub food: (i32, i32),
    pub score: usize,
    pub high_score: usize,
    pub state: GameState,
    pub tick_timer: usize,
}

/// Whether `p` is a cell of the board.
pub open spec fn in_grid(p: (i32, i32)) -> bool {
    0 <= p.0 < 22 && 0 <= p.1 < 18
}

/// Whether `d` moves at most one cell along each axis.
pub open spec fn small_step(d: (i32, i32)) -> bool {
    -1 <= d.0 <= 1 && -1 <= d.1 <= 1
}

/// Where the food goes after it is eaten at `f`.
pub open spec fn next_food(f: (i32, i32)) -> (i32, i32) {
    (((f.0 * 7 + 3) % 20 + 1) as i32, ((f.1 * 11 + 5) % 16 + 1) as i32)
}

/// The snake at the start of a game: three cells heading right.
pub open spec fn start_snake() -> Seq<(i32, i32)> {
    seq![(6i32, 9i32), (5i32, 9i32), (4i32, 9i32)]
}

/// Distinct cells of the board number at most 22 * 18.
pub proof fn lemma_cells_bound(s: Seq<(i32, i32)>)
    requires
        s.no_duplicates(),
        forall|i: int| 0 <= i < s.len() ==> #[trigger] in_grid(s[i]),
    ensures
        s.len() <= 396,
{
    let t = s.map_values(|p: (i32, i32)| p.1 as int * 22 + p.0 as int);
    assert(t.no_duplicates()) by {
        assert forall|i: int, j: int| 0 <= i < t.len() && 0 <= j < t.len() && i != j implies t[i] != t[j] by {
            assert(in_grid(s[i]));
            assert(in_grid(s[j]));
            assert(s[i] != s[j]);
        }
    }
    t.unique_seq_to_set();
    assert(t.to_set().subset_of(set_int_range(0, 396))) by {
        assert forall|x: int| t.to_set().contains(x) implies set_int_range(0, 396).contains(x) by {
            assert(t.contains(x));
            let i = choose|i: int| 0 <= i < t.len() && t[i] == x;
            assert(in_grid(s[i]));
        }
    }
    lemma_int_range(0, 396);
    lemma_len_subset(t.to_set(), set_int_range(0, 396));
}

/// Whether `cells` holds `p`.
fn contains_cell(cells: &Vec<(i32, i32)>, p: (i32, i32)) -> (b: bool)
    ensures
        b == cells@.contains(p),
{
    let mut i: usize = 0;
    while i < cells.len()
        invariant
            i <= cells@.len(),
            forall|j: int| 0 <= j < i ==> cells@[j] != p,
        decreases cells@.len() - i,
    {
        let c = cells[i];
        if c.0 == p.0 && c.1 == p.1 {
            assert(cells@[i as int] == p);
            return true;
        }
        i = i + 1;
    }
    false
}

impl SnakeApp {
    /// The game's invariant: a snake of at least three distinct cells on the
    /// board, scoring 10 per cell grown, moves of at most one cell, food on
    /// the board, and the step timer below its period.
    pub open spec fn wf(&self) -> bool {
        &&& self.snake@.len() >= 3
        &&& self.snake@.no_duplicates()
        &&& forall|i: int| 0 <= i < self.snake@.len() ==> #[trigger] in_grid(self.snake@[i])
        &&& self.score == 10 * (self.snake@.len() - 3)
        &&& self.high_score <= 3930
        &&& small_step(self.dir)
        &&& small_step(self.next_dir)
        &&& in_grid(self.food)
        &&& self.tick_timer < 12
    }

    /// Whether `self` is a fresh game after `o`: the start snake heading
    /// right, food at (14, 9), no score; the high score and timer kept.
    pub open spec fn restarted_from(&self, o: &SnakeApp) -> bool {
        &&& self.snake@ == start_snake()
        &&& self.dir == (1i32, 0i32)
        &&& self.next_dir == (1i32, 0i32)
        &&& self.food == (14i32, 9i32)
        &&& self.score == 0
        &&& self.state == GameState::Playing
        &&& self.high_score == o.high_score
        &&& self.tick_timer == o.tick_timer
    }

    /// Whether `self` is what one step makes of the game `o`: a running
    /// game turns to the chosen direction and moves its head one cell;
    /// hitting a wall or any of its cells ends the game. Otherwise the head
    /// is added; on the food the snake grows, scores 10 (raising the high
    /// score if passed) and the food moves on, else the tail cell is
    /// dropped. An ended game does not change.
    pub open spec fn step_result(&self, o: &SnakeApp) -> bool {
        &&& o.state != GameState::Playing ==> *self == *o
        &&& o.state == GameState::Playing ==> {
            let d = o.next_dir;
            let head = o.snake@[0];
            let nh = ((head.0 + d.0) as i32, (head.1 + d.1) as i32);
            &&& self.dir == d
            &&& self.next_dir == d
            &&& self.tick_timer == o.tick_timer
            &&& if !in_grid(nh) || o.snake@.contains(nh) {
                &&& self.state == GameState::GameOver
                &&& self.snake@ == o.snake@
                &&& self.food == o.food
                &&& self.score == o.score
                &&& self.high_score == o.high_score
            } else if nh == o.food {
                &&& self.state == GameState::Playing
                &&& self.snake@ == seq![nh] + o.snake@
                &&& self.score == o.score + 10
                &&& self.high_score == if o.score + 10 > o.high_score { o.score + 10 } else { o.high_score as int }
                &&& self.food == next_food(o.food)
            } else {
                &&& self.state == GameState::Playing
                &&& self.snake@ == (seq![nh] + o.snake@).drop_last()
                &&& self.score == o.score
                &&& self.high_score == o.high_score
                &&& self.food == o.food
            }
        }
    }

    /// A new game.
    pub fn new() -> (app: SnakeApp)
        ensures
            app.wf(),
            app.snake@ == start_snake(),
            app.dir == (1i32, 0i32),
            app.next_dir == (1i32, 0i32),
            app.food == (14i32, 9i32),
            app.score == 0,
            app.high_score == 0,
            app.state == GameState::Playing,
            app.tick_timer == 0,
    {
        let mut app = SnakeApp {
            snake: Vec::new(),
            dir: (1, 0),
            next_dir: (1, 0),
            food: (12, 9),
            score: 0,
            high_score: 0,
            state: GameState::Playing,
            tick_timer: 0,
        };
        app.reset();
        app
    }

    /// Starts a fresh game, keeping the high score.
    fn reset(&mut self)
        requires
            old(self).high_score <= 3930,
            old(self).tick_timer < 12,
        ensures
            final(self).wf(),
            final(self).restarted_from(old(self)),
    {
        self.snake.clear();
        self.snake.push((6, 9));
        self.snake.push((5, 9));
        self.snake.push((4, 9));
        self.dir = (1, 0);
        self.next_dir = (1, 0);
        self.food = (14, 9);
        self.score = 0;
        self.state = GameState::Playing;
        assert(self.snake@ =~= start_snake());
    }

    /// The window title.
    pub fn title(&self) -> (t: &'static str)
        ensures
            t@ == "Snake Game"@,
    {
        "Snake Game"
    }

    /// One step of a running game: the snake turns to the chosen direction
    /// and its head moves one cell; hitting a wall or any of its cells ends
    /// the game. Otherwise the head is added; on the food the snake grows,
    /// scores 10 (raising the high score if passed) and the food moves on,
    /// else the tail cell is dropped. An ended game does not change.
    pub fn step(&mut self)
        requires
            old(self).wf(),
        ensures
            final(self).wf(),
            final(self).step_result(old(self)),
    {
        if self.state != GameState::Playing {
            return;
        }
        self.dir = self.next_dir;
        let head = self.snake[0];
        assert(in_grid(self.snake@[0]));
        let nh = (head.0 + self.dir.0, head.1 + self.dir.1);
        if nh.0 < 0 || nh.0 >= GRID_WIDTH || nh.1 < 0 || nh.1 >= GRID_HEIGHT {
            self.state = GameState::GameOver;
            return;
        }
        if contains_cell(&self.snake, nh) {
            self.state = GameState::GameOver;
            return;
        }
        assert(!old(self).snake@.contains(nh));
        let ghost body = self.snake@;
        self.snake.insert(0, nh);
        assert(self.snake@ =~= seq![nh] + body);
        assert(self.snake@.no_duplicates()) by {
            assert forall|a: int, b: int| 0 <= a < self.snake@.len() && 0 <= b < self.snake@.len() && a != b
                implies self.snake@[a] != self.snake@[b] by {
                if a == 0 {
                    assert(body[b - 1] == self.snake@[b]);
                    assert(body.contains(body[b - 1]));
                } else if b == 0 {
                    assert(body[a - 1] == self.snake@[a]);
                    assert(body.contains(body[a - 1]));
                } else {
                    assert(self.snake@[a] == body[a - 1]);
                    assert(self.snake@[b] == body[b - 1]);
                }
            }
        }
        assert forall|j: int| 0 <= j < self.snake@.len() implies #[trigger] in_grid(self.snake@[j]) by {
            if j > 0 {
                assert(self.snake@[j] == body[j - 1]);
            }
        }
        if nh.0 == self.food.0 && nh.1 == self.food.1 {
            proof {
                lemma_cells_bound(self.snake@);
            }
            self.score = self.score + 10;
            if self.score > self.high_score {
                self.high_score = self.score;
            }
            let fx = ((self.food.0 * 7 + 3) % (GRID_WIDTH - 2)) + 1;
            let fy = ((self.food.1 * 11 + 5) % (GRID_HEIGHT - 2)) + 1;
            self.food = (fx, fy);
        } else {
            self.snake.pop();
            let ghost grown = seq![nh] + body;
            assert(self.snake@ =~= grown.drop_last());
            assert(self.snake@.no_duplicates()) by {
                assert forall|a: int, b: int| 0 <= a < self.snake@.len() && 0 <= b < self.snake@.len() && a != b
                    implies self.snake@[a] != self.snake@[b] by {
                    assert(self.snake@[a] == grown[a]);
                    assert(self.snake@[b] == grown[b]);
                }
            }
            assert forall|j: int| 0 <= j < self.snake@.len() implies #[trigger] in_grid(self.snake@[j]) by {
                assert(self.snake@[j] == grown[j]);
            }
        }
    }

    /// Reacts to a key: the arrows or W/A/S/D choose the next direction,
    /// except straight back; Space or R restarts an ended game.
    pub fn on_key(&mut self, key: DecodedKey)
        requires
            old(self).wf(),
        ensures
            final(self).wf(),
            match key {
                DecodedKey::RawKey(KeyCode::ArrowUp) | DecodedKey::Unicode('w') | DecodedKey::Unicode('W') =>
                    *final(self) == (SnakeApp { next_dir: if old(self).dir.1 != 1 { (0i32, -1i32) } else { old(self).next_dir }, ..*old(self) }),
                DecodedKey::RawKey(KeyCode::ArrowDown) | DecodedKey::Unicode('s') | DecodedKey::Unicode('S') =>
                    *final(self) == (SnakeApp { next_dir: if old(self).dir.1 != -1 { (0i32, 1i32) } else { old(self).next_dir }, ..*old(self) }),
                DecodedKey::RawKey(KeyCode::ArrowLeft) | DecodedKey::Unicode('a') | DecodedKey::Unicode('A') =>
                    *final(self) == (SnakeApp { next_dir: if old(self).dir.0 != 1 { (-1i32, 0i32) } else { old(self).next_dir }, ..*old(self) }),
                DecodedKey::RawKey(KeyCode::ArrowRight) | DecodedKey::Unicode('d') | DecodedKey::Unicode('D') =>
                    *final(self) == (SnakeApp { next_dir: if old(self).dir.0 != -1 { (1i32, 0i32) } else { old(self).next_dir }, ..*old(self) }),
                DecodedKey::Unicode(' ') | DecodedKey::Unicode('r') | DecodedKey::Unicode('R') =>
                    if old(self).state == GameState::GameOver { final(self).restarted_from(old(self)) } else { *final(self) == *old(self) },
                _ => *final(self) == *old(self),
            },
    {
        match key {
            DecodedKey::RawKey(code) => {
                if code == KeyCode::ArrowUp {
                    if self.dir.1 != 1 {
                        self.next_dir = (0, -1);
                    }
                } else if code == KeyCode::ArrowDown {
                    if self.dir.1 != -1 {
                        self.next_dir = (0, 1);
                    }
                } else if code == KeyCode::ArrowLeft {
                    if self.dir.0 != 1 {
                        self.next_dir = (-1, 0);
                    }
                } else if code == KeyCode::ArrowRight {
                    if self.dir.0 != -1 {
                        self.next_dir = (1, 0);
                    }
                }
            },
            DecodedKey::Unicode(c) => {
                if c == 'w' || c == 'W' {
                    if self.dir.1 != 1 {
                        self.next_dir = (0, -1);
                    }
                } else if c == 's' || c == 'S' {
                    if self.dir.1 != -1 {
                        self.next_dir = (0, 1);
                    }
                } else if c == 'a' || c == 'A' {
                    if self.dir.0 != 1 {
                        self.next_dir = (-1, 0);
                    }
                } else if c == 'd' || c == 'D' {
                    if self.dir.0 != -1 {
                        self.next_dir = (1, 0);
                    }
                } else if c == ' ' || c == 'r' || c == 'R' {
                    if self.state == GameState::GameOver {
                        self.reset();
                    }
                }
            },
        }
    }

    /// A click restarts an ended game.
    pub fn on_mouse_click(&mut self, local_x: isize, local_y: isize, left: bool)
        requires
            old(self).wf(),
        ensures
            final(self).wf(),
            if old(self).state == GameState::GameOver { final(self).restarted_from(old(self)) } else { *final(self) == *old(self) },
    {
        if self.state == GameState::GameOver {
            self.reset();
        }
    }

    /// Counts a timer tick of a running game; every 12th tick steps the
    /// game. Says whether to redraw.
    pub fn on_tick(&mut self) -> (redraw: bool)
        requires
            old(self).wf(),
        ensures
            final(self).wf(),
            old(self).state != GameState::Playing ==> !redraw && *final(self) == *old(self),
            old(self).state == GameState::Playing && old(self).tick_timer + 1 < 12 ==> {
                &&& !redraw
                &&& *final(self) == (SnakeApp { tick_timer: (old(self).tick_timer + 1) as usize, ..*old(self) })
            },
            old(self).state == GameState::Playing && old(self).tick_timer + 1 >= 12 ==> {
                &&& redraw
                &&& final(self).step_result(&SnakeApp { tick_timer: 0, ..*old(self) })
            },
    {
        if self.state != GameState::Playing {
            return false;
        }
        self.tick_timer = self.tick_timer + 1;
        if self.tick_timer >= STEP_TICKS {
            self.tick_timer = 0;
            self.step();
            true
        } else {
            false
        }
    }
}


/// The score line: `SCORE: ` and `  HIGH: ` each followed by four digits
/// (more when the number needs them).
pub fn score_text(score: usize, high: usize) -> (v: Vec<char>)
    ensures
        v@ == "SCORE: "@ + zero_pad(decimal_digits(score as nat), 4) + "  HIGH: "@
            + zero_pad(decimal_digits(high as nat), 4),
{
    let mut v = chars_of("SCORE: ");
    append_chars(&mut v, format_padded(score as u64, 4).as_slice());
    append_str(&mut v, "  HIGH: ");
    append_chars(&mut v, format_padded(high as u64, 4).as_slice());
    v
}

/// The score line: `SCORE: ` and `  HIGH: ` each followed by at least
/// four digits.
pub open spec fn score_line(score: usize, high: usize) -> Seq<char> {
    "SCORE: "@ + zero_pad(decimal_digits(score as nat), 4) + "  HIGH: "@ + zero_pad(decimal_digits(high as nat), 4)
}

/// A snake cell's square at board origin `(ox, oy)`: the head bright green,
/// the body green.
pub open spec fn segment_shape(ox: int, oy: int, p: (i32, i32), head: bool) -> ShapeV {
    sfill(ox + p.0 * 14 + 1, oy + p.1 * 14 + 1, 12, 12,
        if head { pack_argb(255, 74, 222, 128) } else { pack_argb(255, 34, 197, 94) })
}

/// The backdrop, score line, board border and board, and the apple.
pub open spec fn snake_board(cx: int, cy: int, cw: int, ch: int, score: usize, high: usize, food: (i32, i32)) -> Seq<ShapeV> {
    let ox = cx + 16;
    let oy = cy + 36;
    seq![
        sfill(cx, cy, cw, ch, pack_argb(255, 15, 23, 42)),
        stext(cx + 16, cy + 12, score_line(score, high), pack_argb(255, 251, 191, 36)),
        sfill(ox - 2, oy - 2, 312, 256, pack_argb(255, 51, 65, 85)),
        sfill(ox, oy, 308, 252, pack_argb(255, 11, 15, 25)),
        sfill(ox + food.0 * 14 + 2, oy + food.1 * 14 + 2, 10, 10, pack_argb(255, 239, 68, 68))
    ]
}

/// The translucent GAME OVER box over the board at `(ox, oy)`.
pub open spec fn game_over_box(ox: int, oy: int) -> Seq<ShapeV> {
    let bx = ox + 54;
    let by = oy + 96;
    seq![
        sfill(bx, by, 200, 60, pack_argb(220, 15, 23, 42)),
        soutline(bx, by, 200, 60, pack_argb(255, 239, 68, 68)),
        stext(bx + 60, by + 16, "GAME OVER!"@, pack_argb(255, 239, 68, 68)),
        stext(bx + 20, by + 34, "Press Space to Restart"@, pack_argb(255, 241, 245, 249))
    ]
}

impl SnakeApp {
    /// What the game shows in the client area at `(cx, cy)`, `cw` by `ch`:
    /// the backdrop, the score line, the bordered 22 by 18 board of 14-pixel
    /// cells with the apple and the snake (head first), and over a lost game
    /// the GAME OVER box.
    pub open spec fn scene_spec(&self, cx: int, cy: int, cw: int, ch: int) -> Seq<ShapeV> {
        snake_board(cx, cy, cw, ch, self.score, self.high_score, self.food)
            + Seq::new(self.snake@.len(), |i: int| segment_shape(cx + 16, cy + 36, self.snake@[i], i == 0))
            + if self.state == GameState::GameOver { game_over_box(cx + 16, cy + 36) } else { Seq::empty() }
    }

    /// Builds `scene_spec`.
    pub fn scene(&self, cx: isize, cy: isize, cw: usize, ch: usize) -> (s: Vec<Shape>)
        requires
            self.wf(),
            inner(cx as int),
            inner(cy as int),
            cw <= 0x1_0000,
            ch <= 0x1_0000,
        ensures
            shapes_view(s@) == self.scene_spec(cx as int, cy as int, cw as int, ch as int),
            scene_ok(shapes_view(s@)),
    {
        let mut s: Vec<Shape> = Vec::new();
        assert(shapes_view(s@) =~= Seq::<ShapeV>::empty());
        let ox = cx + 16;
        let oy = cy + 36;
        add_fill(&mut s, cx, cy, cw, ch, Color::from_rgb(15, 23, 42).raw);
        add_text(&mut s, cx + 16, cy + 12, score_text(self.score, self.high_score), Color::from_rgb(251, 191, 36).raw);
        add_fill(&mut s, ox - 2, oy - 2, 312, 256, Color::from_rgb(51, 65, 85).raw);
        add_fill(&mut s, ox, oy, 308, 252, Color::from_rgb(11, 15, 25).raw);
        let fx = ox + self.food.0 as isize * 14;
        let fy = oy + self.food.1 as isize * 14;
        add_fill(&mut s, fx + 2, fy + 2, 10, 10, Color::from_rgb(239, 68, 68).raw);
        let ghost head = shapes_view(s@);
        assert(head =~= snake_board(cx as int, cy as int, cw as int, ch as int, self.score, self.high_score, self.food));
        let n = self.snake.len();
        let mut i: usize = 0;
        while i < n
            invariant
                self.wf(),
                n == self.snake@.len(),
                inner(cx as int),
                inner(cy as int),
                ox == cx + 16,
                oy == cy + 36,
                i <= n,
                shapes_view(s@) == head + Seq::new(i as nat, |j: int| segment_shape(cx + 16, cy + 36, self.snake@[j], j == 0)),
                scene_ok(shapes_view(s@)),
            decreases n - i,
        {
            let seg = self.snake[i];
            assert(in_grid(self.snake@[i as int]));
            let color = if i == 0 { Color::from_rgb(74, 222, 128) } else { Color::from_rgb(34, 197, 94) };
            add_fill(&mut s, ox + seg.0 as isize * 14 + 1, oy + seg.1 as isize * 14 + 1, 12, 12, color.raw);
            i = i + 1;
            assert(shapes_view(s@) =~= head + Seq::new(i as nat, |j: int| segment_shape(cx + 16, cy + 36, self.snake@[j], j == 0)));
        }
        let ghost body = shapes_view(s@);
        if self.state == GameState::GameOver {
            let bx = ox + 54;
            let by = oy + 96;
            add_fill(&mut s, bx, by, 200, 60, Color::from_argb(220, 15, 23, 42).raw);
            add_outline(&mut s, bx, by, 200, 60, Color::from_rgb(239, 68, 68).raw);
            add_label(&mut s, bx + 60, by + 16, "GAME OVER!", Color::from_rgb(239, 68, 68).raw);
            add_label(&mut s, bx + 20, by + 34, "Press Space to Restart", Color::from_rgb(241, 245, 249).raw);
            assert(shapes_view(s@) =~= body + game_over_box(cx + 16, cy + 36));
        } else {
            assert(shapes_view(s@) =~= body + Seq::<ShapeV>::empty());
        }
        s
    }

    /// Draws the game into the client area at `(cx, cy)`, `cw` by `ch`:
    /// exactly the pixels of `scene_spec`.
    pub fn render(&self, fb: &mut Framebuffer, cx: isize, cy: isize, cw: usize, ch: usize)
        requires
            old(fb).wf(),
            self.wf(),
            inner(cx as int),
            inner(cy as int),
            cw <= 0x1_0000,
            ch <= 0x1_0000,
        ensures
            drawn_over(*old(fb), *final(fb)),
            final(fb).backbuffer@ == painted(*old(fb), old(fb).backbuffer@, self.scene_spec(cx as int, cy as int, cw as int, ch as int)),
    {
        let s = self.scene(cx, cy, cw, ch);
        paint(fb, s.as_slice());
    }
}
} // verus!
