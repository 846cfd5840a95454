use vstd::prelude::*;

use crate::ball::Ball;
use crate::paddle::Paddle;
use crate::rng::random_below;

verus! {

/// A keyboard event, as the game loop understands it: quit keys,
/// paddle movement, or anything else (ignored).
#[derive(Clone, Copy, Debug, PartialEq, Eq, Structural)]
pub enum Key {
    Char(char),
    Esc,
    Left,
    Right,
    Other,
}

/// What one cell of the rendered frame shows, in draw-order priority:
/// the paddle is drawn last, over the ball, which is drawn over the
/// border, which is drawn over the blank background.
#[derive(Clone, Copy, Debug, PartialEq, Eq, Structural)]
pub enum Cell {
    Blank,
    Border,
    Ball,
    Paddle,
}

/// The whole game state: fixed playfield dimensions, one ball, one
/// paddle. The terminal itself is outside the game; rendering
/// produces a frame of cells for a caller to print.
pub struct Game {
    pub width: u16,
    pub height: u16,
    pub ball: Ball,
    pub paddle: Paddle,
}

/// The horizontal wall-bounce condition: the ball's column is an exact
/// multiple of the width. A modular check, not a boundary comparison,
/// so it fires at the left edge and at every further multiple.
pub open spec fn horizontal_bounce(g: Game) -> bool {
    g.ball.x as int % g.width as int == 0
}

/// The vertical wall-bounce condition, with a wall offset of 3 extra
/// rows for the frame drawn around the play area.
pub open spec fn vertical_bounce(g: Game) -> bool {
    g.ball.y as int % (g.height as int + 3) == 0
}

/// The paddle-bounce condition: the ball sits on the paddle's row,
/// within the half-open column range the paddle covers.
pub open spec fn paddle_bounce(g: Game) -> bool {
    g.ball.y == g.paddle.y
        && g.paddle.x - g.paddle.size <= g.ball.x < g.paddle.x + g.paddle.size
}

/// The horizontal velocity after collision resolution: flipped exactly
/// when the horizontal bounce condition holds.
pub open spec fn motion_x_after(g: Game) -> int {
    if horizontal_bounce(g) {
        -(g.ball.motion_x as int)
    } else {
        g.ball.motion_x as int
    }
}

/// The vertical velocity after collision resolution: the wall bounce
/// and the paddle bounce each flip it, so it changes sign exactly when
/// one of the two fires and not the other.
pub open spec fn motion_y_after(g: Game) -> int {
    if vertical_bounce(g) != paddle_bounce(g) {
        -(g.ball.motion_y as int)
    } else {
        g.ball.motion_y as int
    }
}

/// Whether a key is one of the quit keys: `q`, `Q`, or escape.
pub open spec fn is_quit_key(key: Key) -> bool {
    key == Key::Char('q') || key == Key::Char('Q') || key == Key::Esc
}

/// Whether the paddle covers the cell at column `x`, row `y`.
pub open spec fn paddle_covers(g: Game, x: int, y: int) -> bool {
    y == g.paddle.y && g.paddle.x - g.paddle.size <= x < g.paddle.x + g.paddle.size
}

/// What the frame shows at column `x`, row `y`, by draw order:
/// background, then the border down both vertical edges, then the
/// ball, then the paddle, each overwriting what came before.
pub open spec fn cell_at(g: Game, x: int, y: int) -> Cell {
    if paddle_covers(g, x, y) {
        Cell::Paddle
    } else if x == g.ball.x && y == g.ball.y {
        Cell::Ball
    } else if x == 0 || x == g.width + 1 {
        Cell::Border
    } else {
        Cell::Blank
    }
}

/// All the conditions one tick needs: a nonzero width (the bounce
/// check divides by it), room for the wall offset, a paddle whose
/// covered range stays within `u16`, velocities whose flip stays
/// within `i16`, and a ball whose stepped position stays a
/// non-negative `i16` value.
pub open spec fn tick_allowed(g: Game) -> bool {
    &&& g.width > 0
    &&& g.height <= u16::MAX - 3
    &&& g.paddle.x >= g.paddle.size
    &&& g.paddle.x + g.paddle.size <= u16::MAX
    &&& g.ball.motion_x > i16::MIN
    &&& g.ball.motion_y > i16::MIN
    &&& g.ball.x <= i16::MAX
    &&& g.ball.y <= i16::MAX
    &&& 0 <= g.ball.x + motion_x_after(g) <= i16::MAX
    &&& 0 <= g.ball.y + motion_y_after(g) <= i16::MAX
}

impl Game {
    /// A fresh game: the ball starts at a random position inside the
    /// playfield with velocity (+1, +1); the paddle starts centered,
    /// two rows above the bottom, with half-width 3.
    pub fn new(width: u16, height: u16) -> (g: Game)
        requires
            width > 0,
            height >= 2,
        ensures
            g.width == width,
            g.height == height,
            g.ball.x < width,
            g.ball.y < height,
            g.ball.motion_x == 1,
            g.ball.motion_y == 1,
            g.paddle.x == width / 2,
            g.paddle.y == height - 2,
            g.paddle.size == 3,
    {
        Game {
            width,
            height,
            ball: Ball {
                x: random_below(width),
                y: random_below(height),
                motion_x: 1,
                motion_y: 1,
            },
            paddle: Paddle { x: width / 2, y: height - 2, size: 3 },
        }
    }

    /// Resolve collisions for the current tick, before the ball moves:
    /// flip the horizontal velocity on a horizontal wall bounce, and
    /// the vertical velocity on a vertical wall bounce and again on a
    /// paddle bounce (so both firing at once leaves it unchanged).
    /// The position and everything else stay as they were.
    pub fn check_collision(&mut self)
        requires
            old(self).width > 0,
            old(self).height <= u16::MAX - 3,
            old(self).paddle.x >= old(self).paddle.size,
            old(self).paddle.x + old(self).paddle.size <= u16::MAX,
            old(self).ball.motion_x > i16::MIN,
            old(self).ball.motion_y > i16::MIN,
        ensures
            final(self).ball.x == old(self).ball.x,
            final(self).ball.y == old(self).ball.y,
            final(self).ball.motion_x == motion_x_after(*old(self)),
            final(self).ball.motion_y == motion_y_after(*old(self)),
            final(self).paddle == old(self).paddle,
            final(self).width == old(self).width,
            final(self).height == old(self).height,
    {
        if self.ball.x % self.width == 0 {
            self.ball.motion_x = -self.ball.motion_x;
        }

        if self.ball.y % (self.height + 3) == 0 {
            self.ball.motion_y = -self.ball.motion_y;
        }

        if self.ball.y == self.paddle.y && self.paddle.x - self.paddle.size <= self.ball.x
            && self.ball.x < self.paddle.x + self.paddle.size {
            self.ball.motion_y = -self.ball.motion_y;
        }
    }

    /// Dispatch one consumed input event: quit keys report that the
    /// loop should exit; the left and right arrows move the paddle by
    /// exactly one column per event, with no bound on how far it can
    /// go; every other key does nothing.
    pub fn handle_key(&mut self, key: Key) -> (quit: bool)
        requires
            key == Key::Left ==> old(self).paddle.x >= 1,
            key == Key::Right ==> old(self).paddle.x <= u16::MAX - 1,
        ensures
            quit == is_quit_key(key),
            final(self).paddle.x == match key {
                Key::Left => old(self).paddle.x - 1,
                Key::Right => old(self).paddle.x + 1,
                _ => old(self).paddle.x as int,
            },
            final(self).paddle.y == old(self).paddle.y,
            final(self).paddle.size == old(self).paddle.size,
            final(self).ball == old(self).ball,
            final(self).width == old(self).width,
            final(self).height == old(self).height,
    {
        let mut quit = false;
        match key {
            Key::Char(c) => {
                if c == 'q' || c == 'Q' {
                    quit = true;
                }
            },
            Key::Esc => {
                quit = true;
            },
            Key::Right => {
                self.paddle.x = self.paddle.x + 1;
            },
            Key::Left => {
                self.paddle.x = self.paddle.x - 1;
            },
            Key::Other => {},
        }
        quit
    }

    /// Whether `tick` may run from the current state. The original
    /// design aborts on the same states this rules out (division by a
    /// zero width, or position and paddle arithmetic leaving range).
    pub fn can_tick(&self) -> (b: bool)
        ensures
            b == tick_allowed(*self),
    {
        let w_ok = self.width > 0 && self.height <= u16::MAX - 3;
        let paddle_ok = self.paddle.x >= self.paddle.size
            && self.paddle.x as u32 + self.paddle.size as u32 <= u16::MAX as u32;
        let motion_ok = self.ball.motion_x > i16::MIN && self.ball.motion_y > i16::MIN;
        let pos_ok = self.ball.x <= i16::MAX as u16 && self.ball.y <= i16::MAX as u16;
        if w_ok && paddle_ok && motion_ok && pos_ok {
            let mx: i32 = if self.ball.x % self.width == 0 {
                -(self.ball.motion_x as i32)
            } else {
                self.ball.motion_x as i32
            };
            let wall_y = self.ball.y % (self.height + 3) == 0;
            let hit = self.ball.y == self.paddle.y && self.paddle.x - self.paddle.size
                <= self.ball.x && self.ball.x < self.paddle.x + self.paddle.size;
            let my: i32 = if wall_y != hit {
                -(self.ball.motion_y as i32)
            } else {
                self.ball.motion_y as i32
            };
            let nx: i32 = self.ball.x as i32 + mx;
            let ny: i32 = self.ball.y as i32 + my;
            0 <= nx && nx <= i16::MAX as i32 && 0 <= ny && ny <= i16::MAX as i32
        } else {
            false
        }
    }

    /// One tick's physics: resolve collisions, then advance the ball
    /// one step. Afterwards the ball's position has changed by exactly
    /// its post-collision velocity, component-wise, and nothing else
    /// has moved.
    pub fn tick(&mut self)
        requires
            tick_allowed(*old(self)),
        ensures
            final(self).ball.motion_x == motion_x_after(*old(self)),
            final(self).ball.motion_y == motion_y_after(*old(self)),
            final(self).ball.x == old(self).ball.x + final(self).ball.motion_x,
            final(self).ball.y == old(self).ball.y + final(self).ball.motion_y,
            final(self).paddle == old(self).paddle,
            final(self).width == old(self).width,
            final(self).height == old(self).height,
    {
        self.check_collision();
        self.ball.step();
    }

    /// What one cell of the frame shows for the current state.
    fn cell(&self, x: usize, y: usize) -> (c: Cell)
        requires
            x < self.width + 2,
            y < self.height + 3,
        ensures
            c == cell_at(*self, x as int, y as int),
    {
        let px = self.paddle.x as usize;
        let ps = self.paddle.size as usize;
        if y == self.paddle.y as usize && x + ps >= px && x < px + ps {
            Cell::Paddle
        } else if x == self.ball.x as usize && y == self.ball.y as usize {
            Cell::Ball
        } else if x == 0 || x == self.width as usize + 1 {
            Cell::Border
        } else {
            Cell::Blank
        }
    }

    /// Render the full frame: `height + 3` rows of `width + 2` columns
    /// (the playfield interior plus a border column down each edge),
    /// every cell as `cell_at` gives it.
    pub fn render(&self) -> (frame: Vec<Vec<Cell>>)
        ensures
            frame@.len() == self.height + 3,
            forall|y: int| 0 <= y < frame@.len() ==> (#[trigger] frame@[y])@.len() == self.width
                + 2,
            forall|y: int, x: int|
                0 <= y < frame@.len() && 0 <= x < self.width + 2 ==> #[trigger] frame@[y]@[x]
                    == cell_at(*self, x, y),
    {
        let rows: usize = self.height as usize + 3;
        let cols: usize = self.width as usize + 2;
        let mut frame: Vec<Vec<Cell>> = Vec::new();
        let mut y: usize = 0;
        while y < rows
            invariant
                y <= rows,
                rows == self.height + 3,
                cols == self.width + 2,
                frame@.len() == y,
                forall|j: int| 0 <= j < y ==> (#[trigger] frame@[j])@.len() == cols,
                forall|j: int, i: int|
                    0 <= j < y && 0 <= i < cols ==> #[trigger] frame@[j]@[i] == cell_at(
                        *self,
                        i,
                        j,
                    ),
            decreases rows - y,
        {
            let mut row: Vec<Cell> = Vec::new();
            let mut x: usize = 0;
            while x < cols
                invariant
                    x <= cols,
                    y < rows,
                    rows == self.height + 3,
                    cols == self.width + 2,
                    row@.len() == x,
                    forall|i: int| 0 <= i < x ==> #[trigger] row@[i] == cell_at(*self, i, y as int),
                decreases cols - x,
            {
                let c = self.cell(x, y);
                row.push(c);
                x = x + 1;
            }
            frame.push(row);
            y = y + 1;
        }
        frame
    }
}

/// The horizontal bounce fires at every multiple of the width, not
/// only at the physical left edge: whenever the ball's column is
/// `k * width`, collision resolution flips the horizontal velocity.
pub proof fn lemma_horizontal_bounce_at_multiples(g: Game, k: nat)
    requires
        g.width > 0,
        g.ball.x == k * g.width,
    ensures
        horizontal_bounce(g),
        motion_x_after(g) == -(g.ball.motion_x as int),
{
    vstd::arithmetic::div_mod::lemma_mod_multiples_basic(k as int, g.width as int);
}

/// The horizontal bounce condition is periodic in the ball's column
/// with period `width`: once it fires, it fires again after the ball
/// travels one width further in either direction, not only at the
/// physical edge.
pub proof fn lemma_horizontal_bounce_periodic(g: Game, g_later: Game)
    requires
        g.width > 0,
        horizontal_bounce(g),
        g_later.width == g.width,
        g_later.ball.x == g.ball.x + g.width || g_later.ball.x + g.width == g.ball.x,
    ensures
        horizontal_bounce(g_later),
{
    vstd::arithmetic::div_mod::lemma_mod_add_multiples_vanish(
        g.ball.x as int,
        g.width as int,
    );
    vstd::arithmetic::div_mod::lemma_mod_sub_multiples_vanish(
        g.ball.x as int,
        g.width as int,
    );
}

/// The vertical bounce fires at every multiple of `height + 3`:
/// whenever the ball's row is `k * (height + 3)` and the paddle is not
/// also hit on the same tick, collision resolution flips the vertical
/// velocity. (When the paddle is hit on the same tick the two flips
/// cancel, so that state is left out here.)
pub proof fn lemma_vertical_bounce_at_multiples(g: Game, k: nat)
    requires
        g.ball.y == k * (g.height + 3),
        !paddle_bounce(g),
    ensures
        vertical_bounce(g),
        motion_y_after(g) == -(g.ball.motion_y as int),
{
    vstd::arithmetic::div_mod::lemma_mod_multiples_basic(k as int, g.height as int + 3);
}

/// The vertical bounce condition is periodic in the ball's row with
/// period `height + 3`, the modulus that includes the wall offset.
pub proof fn lemma_vertical_bounce_periodic(g: Game, g_later: Game)
    requires
        vertical_bounce(g),
        g_later.height == g.height,
        g_later.ball.y == g.ball.y + g.height + 3 || g_later.ball.y + g.height + 3
            == g.ball.y,
    ensures
        vertical_bounce(g_later),
{
    vstd::arithmetic::div_mod::lemma_mod_add_multiples_vanish(
        g.ball.y as int,
        g.height as int + 3,
    );
    vstd::arithmetic::div_mod::lemma_mod_sub_multiples_vanish(
        g.ball.y as int,
        g.height as int + 3,
    );
}

} // verus!
