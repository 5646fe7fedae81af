//! One playable session: the snake, the apple, growth on eating, and the
//! terminal screen shown after a self-collision.

use vstd::prelude::*;

use crate::draw::{cell_square, cell_square_spec, Color, DrawCmd, Label, TEXT_SIZE_PX};
use crate::grid::{cell_in_bounds, lemma_covering_seq_len, Cell, BOARD_HEIGHT, BOARD_WIDTH};
use crate::input::Key;
use crate::snake::{
    lemma_drain_fresh_tail, lemma_drain_preserves_length, sat_add, snake_render_spec, snake_wf,
    tick_model, turn_model, initial_snake_model, Snake, SnakeModel,
};
use crate::state_machine::{State, StateModel, Transition, TransitionModel};

verus! {

/// How many cells the board has in all.
pub const BOARD_AREA: u32 = BOARD_WIDTH * BOARD_HEIGHT;

/// How many random draws apple placement makes before it falls back to a
/// deterministic scan; the bound keeps placement from stalling on a
/// nearly full board.
pub const APPLE_RETRY_MAX: u32 = 1024;

/// The game-over screen, carrying the final score: the body length at the
/// moment of collision. Any key press leaves it.
#[derive(Clone, Copy, PartialEq, Eq, Structural, Debug)]
pub struct Lost(pub usize);

/// The frame the game-over screen draws.
pub open spec fn lost_render_spec(score: usize) -> Seq<DrawCmd> {
    seq![
        DrawCmd::Clear(Color::Green),
        DrawCmd::Text { label: Label::YouLost, x: 10, y: 12, size: TEXT_SIZE_PX },
        DrawCmd::Text { label: Label::Score(score), x: 50, y: 50, size: TEXT_SIZE_PX },
    ]
}

impl Lost {
    /// Time passing does nothing on the game-over screen.
    pub fn update(&mut self, _dt_ms: u64) -> (t: Transition)
        ensures
            *final(self) == *old(self),
            t@ is Stay,
    {
        Transition::Stay
    }

    /// Any key press leaves the game-over screen.
    pub fn handle_event(&mut self, _k: Key) -> (t: Transition)
        ensures
            *final(self) == *old(self),
            t@ is Pop,
    {
        Transition::Pop
    }

    /// Describe this frame of the game-over screen.
    pub fn render(&self) -> (r: Vec<DrawCmd>)
        ensures
            r@ == lost_render_spec(self.0),
    {
        let mut r: Vec<DrawCmd> = Vec::new();
        r.push(DrawCmd::Clear(Color::Green));
        r.push(DrawCmd::Text { label: Label::YouLost, x: 10, y: 12, size: TEXT_SIZE_PX });
        r.push(DrawCmd::Text { label: Label::Score(self.0), x: 50, y: 50, size: TEXT_SIZE_PX });
        proof {
            assert(r@ =~= lost_render_spec(self.0));
        }
        r
    }
}

/// The mathematical value of a session.
pub struct GameModel {
    pub snake: SnakeModel,
    pub apple: Cell,
}

/// Well-formedness: the snake is well formed, the apple lies on the board,
/// and while the snake is alive and the board holds a free cell the apple
/// never coincides with the body. (A body that fills the whole board
/// leaves the apple nowhere else to stand; its very next step collides.)
pub open spec fn game_wf(g: GameModel) -> bool {
    &&& snake_wf(g.snake)
    &&& cell_in_bounds(g.apple)
    &&& (!g.snake.collided && g.snake.body.len() < BOARD_AREA ==> !g.snake.body.contains(g.apple))
}

/// The session every game starts from: the fresh snake and the apple at a
/// fixed spot away from it.
pub open spec fn initial_game_model() -> GameModel {
    GameModel { snake: initial_snake_model(), apple: Cell { x: 3, y: 3 } }
}

/// The fresh session is well formed.
pub proof fn lemma_initial_game_wf()
    ensures
        game_wf(initial_game_model()),
{
    let b = initial_game_model().snake.body;
    assert forall|i: int| 0 <= i < b.len() implies b[i] != initial_game_model().apple by {
        assert(b[0] == Cell { x: 1, y: 0 });
        assert(b[1] == Cell { x: 0, y: 0 });
    }
    assert(!b.contains(initial_game_model().apple));
}

/// What a key press does to a session: the four directions request a turn,
/// which the snake may silently ignore; Enter has no meaning here.
pub open spec fn game_handle_key_model(g: GameModel, k: Key) -> GameModel {
    match k {
        Key::Up => GameModel {
            snake: SnakeModel { dir: turn_model(g.snake.dir, crate::grid::Direction::Up), ..g.snake },
            ..g
        },
        Key::Down => GameModel {
            snake: SnakeModel {
                dir: turn_model(g.snake.dir, crate::grid::Direction::Down),
                ..g.snake
            },
            ..g
        },
        Key::Left => GameModel {
            snake: SnakeModel {
                dir: turn_model(g.snake.dir, crate::grid::Direction::Left),
                ..g.snake
            },
            ..g
        },
        Key::Right => GameModel {
            snake: SnakeModel {
                dir: turn_model(g.snake.dir, crate::grid::Direction::Right),
                ..g.snake
            },
            ..g
        },
        Key::Enter => g,
    }
}

/// The per-tick contract of a session. With `s1` the snake after the time
/// delta is drained into discrete steps: a collision leaves the session as
/// it stands and surfaces a switch to the game-over screen carrying the
/// body length as the score; a step onto the apple grows the body by the
/// remembered tail cell and relocates the apple off the body; otherwise
/// nothing else changes.
pub open spec fn game_update_rel(g: GameModel, dt_ms: u64, g2: GameModel, t: TransitionModel) -> bool {
    let s1 = tick_model(g.snake, dt_ms);
    if s1.collided {
        &&& g2 == GameModel { snake: s1, apple: g.apple }
        &&& t matches TransitionModel::Switch(StateModel::Lost(l)) && l.0 == s1.body.len()
    } else if !s1.body.contains(g.apple) {
        &&& g2 == GameModel { snake: s1, apple: g.apple }
        &&& t is Stay
    } else {
        &&& g2.snake == (if s1.body.contains(s1.last_removed) {
            s1
        } else {
            SnakeModel { body: s1.body.push(s1.last_removed), ..s1 }
        })
        &&& cell_in_bounds(g2.apple)
        &&& (g2.snake.body.len() < BOARD_AREA ==> !g2.snake.body.contains(g2.apple))
        &&& t is Stay
    }
}

/// The frame a session draws: a cleared background, one square per body
/// cell, and the apple's square in its own color.
pub open spec fn game_render_spec(g: GameModel) -> Seq<DrawCmd> {
    seq![DrawCmd::Clear(Color::Green)] + snake_render_spec(g.snake) + seq![
        cell_square_spec(g.apple, Color::Orange),
    ]
}

pub struct Game {
    snake: Snake,
    apple: Cell,
}

impl View for Game {
    type V = GameModel;

    closed spec fn view(&self) -> GameModel {
        GameModel { snake: self.snake@, apple: self.apple }
    }
}

/// Relies on rand::random_range over `0..n`: the thread-local generator
/// draws a value uniformly from the half-open range, so every draw lies
/// below `n`; the range is non-empty, so the call does not panic.
#[verifier::external_body]
fn random_below(n: u32) -> (r: u32)
    requires
        n > 0,
    ensures
        r < n,
{
    rand::random_range(0..n)
}

impl Game {
    /// A fresh session.
    pub fn new() -> (g: Game)
        ensures
            g@ == initial_game_model(),
            game_wf(g@),
    {
        let g = Game { snake: Snake::new(), apple: Cell { x: 3, y: 3 } };
        proof {
            assert(g@ == initial_game_model());
            lemma_initial_game_wf();
        }
        g
    }

    /// The session's snake.
    pub fn snake(&self) -> (s: &Snake)
        ensures
            s@ == self@.snake,
    {
        &self.snake
    }

    /// Where the apple lies.
    pub fn apple(&self) -> (c: Cell)
        ensures
            c == self@.apple,
    {
        self.apple
    }

    /// Draw a uniformly random cell of the board as the new apple spot;
    /// the snake is untouched. The draw may land on the body: the caller
    /// redraws until it does not.
    fn generate_apple(&mut self)
        ensures
            final(self)@.snake == old(self)@.snake,
            cell_in_bounds(final(self)@.apple),
    {
        let x = random_below(BOARD_WIDTH);
        let y = random_below(BOARD_HEIGHT);
        self.apple = Cell { x, y };
    }

    /// Move the apple to a cell the body does not occupy: a bounded run
    /// of uniformly random draws, then a deterministic scan of the board.
    /// Only a body that fills the whole board leaves no such cell; the
    /// apple then merely stays somewhere on the board.
    fn relocate_apple(&mut self)
        requires
            snake_wf(old(self)@.snake),
            cell_in_bounds(old(self)@.apple),
        ensures
            final(self)@.snake == old(self)@.snake,
            cell_in_bounds(final(self)@.apple),
            old(self)@.snake.body.len() < BOARD_AREA ==> !old(self)@.snake.body.contains(
                final(self)@.apple,
            ),
    {
        let mut tries: u32 = 0;
        while tries < APPLE_RETRY_MAX
            invariant
                self@.snake == old(self)@.snake,
                snake_wf(self@.snake),
                cell_in_bounds(self@.apple),
            decreases APPLE_RETRY_MAX - tries,
        {
            if !self.snake.occupies(self.apple) {
                return;
            }
            self.generate_apple();
            tries = tries + 1;
        }
        let ghost body = self@.snake.body;
        let mut x: u32 = 0;
        while x < BOARD_WIDTH
            invariant
                x <= BOARD_WIDTH,
                self@.snake == old(self)@.snake,
                snake_wf(self@.snake),
                cell_in_bounds(self@.apple),
                body == self@.snake.body,
                forall|c: Cell| cell_in_bounds(c) && c.x < x ==> body.contains(c),
            decreases BOARD_WIDTH - x,
        {
            let mut y: u32 = 0;
            while y < BOARD_HEIGHT
                invariant
                    x < BOARD_WIDTH,
                    y <= BOARD_HEIGHT,
                    self@.snake == old(self)@.snake,
                    snake_wf(self@.snake),
                    cell_in_bounds(self@.apple),
                    body == self@.snake.body,
                    forall|c: Cell| cell_in_bounds(c) && c.x < x ==> body.contains(c),
                    forall|c: Cell| cell_in_bounds(c) && c.x == x && c.y < y ==> body.contains(c),
                decreases BOARD_HEIGHT - y,
            {
                let candidate = Cell { x, y };
                if !self.snake.occupies(candidate) {
                    self.apple = candidate;
                    return;
                }
                y = y + 1;
            }
            x = x + 1;
        }
        proof {
            assert(forall|c: Cell| cell_in_bounds(c) ==> body.contains(c));
            lemma_covering_seq_len(body);
        }
    }

    /// Advance the session by `dt_ms` milliseconds, as `game_update_rel`
    /// says: drain whole intervals into steps, surface a collision as a
    /// switch to the game-over screen, and feed and relocate the apple
    /// when the snake reaches it.
    pub fn update(&mut self, dt_ms: u64) -> (t: Transition)
        requires
            game_wf(old(self)@),
        ensures
            game_wf(final(self)@),
            game_update_rel(old(self)@, dt_ms, final(self)@, t@),
    {
        let ghost g0 = self@;
        let ghost s1 = tick_model(g0.snake, dt_ms);
        let collided = self.snake.tick(dt_ms);
        if collided {
            let score = self.snake.size();
            Transition::Switch(State::Lost(Lost(score)))
        } else {
            if self.snake.occupies(self.apple) {
                self.snake.grow();
                self.relocate_apple();
            }
            Transition::Stay
        }
    }

    /// React to a key press: the four directions request a turn; Enter
    /// does nothing inside a session.
    pub fn handle_event(&mut self, k: Key) -> (t: Transition)
        ensures
            final(self)@ == game_handle_key_model(old(self)@, k),
            game_wf(old(self)@) ==> game_wf(final(self)@),
            t@ is Stay,
    {
        match k {
            Key::Up => {
                self.snake.set_direction(crate::grid::Direction::Up);
            },
            Key::Down => {
                self.snake.set_direction(crate::grid::Direction::Down);
            },
            Key::Left => {
                self.snake.set_direction(crate::grid::Direction::Left);
            },
            Key::Right => {
                self.snake.set_direction(crate::grid::Direction::Right);
            },
            Key::Enter => {},
        }
        Transition::Stay
    }

    /// Describe this frame of the session.
    pub fn render(&self) -> (r: Vec<DrawCmd>)
        requires
            game_wf(self@),
        ensures
            r@ == game_render_spec(self@),
    {
        let mut r: Vec<DrawCmd> = Vec::new();
        r.push(DrawCmd::Clear(Color::Green));
        let mut body = self.snake.render();
        r.append(&mut body);
        r.push(cell_square(self.apple, Color::Orange));
        proof {
            assert(r@ =~= game_render_spec(self@));
        }
        r
    }
}

/// Eating grows the body by exactly one cell and relocates the apple off
/// the body: whenever a well-formed session's drained snake reaches the
/// apple without colliding, and the board still has room for the longer
/// body and an apple beside it, the per-tick relation forces the new
/// length to be the old plus one and the new apple outside the new body.
pub proof fn lemma_eat_grows_by_one(g: GameModel, dt_ms: u64, g2: GameModel, t: TransitionModel)
    requires
        game_wf(g),
        game_update_rel(g, dt_ms, g2, t),
        !tick_model(g.snake, dt_ms).collided,
        tick_model(g.snake, dt_ms).body.contains(g.apple),
        g.snake.body.len() + 1 < BOARD_AREA,
    ensures
        g2.snake.body.len() == g.snake.body.len() + 1,
        !g2.snake.body.contains(g2.apple),
        t is Stay,
{
    let accd = SnakeModel { acc_ms: sat_add(g.snake.acc_ms, dt_ms), ..g.snake };
    let s1 = tick_model(g.snake, dt_ms);
    assert(snake_wf(accd));
    lemma_drain_fresh_tail(accd);
    lemma_drain_preserves_length(accd);
    if g.snake.collided {
        assert(s1 == accd);
    }
    assert(!g.snake.collided);
    assert(!g.snake.body.contains(g.apple));
    assert(!s1.body.contains(s1.last_removed));
}

/// A tick that collides surfaces a switch to the game-over screen whose
/// score is the body length at the moment of collision: the colliding
/// step leaves the body untouched, so that length is the one the session
/// started the tick with.
pub proof fn lemma_collision_emits_score(g: GameModel, dt_ms: u64, g2: GameModel, t: TransitionModel)
    requires
        game_wf(g),
        game_update_rel(g, dt_ms, g2, t),
        tick_model(g.snake, dt_ms).collided,
    ensures
        g2.snake.collided,
        t matches TransitionModel::Switch(StateModel::Lost(l)) && l.0 == g.snake.body.len(),
{
    let accd = SnakeModel { acc_ms: sat_add(g.snake.acc_ms, dt_ms), ..g.snake };
    assert(snake_wf(accd));
    lemma_drain_preserves_length(accd);
}

} // verus!
