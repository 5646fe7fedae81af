//! The snake: an ordered body of cells, a travel direction, and a
//! fixed-cadence clock that turns accumulated milliseconds into discrete
//! simulation steps.

use vstd::prelude::*;

use crate::draw::{cell_square, cell_square_spec, Color, DrawCmd};
use crate::grid::{advance, advance_spec, cell_in_bounds, opposite, opposite_spec, Cell, Direction};

verus! {

/// Milliseconds of accumulated time that one discrete step consumes.
pub const TICK_INTERVAL_MS: u64 = 200;

/// The mathematical value of a snake.
pub struct SnakeModel {
    /// Body cells, head first, in body order.
    pub body: Seq<Cell>,
    /// Direction of the next step.
    pub dir: Direction,
    /// Milliseconds accumulated since the last discrete step.
    pub acc_ms: u64,
    /// Milliseconds per discrete step.
    pub interval_ms: u64,
    /// The most recently dropped tail cell.
    pub last_removed: Cell,
    /// Whether the snake has run into itself; terminal.
    pub collided: bool,
}

/// Well-formedness: the body never shrinks below its creation length, lies
/// on the board, and holds no duplicate cells; the cadence is positive.
pub open spec fn snake_wf(m: SnakeModel) -> bool {
    &&& m.body.len() >= 2
    &&& forall|i: int| 0 <= i < m.body.len() ==> cell_in_bounds(#[trigger] m.body[i])
    &&& forall|i: int, j: int| 0 <= i < j < m.body.len() ==> m.body[i] != m.body[j]
    &&& m.interval_ms > 0
    &&& cell_in_bounds(m.last_removed)
}

/// One discrete step: the head advances one cell; running into the body
/// makes the step abort into the collided state, otherwise the new head is
/// pushed in front and the tail cell is dropped and remembered.
pub open spec fn step_model(m: SnakeModel) -> SnakeModel {
    let new_head = advance_spec(m.body[0], m.dir);
    if m.body.contains(new_head) {
        SnakeModel { collided: true, ..m }
    } else {
        SnakeModel { body: seq![new_head] + m.body.drop_last(), last_removed: m.body.last(), ..m }
    }
}

/// Consume every whole interval of accumulated time, one discrete step per
/// interval, stopping early on a collision.
pub open spec fn drain_model(m: SnakeModel) -> SnakeModel
    decreases m.acc_ms,
{
    if m.collided || m.interval_ms == 0 || m.acc_ms < m.interval_ms {
        m
    } else {
        drain_model(step_model(SnakeModel { acc_ms: (m.acc_ms - m.interval_ms) as u64, ..m }))
    }
}

/// Addition on the accumulated clock, capped at the type's maximum.
pub open spec fn sat_add(a: u64, b: u64) -> u64 {
    if a + b > u64::MAX {
        u64::MAX
    } else {
        (a + b) as u64
    }
}

/// The snake after `tick(dt_ms)`: the delta joins the accumulated time and
/// every whole interval is drained into one discrete step.
pub open spec fn tick_model(m: SnakeModel, dt_ms: u64) -> SnakeModel {
    drain_model(SnakeModel { acc_ms: sat_add(m.acc_ms, dt_ms), ..m })
}

/// The direction after a request: the exact reverse of the current
/// direction is silently ignored, anything else replaces it.
pub open spec fn turn_model(current: Direction, requested: Direction) -> Direction {
    if requested == opposite_spec(current) {
        current
    } else {
        requested
    }
}

/// The snake of a fresh session: two cells at the board's corner, headed
/// right, with an empty clock.
pub open spec fn initial_snake_model() -> SnakeModel {
    SnakeModel {
        body: seq![Cell { x: 1, y: 0 }, Cell { x: 0, y: 0 }],
        dir: Direction::Right,
        acc_ms: 0,
        interval_ms: TICK_INTERVAL_MS,
        last_removed: Cell { x: 0, y: 0 },
        collided: false,
    }
}

/// The squares a body draws: one per cell, in body order.
pub open spec fn snake_render_spec(m: SnakeModel) -> Seq<DrawCmd> {
    m.body.map_values(|c: Cell| cell_square_spec(c, Color::Red))
}

pub struct Snake {
    body: Vec<Cell>,
    dir: Direction,
    acc_ms: u64,
    interval_ms: u64,
    last_removed: Cell,
    collided: bool,
}

impl View for Snake {
    type V = SnakeModel;

    closed spec fn view(&self) -> SnakeModel {
        SnakeModel {
            body: self.body@,
            dir: self.dir,
            acc_ms: self.acc_ms,
            interval_ms: self.interval_ms,
            last_removed: self.last_removed,
            collided: self.collided,
        }
    }
}

/// A successful step keeps the body well formed and leaves the dropped
/// tail cell outside the new body.
pub proof fn lemma_step_wf(m: SnakeModel)
    requires
        snake_wf(m),
        !m.collided,
    ensures
        snake_wf(step_model(m)),
        step_model(m).interval_ms == m.interval_ms,
        step_model(m).acc_ms == m.acc_ms,
        step_model(m).body.len() == m.body.len(),
        !step_model(m).collided ==> !step_model(m).body.contains(step_model(m).last_removed),
{
    let new_head = advance_spec(m.body[0], m.dir);
    if m.body.contains(new_head) {
    } else {
        let b2 = step_model(m).body;
        assert(b2.len() == m.body.len());
        assert(b2[0] == new_head);
        assert forall|i: int| 0 <= i < b2.len() implies cell_in_bounds(#[trigger] b2[i]) by {
            if i > 0 {
                assert(b2[i] == m.body[i - 1]);
            }
        }
        assert forall|i: int, j: int| 0 <= i < j < b2.len() implies b2[i] != b2[j] by {
            if i == 0 {
                assert(b2[j] == m.body[j - 1]);
                assert(m.body.contains(m.body[j - 1]));
            } else {
                assert(b2[i] == m.body[i - 1]);
                assert(b2[j] == m.body[j - 1]);
            }
        }
        let t = m.body.last();
        assert forall|i: int| 0 <= i < b2.len() implies b2[i] != t by {
            assert(m.body[m.body.len() - 1] == t);
            if i == 0 {
                assert(m.body.contains(t));
            } else {
                assert(b2[i] == m.body[i - 1]);
            }
        }
        assert(!b2.contains(t));
    }
}

/// Draining whole intervals never changes the body's length and keeps the
/// snake well formed; repeated ticking without eating cannot grow or
/// shrink the snake.
pub proof fn lemma_drain_preserves_length(m: SnakeModel)
    requires
        snake_wf(m),
    ensures
        snake_wf(drain_model(m)),
        drain_model(m).body.len() == m.body.len(),
        drain_model(m).interval_ms == m.interval_ms,
    decreases m.acc_ms,
{
    if m.collided || m.interval_ms == 0 || m.acc_ms < m.interval_ms {
    } else {
        let m1 = SnakeModel { acc_ms: (m.acc_ms - m.interval_ms) as u64, ..m };
        lemma_step_wf(m1);
        lemma_drain_preserves_length(step_model(m1));
    }
}

/// After draining, either nothing stepped and the snake is unchanged, or
/// the snake did not collide and its remembered tail cell lies outside the
/// body, or it collided.
pub proof fn lemma_drain_fresh_tail(m: SnakeModel)
    requires
        snake_wf(m),
    ensures
        drain_model(m).collided
            || (drain_model(m).body == m.body && drain_model(m).last_removed == m.last_removed)
            || !drain_model(m).body.contains(drain_model(m).last_removed),
    decreases m.acc_ms,
{
    if m.collided || m.interval_ms == 0 || m.acc_ms < m.interval_ms {
    } else {
        let m1 = SnakeModel { acc_ms: (m.acc_ms - m.interval_ms) as u64, ..m };
        lemma_step_wf(m1);
        let m2 = step_model(m1);
        if m2.collided {
            assert(drain_model(m) == drain_model(m2));
            assert(drain_model(m2) == m2);
        } else {
            lemma_drain_fresh_tail(m2);
            lemma_drain_preserves_length(m2);
        }
    }
}

/// A tick, however long its delta and however many discrete steps it
/// drains, never changes the body's length: without eating the snake
/// neither grows nor shrinks.
pub proof fn lemma_tick_preserves_length(m: SnakeModel, dt_ms: u64)
    requires
        snake_wf(m),
    ensures
        snake_wf(tick_model(m, dt_ms)),
        tick_model(m, dt_ms).body.len() == m.body.len(),
{
    lemma_drain_preserves_length(SnakeModel { acc_ms: sat_add(m.acc_ms, dt_ms), ..m });
}

/// The exact shape of one successful step: the length is kept, the new
/// head is one move along the travel direction, and every other cell
/// shifts one place down the body.
pub proof fn lemma_step_shifts_body(m: SnakeModel)
    requires
        snake_wf(m),
        !m.collided,
        !m.body.contains(advance_spec(m.body[0], m.dir)),
    ensures
        !step_model(m).collided,
        step_model(m).body.len() == m.body.len(),
        step_model(m).body[0] == advance_spec(m.body[0], m.dir),
        forall|i: int| 1 <= i < m.body.len() ==> step_model(m).body[i] == m.body[i - 1],
{
}

impl Snake {
    /// The snake of a fresh session.
    pub fn new() -> (s: Snake)
        ensures
            s@ == initial_snake_model(),
            snake_wf(s@),
    {
        let mut body: Vec<Cell> = Vec::new();
        body.push(Cell { x: 1, y: 0 });
        body.push(Cell { x: 0, y: 0 });
        let s = Snake {
            body,
            dir: Direction::Right,
            acc_ms: 0,
            interval_ms: TICK_INTERVAL_MS,
            last_removed: Cell { x: 0, y: 0 },
            collided: false,
        };
        proof {
            assert(s@.body =~= initial_snake_model().body);
            assert(s@ =~= initial_snake_model());
        }
        s
    }

    /// Number of body cells.
    pub fn size(&self) -> (n: usize)
        ensures
            n == self@.body.len(),
    {
        self.body.len()
    }

    /// The front cell of the body.
    pub fn head(&self) -> (c: Cell)
        requires
            self@.body.len() > 0,
        ensures
            c == self@.body[0],
    {
        self.body[0]
    }

    /// The current travel direction.
    pub fn direction(&self) -> (d: Direction)
        ensures
            d == self@.dir,
    {
        self.dir
    }

    /// Whether the snake has run into itself.
    pub fn is_collided(&self) -> (r: bool)
        ensures
            r == self@.collided,
    {
        self.collided
    }

    /// Membership test over the body.
    pub fn occupies(&self, cell: Cell) -> (r: bool)
        ensures
            r == self@.body.contains(cell),
    {
        let mut i: usize = 0;
        while i < self.body.len()
            invariant
                i <= self@.body.len(),
                forall|j: int| 0 <= j < i ==> self@.body[j] != cell,
            decreases self@.body.len() - i,
        {
            if self.body[i] == cell {
                return true;
            }
            i = i + 1;
        }
        false
    }

    /// Request a direction change, effective on the next step; a request
    /// for the exact reverse of the current direction is ignored, so the
    /// new direction never equals the reverse of the old one.
    pub fn set_direction(&mut self, requested: Direction)
        ensures
            final(self)@ == (SnakeModel { dir: turn_model(old(self)@.dir, requested), ..old(self)@ }),
            final(self)@.dir != opposite_spec(old(self)@.dir),
    {
        let blocked = opposite(self.dir);
        if !(requested == blocked) {
            self.dir = requested;
        }
    }

    /// Re-append the most recently dropped tail cell, growing the body by
    /// one; a repeated call before another step finds the cell already in
    /// the body and changes nothing.
    pub fn grow(&mut self)
        requires
            snake_wf(old(self)@),
        ensures
            snake_wf(final(self)@),
            old(self)@.body.contains(old(self)@.last_removed) ==> final(self)@ == old(self)@,
            !old(self)@.body.contains(old(self)@.last_removed) ==> final(self)@ == (SnakeModel {
                body: old(self)@.body.push(old(self)@.last_removed),
                ..old(self)@
            }),
    {
        if !self.occupies(self.last_removed) {
            self.body.push(self.last_removed);
        }
    }

    /// One discrete step, unconditionally; aborts into the collided state
    /// when the advanced head meets the body.
    fn step(&mut self)
        requires
            snake_wf(old(self)@),
            !old(self)@.collided,
        ensures
            snake_wf(final(self)@),
            final(self)@ == step_model(old(self)@),
    {
        proof {
            lemma_step_wf(old(self)@);
        }
        let new_head = advance(self.body[0], self.dir);
        if self.occupies(new_head) {
            self.collided = true;
        } else {
            let ghost prev = self@.body;
            self.last_removed = self.body[self.body.len() - 1];
            self.body.insert(0, new_head);
            let _ = self.body.pop();
            proof {
                assert(self@.body =~= seq![new_head] + prev.drop_last());
            }
        }
    }

    /// Accumulate `dt_ms` milliseconds and perform one discrete step for
    /// every whole interval now covered, stopping early on a collision;
    /// returns whether the snake is collided afterwards.
    pub fn tick(&mut self, dt_ms: u64) -> (collided: bool)
        requires
            snake_wf(old(self)@),
        ensures
            snake_wf(final(self)@),
            final(self)@ == tick_model(old(self)@, dt_ms),
            collided == final(self)@.collided,
    {
        let ghost start = SnakeModel { acc_ms: sat_add(old(self)@.acc_ms, dt_ms), ..old(self)@ };
        if dt_ms > u64::MAX - self.acc_ms {
            self.acc_ms = u64::MAX;
        } else {
            self.acc_ms = self.acc_ms + dt_ms;
        }
        while !self.collided && self.acc_ms >= self.interval_ms
            invariant
                snake_wf(self@),
                drain_model(self@) == drain_model(start),
            decreases self@.acc_ms,
        {
            self.acc_ms = self.acc_ms - self.interval_ms;
            self.step();
        }
        self.collided
    }

    /// Describe the body as one square per cell, in body order.
    pub fn render(&self) -> (r: Vec<DrawCmd>)
        requires
            snake_wf(self@),
        ensures
            r@ == snake_render_spec(self@),
    {
        let mut r: Vec<DrawCmd> = Vec::new();
        let mut i: usize = 0;
        while i < self.body.len()
            invariant
                i <= self@.body.len(),
                forall|j: int| 0 <= j < self@.body.len() ==> cell_in_bounds(#[trigger] self@.body[j]),
                r@ == self@.body.subrange(0, i as int).map_values(
                    |c: Cell| cell_square_spec(c, Color::Red),
                ),
            decreases self@.body.len() - i,
        {
            r.push(cell_square(self.body[i], Color::Red));
            proof {
                assert(self@.body.subrange(0, i + 1 as int) =~= self@.body.subrange(
                    0,
                    i as int,
                ).push(self@.body[i as int]));
                assert(self@.body.subrange(0, i + 1 as int).map_values(
                    |c: Cell| cell_square_spec(c, Color::Red),
                ) =~= self@.body.subrange(0, i as int).map_values(
                    |c: Cell| cell_square_spec(c, Color::Red),
                ).push(cell_square_spec(self@.body[i as int], Color::Red)));
            }
            i = i + 1;
        }
        proof {
            assert(self@.body.subrange(0, self@.body.len() as int) =~= self@.body);
        }
        r
    }
}

} // verus!
