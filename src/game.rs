use vstd::prelude::*;
use std::collections::VecDeque;
use crate::dimensions::{Pos, Size, field_ok, in_field};
use crate::food::{Food, FoodType, area, is_edible, lemma_cover_len, place, value_of};
use crate::random::random_in;
use crate::snake::{Direction, Snake, SnakeView, moved, turned, BODY_GLYPH};
use crate::symbol::Symbol;
use crossterm::style::Color;

verus! {

/// Milliseconds between two motion ticks.
pub const TICK_MS: u64 = 200;

/// Milliseconds between two motion ticks while boost is on.
pub const BOOST_TICK_MS: u64 = 130;

/// What a key press asks of the game, once decoded.
#[derive(Clone, Copy, Debug, PartialEq, Eq, Structural)]
pub enum KeyAction {
    MoveUp,
    MoveDown,
    MoveLeft,
    MoveRight,
    Boost,
    Pause,
    Exit,
    NoAction,
}

/// What happened in one motion tick.
#[derive(Clone, Copy, Debug, PartialEq, Eq, Structural)]
pub enum TickEvent {
    /// The snake moved and nothing else happened.
    Moved,
    /// The head reached the apple: points scored, the snake grew, and a new
    /// apple and new bricks were placed.
    Ate,
    /// The head ran into the snake's body; the run is over.
    SelfEaten,
    /// The head ran into a brick; the run is over.
    AteBrick,
    /// The apple was eaten but the field has no free cells left for a new
    /// apple and bricks; the run is over.
    NoRoom,
}

/// One motion tick: the cell the tail left, and what happened.
#[derive(Clone, Copy, Debug, PartialEq, Eq, Structural)]
pub struct Tick {
    pub vacated: Pos,
    pub event: TickEvent,
}

/// How many bricks a field holds: one per hundred cells.
pub open spec fn brick_count(s: Size) -> int {
    (s.width * s.height) / 100
}

pub open spec fn brick_at(bricks: Seq<Food>, p: Pos) -> bool {
    exists|i: int| 0 <= i < bricks.len() && #[trigger] bricks[i].pos == p
}

/// The direction a move action asks for, if it is one.
pub open spec fn action_dir(a: KeyAction) -> Option<Direction> {
    match a {
        KeyAction::MoveUp => Some(Direction::Up),
        KeyAction::MoveDown => Some(Direction::Down),
        KeyAction::MoveLeft => Some(Direction::Left),
        KeyAction::MoveRight => Some(Direction::Right),
        _ => None,
    }
}

/// The queue of pending turns after a request for `d`: a request equal to
/// the last one queued is dropped.
pub open spec fn queued(q: Seq<Direction>, d: Direction) -> Seq<Direction> {
    if q.len() > 0 && q.last() == d {
        q
    } else {
        q.push(d)
    }
}

/// The snake after one tick of motion heading `d`.
pub open spec fn advanced(s: SnakeView, d: Direction) -> SnakeView {
    SnakeView {
        parts: Seq::new(
            s.parts.len(),
            |i: int|
                Symbol {
                    pos: if i == 0 {
                        moved(s.head(), d, s.field)
                    } else {
                        s.parts[i - 1].pos
                    },
                    ..s.parts[i]
                },
        ),
        dir: d,
        field: s.field,
    }
}

/// The snake grown by one segment on the cell of its tail.
pub open spec fn grown(s: SnakeView) -> SnakeView {
    SnakeView {
        parts: s.parts.push(
            Symbol { color: Color::DarkGreen, pos: s.positions().last(), ch: BODY_GLYPH },
        ),
        ..s
    }
}

/// A score raised by `v` points, held at `u32::MAX`.
pub open spec fn scored(score: u32, v: u16) -> u32 {
    if score + v > u32::MAX {
        u32::MAX
    } else {
        (score + v) as u32
    }
}

/// The whole state of a run.
pub struct GameView {
    pub snake: SnakeView,
    pub apple: Food,
    pub bricks: Seq<Food>,
    pub score: u32,
    pub field: Size,
    pub terminal: Size,
    pub stopped: bool,
    pub paused: bool,
    pub boosted: bool,
    /// Turns asked for and not yet taken, oldest first.
    pub queue: Seq<Direction>,
}

/// The items sit on the field: an apple to eat, and exactly the field's
/// share of bricks.
pub open spec fn items_ok(field: Size, apple: Food, bricks: Seq<Food>) -> bool {
    &&& in_field(apple.pos, field)
    &&& is_edible(apple.kind)
    &&& bricks.len() == brick_count(field)
    &&& forall|i: int|
        0 <= i < bricks.len() ==> in_field((#[trigger] bricks[i]).pos, field) && bricks[i].kind
            == FoodType::Brick
}

/// No item under the snake, no brick under the apple, no two bricks on one cell.
pub open spec fn items_apart(s: SnakeView, apple: Food, bricks: Seq<Food>) -> bool {
    &&& !s.occupies(apple.pos)
    &&& forall|i: int|
        0 <= i < bricks.len() ==> !s.occupies(#[trigger] bricks[i].pos) && bricks[i].pos
            != apple.pos
    &&& forall|i: int, j: int|
        0 <= i < bricks.len() && 0 <= j < bricks.len() && i != j ==> #[trigger] bricks[i].pos
            != #[trigger] bricks[j].pos
}

/// A fresh set of items around the snake: an apple and the field's share
/// of bricks, apart from the snake and from each other.
pub open spec fn freshly_placed(s: SnakeView, apple: Food, bricks: Seq<Food>) -> bool {
    &&& items_ok(s.field, apple, bricks)
    &&& items_apart(s, apple, bricks)
}

/// The field has a cell for each segment of the snake, the apple and every
/// brick, so a fresh set of items always fits around the snake.
pub open spec fn has_room(s: SnakeView) -> bool {
    area(s.field) >= s.parts.len() + 1 + brick_count(s.field)
}

impl GameView {
    pub open spec fn wf(self) -> bool {
        &&& self.snake.wf()
        &&& self.snake.field == self.field
        &&& items_ok(self.field, self.apple, self.bricks)
    }

    /// The heading for the next tick: the oldest queued turn, if any, applied.
    pub open spec fn next_heading(self) -> Direction {
        if self.queue.len() > 0 {
            turned(self.snake.dir, self.queue[0])
        } else {
            self.snake.dir
        }
    }

    pub open spec fn queue_after_tick(self) -> Seq<Direction> {
        if self.queue.len() > 0 {
            self.queue.drop_first()
        } else {
            self.queue
        }
    }
}

/// The state after a key action. A stopped run ignores every action; a
/// paused one ignores moves. Boost and pause toggle in any running state.
pub open spec fn after_action(g: GameView, a: KeyAction) -> GameView {
    if g.stopped {
        g
    } else {
        match a {
            KeyAction::Boost => GameView {
                boosted: !g.boosted,
                snake: SnakeView {
                    parts: g.snake.parts.update(
                        0,
                        Symbol {
                            color: if g.boosted {
                                Color::Green
                            } else {
                                Color::Cyan
                            },
                            ..g.snake.parts[0]
                        },
                    ),
                    ..g.snake
                },
                ..g
            },
            KeyAction::Pause => GameView { paused: !g.paused, ..g },
            KeyAction::Exit => GameView { stopped: true, ..g },
            KeyAction::NoAction => g,
            _ => if g.paused {
                g
            } else {
                GameView { queue: queued(g.queue, action_dir(a).unwrap()), ..g }
            },
        }
    }
}

/// The initial heading that a draw `n` in `0 ..= 3` picks.
pub fn direction_for(n: u16) -> (r: Direction)
    ensures
        r == (if n == 0 {
            Direction::Up
        } else if n == 1 {
            Direction::Down
        } else if n == 2 {
            Direction::Left
        } else {
            Direction::Right
        }),
{
    if n == 0 {
        Direction::Up
    } else if n == 1 {
        Direction::Down
    } else if n == 2 {
        Direction::Left
    } else {
        Direction::Right
    }
}

/// The cells the snake covers, head first.
fn snake_cells(snake: &Snake) -> (r: Vec<Pos>)
    ensures
        r@ == snake@.positions(),
        forall|p: Pos| r@.contains(p) <==> snake@.occupies(p),
{
    let parts = snake.get_parts();
    let mut cells: Vec<Pos> = Vec::new();
    let mut i: usize = 0;
    while i < parts.len()
        invariant
            i <= parts@.len(),
            parts@.map_values(|p: crate::snake::SnakePart| p@) == snake@.parts,
            cells@ == snake@.positions().take(i as int),
        decreases parts.len() - i,
    {
        cells.push(parts[i].get_pos());
        assert(cells@ =~= snake@.positions().take(i + 1));
        i += 1;
    }
    assert(cells@ =~= snake@.positions());
    assert forall|p: Pos| cells@.contains(p) <==> snake@.occupies(p) by {
        if cells@.contains(p) {
            let k = choose|k: int| 0 <= k < cells@.len() && cells@[k] == p;
            assert(snake@.parts[k].pos == p);
        }
        if snake@.occupies(p) {
            let k = choose|k: int| 0 <= k < snake@.parts.len() && snake@.parts[k].pos == p;
            assert(cells@[k] == p);
        }
    }
    cells
}

/// Whether some brick stands on `p`.
fn hits_brick(bricks: &Vec<Food>, p: Pos) -> (r: bool)
    ensures
        r == brick_at(bricks@, p),
{
    let mut i: usize = 0;
    while i < bricks.len()
        invariant
            forall|j: int| 0 <= j < i && j < bricks@.len() ==> #[trigger] bricks@[j].pos != p,
        decreases bricks.len() - i,
    {
        if bricks[i].pos == p {
            assert(bricks@[i as int].pos == p);
            return true;
        }
        i += 1;
    }
    false
}

/// A game run: the snake, the apple and the bricks, the score, the
/// run-control flags and the queue of pending turns.
pub struct Game {
    snake: Snake,
    apple: Food,
    bricks: Vec<Food>,
    score: u32,
    field_size: Size,
    terminal_size: Size,
    stop: bool,
    pause: bool,
    boost: bool,
    sequence: VecDeque<Direction>,
}

impl View for Game {
    type V = GameView;

    closed spec fn view(&self) -> GameView {
        GameView {
            snake: self.snake@,
            apple: self.apple,
            bricks: self.bricks@,
            score: self.score,
            field: self.field_size,
            terminal: self.terminal_size,
            stopped: self.stop,
            paused: self.pause,
            boosted: self.boost,
            queue: self.sequence@,
        }
    }
}

/// What collision checking leaves of a run whose snake has just moved.
/// A self-collision ends the run and nothing else happens. Otherwise the
/// apple is eaten if the head is on it: points, growth, and a fresh set of
/// items, or the run ends for want of room for them. Independently, the run
/// ends if the head is on one of the bricks it moved among.
pub open spec fn collision_done(g: GameView, h: GameView, e: TickEvent) -> bool {
    let eaten_self = g.snake.self_eaten();
    let ate = !eaten_self && g.snake.head() == g.apple.pos;
    let hit = !eaten_self && brick_at(g.bricks, g.snake.head());
    let kept = h.apple == g.apple && h.bricks == g.bricks;
    let respawned = freshly_placed(h.snake, h.apple, h.bricks);
    &&& h.queue == g.queue
    &&& h.field == g.field
    &&& h.terminal == g.terminal
    &&& h.paused == g.paused
    &&& h.boosted == g.boosted
    &&& h.snake == (if ate { grown(g.snake) } else { g.snake })
    &&& h.score == (if ate { scored(g.score, value_of(g.apple.kind)) } else { g.score })
    &&& (if ate { respawned || kept } else { kept })
    &&& (ate && has_room(h.snake) ==> respawned)
    &&& e == (if eaten_self {
        TickEvent::SelfEaten
    } else if hit {
        TickEvent::AteBrick
    } else if !ate {
        TickEvent::Moved
    } else if respawned {
        TickEvent::Ate
    } else {
        TickEvent::NoRoom
    })
    &&& h.stopped == (g.stopped || eaten_self || hit || (ate && !respawned))
}

/// What one motion tick of the running game `g` leaves: the oldest queued
/// turn is taken, the snake moves, and collisions are checked.
pub open spec fn tick_done(g: GameView, h: GameView, t: Tick) -> bool {
    &&& t.vacated == g.snake.positions().last()
    &&& collision_done(
        GameView {
            snake: advanced(g.snake, g.next_heading()),
            queue: g.queue_after_tick(),
            ..g
        },
        h,
        t.event,
    )
}

/// A new apple on a free cell, then the field's share of bricks, each on a
/// cell free of the snake, the apple and the bricks before it. `None` when
/// some item finds no free cell, which cannot happen while the field has
/// room for the snake and all the items.
pub fn init_food(snake: &Snake) -> (r: Option<(Food, Vec<Food>)>)
    requires
        snake@.wf(),
    ensures
        r matches Some(items) ==> freshly_placed(snake@, items.0, items.1@),
        has_room(snake@) ==> r is Some,
{
    let field_size = snake.get_field_size();
    let mut occupied = snake_cells(snake);
    proof {
        assert(occupied@.len() == snake@.parts.len());
    }
    let apple_pos = match place(&field_size, &occupied) {
        Some(p) => p,
        None => {
            proof {
                lemma_cover_len(field_size, occupied@);
            }
            return None;
        },
    };
    let apple = Food { kind: crate::food::random_kind(true), pos: apple_pos };
    occupied.push(apple_pos);
    assert(field_size.width as u64 * field_size.height as u64 <= 0xffff_ffff) by (nonlinear_arith)
        requires
            field_size.width <= 0xffff,
            field_size.height <= 0xffff,
    ;
    let count: u64 = (field_size.width as u64 * field_size.height as u64) / 100;
    let mut bricks: Vec<Food> = Vec::new();
    proof {
        assert forall|p: Pos|
            occupied@.contains(p) <==> (snake@.occupies(p) || p == apple.pos || brick_at(
                bricks@,
                p,
            )) by {
            vstd::seq_lib::lemma_seq_contains_after_push(snake@.positions(), apple_pos, p);
        }
    }
    let mut k: u64 = 0;
    while k < count
        invariant
            snake@.wf(),
            field_size == snake@.field,
            count == brick_count(field_size),
            k <= count,
            bricks@.len() == k,
            occupied@.len() == snake@.parts.len() + 1 + k,
            in_field(apple.pos, field_size),
            is_edible(apple.kind),
            forall|i: int|
                0 <= i < bricks@.len() ==> in_field((#[trigger] bricks@[i]).pos, field_size)
                    && bricks@[i].kind == FoodType::Brick,
            items_apart(snake@, apple, bricks@),
            forall|p: Pos|
                occupied@.contains(p) <==> (snake@.occupies(p) || p == apple.pos || brick_at(
                    bricks@,
                    p,
                )),
        decreases count - k,
    {
        match place(&field_size, &occupied) {
            Some(p) => {
                let brick = Food { kind: FoodType::Brick, pos: p };
                let ghost before = bricks@;
                let ghost cells = occupied@;
                bricks.push(brick);
                occupied.push(p);
                proof {
                    assert(bricks@[before.len() as int] == brick);
                    assert(forall|i: int| 0 <= i < before.len() ==> bricks@[i] == before[i]);
                    assert forall|i: int| 0 <= i < before.len() implies #[trigger] before[i].pos
                        != p by {
                        if before[i].pos == p {
                            assert(brick_at(before, p));
                        }
                    }
                    assert forall|q: Pos|
                        occupied@.contains(q) <==> (snake@.occupies(q) || q == apple.pos
                            || brick_at(bricks@, q)) by {
                        vstd::seq_lib::lemma_seq_contains_after_push(cells, p, q);
                        if brick_at(bricks@, q) && q != p {
                            let i = choose|i: int| 0 <= i < bricks@.len() && #[trigger] bricks@[i].pos == q;
                            assert(before[i].pos == q);
                        }
                        if brick_at(before, q) {
                            let i = choose|i: int| 0 <= i < before.len() && #[trigger] before[i].pos == q;
                            assert(bricks@[i].pos == q);
                        }
                        if q == p {
                            assert(bricks@[before.len() as int].pos == q);
                        }
                    }
                }
                k += 1;
            },
            None => {
                proof {
                    lemma_cover_len(field_size, occupied@);
                }
                return None;
            },
        }
    }
    Some((apple, bricks))
}

impl Game {
    /// A new run on a field of `field_size` inside a terminal of
    /// `terminal_size`: a one-segment snake with a random heading at a
    /// random cell, an apple, and the field's share of bricks.
    pub fn new(field_size: Size, terminal_size: Size) -> (r: Game)
        requires
            field_ok(field_size),
            area(field_size) >= 2 + brick_count(field_size),
        ensures
            r@.wf(),
            r@.snake.parts.len() == 1,
            r@.field == field_size,
            r@.terminal == terminal_size,
            r@.score == 0,
            !r@.stopped,
            !r@.paused,
            !r@.boosted,
            r@.queue.len() == 0,
            freshly_placed(r@.snake, r@.apple, r@.bricks),
    {
        let dir = direction_for(random_in(0, 3));
        let snake = Snake::new(field_size, dir);
        match init_food(&snake) {
            Some((apple, bricks)) => Game::with_items(snake, apple, bricks, terminal_size),
            None => {
                proof {
                    assert(has_room(snake@));
                }
                vstd::pervasive::unreached()
            },
        }
    }

    /// A run over the given snake and items, not started yet: no score, no
    /// flag set, no turn queued.
    pub fn with_items(snake: Snake, apple: Food, bricks: Vec<Food>, terminal_size: Size) -> (r: Game)
        requires
            snake@.wf(),
            items_ok(snake@.field, apple, bricks@),
        ensures
            r@ == (GameView {
                snake: snake@,
                apple,
                bricks: bricks@,
                score: 0,
                field: snake@.field,
                terminal: terminal_size,
                stopped: false,
                paused: false,
                boosted: false,
                queue: Seq::empty(),
            }),
            r@.wf(),
    {
        let field_size = snake.get_field_size();
        let r = Game {
            snake,
            apple,
            bricks,
            score: 0,
            field_size,
            terminal_size,
            stop: false,
            pause: false,
            boost: false,
            sequence: VecDeque::new(),
        };
        assert(r@.queue =~= Seq::empty());
        r
    }

    /// Handles one decoded key press; see `after_action`.
    pub fn on_action(&mut self, action: KeyAction)
        requires
            old(self)@.wf(),
        ensures
            final(self)@ == after_action(old(self)@, action),
            final(self)@.wf(),
    {
        if self.stop {
            return;
        }
        match action {
            KeyAction::MoveUp => self.request_turn(Direction::Up),
            KeyAction::MoveDown => self.request_turn(Direction::Down),
            KeyAction::MoveLeft => self.request_turn(Direction::Left),
            KeyAction::MoveRight => self.request_turn(Direction::Right),
            KeyAction::Boost => self.boost_mode_toggle(),
            KeyAction::Pause => self.pause_mode_toggle(),
            KeyAction::Exit => {
                self.stop = true;
            },
            KeyAction::NoAction => {},
        }
    }

    /// Queues a turn toward `dir`, unless the run is paused or the same turn
    /// is already the last one queued.
    fn request_turn(&mut self, dir: Direction)
        ensures
            final(self)@ == (if old(self)@.paused {
                old(self)@
            } else {
                GameView { queue: queued(old(self)@.queue, dir), ..old(self)@ }
            }),
    {
        if self.pause {
            return;
        }
        let n = self.sequence.len();
        if n == 0 || self.sequence[n - 1] != dir {
            self.sequence.push_back(dir);
        }
    }

    /// Switches boost, and shows it in the color of the head.
    fn boost_mode_toggle(&mut self)
        requires
            old(self)@.wf(),
        ensures
            final(self)@ == after_action(old(self)@, KeyAction::Boost) || old(self)@.stopped,
            final(self)@.wf(),
    {
        let color = if !self.boost {
            Color::Cyan
        } else {
            Color::Green
        };
        self.snake.set_head_color(color);
        self.boost = !self.boost;
    }

    fn pause_mode_toggle(&mut self)
        ensures
            final(self)@ == (GameView { paused: !old(self)@.paused, ..old(self)@ }),
    {
        self.pause = !self.pause;
    }

    /// Ends the run if the terminal no longer has the size it started with.
    pub fn terminal_size_checker(&mut self, current: Size)
        ensures
            final(self)@ == (GameView {
                stopped: old(self)@.stopped || current != old(self)@.terminal,
                ..old(self)@
            }),
    {
        if current != self.terminal_size {
            self.stop = true;
        }
    }

    /// Ends the run from outside, as when drawing it failed.
    pub fn halt(&mut self)
        ensures
            final(self)@ == (GameView { stopped: true, ..old(self)@ }),
    {
        self.stop = true;
    }

    /// How long the motion task waits before the next tick.
    pub fn tick_delay_ms(&self) -> (r: u64)
        ensures
            r == (if self@.boosted { BOOST_TICK_MS } else { TICK_MS }),
    {
        if self.boost {
            BOOST_TICK_MS
        } else {
            TICK_MS
        }
    }

    /// One motion tick: takes the oldest queued turn, moves the snake, and
    /// checks collisions; see `tick_done`. A stopped or paused run is left
    /// as it is, and `None` returned.
    pub fn tick(&mut self) -> (r: Option<Tick>)
        requires
            old(self)@.wf(),
        ensures
            final(self)@.wf(),
            r is None <==> old(self)@.stopped || old(self)@.paused,
            r is None ==> final(self)@ == old(self)@,
            r matches Some(t) ==> tick_done(old(self)@, final(self)@, t),
    {
        if self.stop || self.pause {
            return None;
        }
        let ghost pre = self@;
        if let Some(dir) = self.sequence.pop_front() {
            self.snake.set_direction(dir);
        }
        assert(self@.queue =~= pre.queue_after_tick());
        let vacated = self.snake.update();
        assert(self@.snake.parts =~= advanced(pre.snake, pre.next_heading()).parts);
        let event = self.collision_check();
        Some(Tick { vacated, event })
    }

    /// Checks the snake's new position: see `collision_done`.
    fn collision_check(&mut self) -> (event: TickEvent)
        requires
            old(self)@.wf(),
        ensures
            final(self)@.wf(),
            collision_done(old(self)@, final(self)@, event),
    {
        if self.snake.check_self_eaten() {
            self.stop = true;
            return TickEvent::SelfEaten;
        }
        let head = self.snake.get_head_pos();
        let hit = hits_brick(&self.bricks, head);
        let mut event = TickEvent::Moved;
        let mut no_room = false;
        if head == self.apple.pos {
            if self.food_update() {
                event = TickEvent::Ate;
            } else {
                assert(self@.snake.occupies(self@.apple.pos)) by {
                    assert(self@.snake.parts[0].pos == head);
                }
                event = TickEvent::NoRoom;
                no_room = true;
            }
        }
        if hit {
            event = TickEvent::AteBrick;
        }
        if hit || no_room {
            self.stop = true;
        }
        event
    }

    /// The apple was eaten: scores its value, grows the snake, and places a
    /// new apple and new bricks. Returns false, with the items left as they
    /// were, when some item finds no free cell; that cannot happen while
    /// the field has room for the grown snake and all the items.
    fn food_update(&mut self) -> (placed: bool)
        requires
            old(self)@.wf(),
        ensures
            final(self)@.wf(),
            final(self)@.snake == grown(old(self)@.snake),
            final(self)@.score == scored(old(self)@.score, value_of(old(self)@.apple.kind)),
            final(self)@.queue == old(self)@.queue,
            final(self)@.field == old(self)@.field,
            final(self)@.terminal == old(self)@.terminal,
            final(self)@.stopped == old(self)@.stopped,
            final(self)@.paused == old(self)@.paused,
            final(self)@.boosted == old(self)@.boosted,
            placed ==> freshly_placed(final(self)@.snake, final(self)@.apple, final(self)@.bricks),
            !placed ==> final(self)@.apple == old(self)@.apple && final(self)@.bricks == old(self)@.bricks,
            has_room(final(self)@.snake) ==> placed,
    {
        self.score = self.score.saturating_add(self.apple.get_value() as u32);
        self.snake.add_part();
        assert(self@.snake =~= grown(old(self)@.snake));
        match init_food(&self.snake) {
            Some((apple, bricks)) => {
                self.apple = apple;
                self.bricks = bricks;
                true
            },
            None => false,
        }
    }

    pub fn get_snake(&self) -> (r: &Snake)
        ensures
            r@ == self@.snake,
    {
        &self.snake
    }

    pub fn get_apple(&self) -> (r: Food)
        ensures
            r == self@.apple,
    {
        self.apple
    }

    pub fn get_bricks(&self) -> (r: &Vec<Food>)
        ensures
            r@ == self@.bricks,
    {
        &self.bricks
    }

    pub fn get_score(&self) -> (r: u32)
        ensures
            r == self@.score,
    {
        self.score
    }

    pub fn get_field_size(&self) -> (r: Size)
        ensures
            r == self@.field,
    {
        self.field_size
    }

    pub fn is_stopped(&self) -> (r: bool)
        ensures
            r == self@.stopped,
    {
        self.stop
    }

    pub fn is_paused(&self) -> (r: bool)
        ensures
            r == self@.paused,
    {
        self.pause
    }

    pub fn is_boosted(&self) -> (r: bool)
        ensures
            r == self@.boosted,
    {
        self.boost
    }
}

/// A pause toggle changes nothing but the pause flag, and a second one
/// gives back the run exactly as it was: the same running or paused state,
/// score, snake, items and queued turns.
pub proof fn lemma_pause_toggle_twice(g: GameView)
    ensures
        after_action(g, KeyAction::Pause) == (GameView {
            paused: if g.stopped { g.paused } else { !g.paused },
            ..g
        }),
        after_action(after_action(g, KeyAction::Pause), KeyAction::Pause) == g,
{
}

/// A stopped run stays as it is: every key action leaves it unchanged,
/// as `Game::tick` does.
pub proof fn lemma_stopped_is_final(g: GameView, a: KeyAction)
    requires
        g.stopped,
    ensures
        after_action(g, a) == g,
{
}

/// A tick whose head lands on the apple, with no brick there and room on
/// the field, scores exactly the apple's value (held at `u32::MAX`), grows
/// the snake by one segment on the old tail's cell, keeps the number of
/// bricks, puts the new apple off the snake, and lets the run go on.
pub proof fn lemma_tick_eats(g: GameView, h: GameView, t: Tick)
    requires
        g.wf(),
        !g.stopped,
        tick_done(g, h, t),
        !advanced(g.snake, g.next_heading()).self_eaten(),
        advanced(g.snake, g.next_heading()).head() == g.apple.pos,
        !brick_at(g.bricks, g.apple.pos),
        has_room(grown(advanced(g.snake, g.next_heading()))),
    ensures
        t.event == TickEvent::Ate,
        !h.stopped,
        h.score == scored(g.score, value_of(g.apple.kind)),
        h.snake.parts.len() == g.snake.parts.len() + 1,
        h.snake.parts.last().pos == advanced(g.snake, g.next_heading()).positions().last(),
        !h.snake.occupies(h.apple.pos),
        h.bricks.len() == g.bricks.len(),
{
}

/// A tick whose head lands on a brick, without running into the snake
/// itself, ends the run, whether or not the apple lay there too.
pub proof fn lemma_tick_hits_brick(g: GameView, h: GameView, t: Tick)
    requires
        tick_done(g, h, t),
        !advanced(g.snake, g.next_heading()).self_eaten(),
        brick_at(g.bricks, advanced(g.snake, g.next_heading()).head()),
    ensures
        t.event == TickEvent::AteBrick,
        h.stopped,
{
}

} // verus!
