use vstd::prelude::*;
use crate::dimensions::{Pos, Size, field_ok, in_field, wrap, wrapped};
use crate::random::random_in;
use crate::symbol::Symbol;
use crossterm::style::Color;

verus! {

/// Glyph of the snake's head.
pub const HEAD_GLYPH: char = '\u{25c7}';

/// Glyph of every segment behind the head.
pub const BODY_GLYPH: char = '\u{25c6}';

#[derive(Clone, Copy, Debug, PartialEq, Eq, Structural)]
pub enum Direction {
    Up,
    Down,
    Left,
    Right,
}

pub open spec fn opposite(d: Direction) -> Direction {
    match d {
        Direction::Up => Direction::Down,
        Direction::Down => Direction::Up,
        Direction::Left => Direction::Right,
        Direction::Right => Direction::Left,
    }
}

/// The heading after a request to turn toward `req`: a reversal onto the
/// snake's own neck is ignored, any other request is taken.
pub open spec fn turned(cur: Direction, req: Direction) -> Direction {
    if req == opposite(cur) {
        cur
    } else {
        req
    }
}

/// One cell along `d`, before wraparound.
pub open spec fn stepped(p: Pos, d: Direction) -> Pos {
    match d {
        Direction::Up => Pos { x: p.x, y: (p.y - 1) as u16 },
        Direction::Down => Pos { x: p.x, y: (p.y + 1) as u16 },
        Direction::Left => Pos { x: (p.x - 1) as u16, y: p.y },
        Direction::Right => Pos { x: (p.x + 1) as u16, y: p.y },
    }
}

/// The next cell along `d` on the wrapped field.
pub open spec fn moved(p: Pos, d: Direction, s: Size) -> Pos {
    wrapped(stepped(p, d), s)
}

impl Direction {
    pub fn is_opposite(&self, other: &Self) -> (r: bool)
        ensures
            r == (*other == opposite(*self)),
    {
        match self {
            Direction::Up => *other == Direction::Down,
            Direction::Down => *other == Direction::Up,
            Direction::Left => *other == Direction::Right,
            Direction::Right => *other == Direction::Left,
        }
    }
}

/// One segment of the snake; its view is the glyph it is drawn with.
#[derive(Clone, Copy)]
pub struct SnakePart {
    symbol: Symbol,
}

impl View for SnakePart {
    type V = Symbol;

    closed spec fn view(&self) -> Symbol {
        self.symbol
    }
}

impl SnakePart {
    pub fn new(symbol: Symbol) -> (r: SnakePart)
        ensures
            r@ == symbol,
    {
        SnakePart { symbol }
    }

    pub fn get_pos(&self) -> (r: Pos)
        ensures
            r == self@.pos,
    {
        self.symbol.pos
    }

    pub fn get_symbol(&self) -> (r: Symbol)
        ensures
            r == self@,
    {
        self.symbol
    }

    pub fn set_pos(&mut self, new_pos: Pos)
        ensures
            final(self)@ == (Symbol { pos: new_pos, ..old(self)@ }),
    {
        self.symbol.pos = new_pos;
    }

    pub fn set_color(&mut self, color: Color)
        ensures
            final(self)@ == (Symbol { color, ..old(self)@ }),
    {
        self.symbol.color = color;
    }

    /// Moves the segment one cell along `dir`, wrapping at the border.
    pub fn update(&mut self, dir: Direction, max_size: Size)
        requires
            field_ok(max_size),
            in_field(old(self)@.pos, max_size),
        ensures
            final(self)@ == (Symbol { pos: moved(old(self)@.pos, dir, max_size), ..old(self)@ }),
            in_field(final(self)@.pos, max_size),
    {
        let p = self.symbol.pos;
        let next = match dir {
            Direction::Up => Pos { x: p.x, y: p.y - 1 },
            Direction::Down => Pos { x: p.x, y: p.y + 1 },
            Direction::Left => Pos { x: p.x - 1, y: p.y },
            Direction::Right => Pos { x: p.x + 1, y: p.y },
        };
        self.symbol.pos = wrap(next, max_size);
    }
}

/// What a snake is: its glyphs from head to tail, its heading, its field.
pub struct SnakeView {
    pub parts: Seq<Symbol>,
    pub dir: Direction,
    pub field: Size,
}

impl SnakeView {
    /// A snake with a head, inside its field.
    pub open spec fn wf(self) -> bool {
        &&& self.parts.len() >= 1
        &&& field_ok(self.field)
        &&& forall|i: int| 0 <= i < self.parts.len() ==> in_field(#[trigger] self.parts[i].pos, self.field)
    }

    pub open spec fn head(self) -> Pos {
        self.parts[0].pos
    }

    pub open spec fn positions(self) -> Seq<Pos> {
        self.parts.map_values(|s: Symbol| s.pos)
    }

    /// Some segment stands on `p`, the head included.
    pub open spec fn occupies(self, p: Pos) -> bool {
        exists|i: int| 0 <= i < self.parts.len() && #[trigger] self.parts[i].pos == p
    }

    /// The head stands on a segment two or more places behind it. The neck,
    /// right behind the head, is never counted: it shares the head's cell
    /// when a one-segment snake has just grown.
    pub open spec fn self_eaten(self) -> bool {
        exists|i: int| 2 <= i < self.parts.len() && #[trigger] self.parts[i].pos == self.parts[0].pos
    }
}

pub struct Snake {
    parts: Vec<SnakePart>,
    dir: Direction,
    field_size: Size,
}

impl View for Snake {
    type V = SnakeView;

    closed spec fn view(&self) -> SnakeView {
        SnakeView {
            parts: self.parts@.map_values(|p: SnakePart| p@),
            dir: self.dir,
            field: self.field_size,
        }
    }
}

impl Snake {
    /// A one-segment snake heading `dir`, at a random cell of the field.
    pub fn new(field_size: Size, dir: Direction) -> (r: Snake)
        requires
            field_ok(field_size),
        ensures
            r@.wf(),
            r@.parts.len() == 1,
            r@.parts[0].ch == HEAD_GLYPH,
            r@.parts[0].color == Color::Green,
            r@.dir == dir,
            r@.field == field_size,
    {
        let x = random_in(0, field_size.width - 1);
        let y = random_in(0, field_size.height - 1);
        Snake::with_head(field_size, dir, Pos { x: x + 2, y: y + 1 })
    }

    /// A one-segment snake heading `dir` with its head at `head`.
    pub fn with_head(field_size: Size, dir: Direction, head: Pos) -> (r: Snake)
        requires
            field_ok(field_size),
            in_field(head, field_size),
        ensures
            r@ == (SnakeView {
                parts: seq![Symbol { color: Color::Green, pos: head, ch: HEAD_GLYPH }],
                dir,
                field: field_size,
            }),
            r@.wf(),
    {
        let part = SnakePart::new(Symbol::new(head).ch(HEAD_GLYPH).color(Color::Green));
        let r = Snake { parts: vec![part], dir, field_size };
        assert(r@.parts =~= seq![part@]);
        r
    }

    pub fn get_field_size(&self) -> (r: Size)
        ensures
            r == self@.field,
    {
        self.field_size
    }

    pub fn get_direction(&self) -> (r: Direction)
        ensures
            r == self@.dir,
    {
        self.dir
    }

    pub fn get_parts(&self) -> (r: &Vec<SnakePart>)
        ensures
            r@.map_values(|p: SnakePart| p@) == self@.parts,
    {
        &self.parts
    }

    /// One tick of motion: the head moves one cell along the heading, with
    /// wraparound, and every other segment takes the cell of the one ahead
    /// of it. Returns the cell the tail left.
    pub fn update(&mut self) -> (vacated: Pos)
        requires
            old(self)@.wf(),
        ensures
            final(self)@.wf(),
            final(self)@.dir == old(self)@.dir,
            final(self)@.field == old(self)@.field,
            final(self)@.parts.len() == old(self)@.parts.len(),
            forall|i: int|
                0 <= i < old(self)@.parts.len() ==> #[trigger] final(self)@.parts[i] == (Symbol {
                    pos: if i == 0 {
                        moved(old(self)@.head(), old(self)@.dir, old(self)@.field)
                    } else {
                        old(self)@.parts[i - 1].pos
                    },
                    ..old(self)@.parts[i]
                }),
            final(self)@.positions() == seq![moved(old(self)@.head(), old(self)@.dir, old(self)@.field)]
                + old(self)@.positions().drop_last(),
            vacated == old(self)@.positions().last(),
    {
        let ghost pre = self@;
        let len = self.parts.len();
        let mut new_pos = self.parts[0].get_pos();
        let mut head = self.parts[0];
        head.update(self.dir, self.field_size);
        self.parts.set(0, head);
        let mut i: usize = 1;
        while i < len
            invariant
                1 <= i <= len,
                len == self.parts.len(),
                len == pre.parts.len(),
                pre.wf(),
                self.dir == pre.dir,
                self.field_size == pre.field,
                new_pos == pre.parts[i - 1].pos,
                self@.parts[0] == (Symbol { pos: moved(pre.head(), pre.dir, pre.field), ..pre.parts[0] }),
                forall|j: int|
                    1 <= j < i ==> #[trigger] self@.parts[j] == (Symbol {
                        pos: pre.parts[j - 1].pos,
                        ..pre.parts[j]
                    }),
                forall|j: int| i <= j < len ==> #[trigger] self@.parts[j] == pre.parts[j],
            decreases len - i,
        {
            let ghost before = self@;
            let mut part = self.parts[i];
            assert(part@ == before.parts[i as int]);
            let prev = part.get_pos();
            part.set_pos(new_pos);
            self.parts.set(i, part);
            assert(self@.parts =~= before.parts.update(i as int, part@));
            new_pos = prev;
            i += 1;
        }
        proof {
            assert forall|j: int| 0 <= j < self@.parts.len() implies in_field(
                #[trigger] self@.parts[j].pos,
                self@.field,
            ) by {
                if j > 0 {
                    assert(in_field(pre.parts[j - 1].pos, pre.field));
                }
            }
            assert(self@.positions() =~= seq![moved(pre.head(), pre.dir, pre.field)]
                + pre.positions().drop_last());
        }
        new_pos
    }

    /// Turns toward `dir` unless that would reverse the snake.
    pub fn set_direction(&mut self, dir: Direction)
        ensures
            final(self)@ == (SnakeView { dir: turned(old(self)@.dir, dir), ..old(self)@ }),
    {
        if !self.dir.is_opposite(&dir) {
            self.dir = dir;
        }
        assert(self@.parts =~= old(self)@.parts);
    }

    /// Grows the snake by one segment, placed on the cell of the current
    /// tail; the next tick pulls it out behind.
    pub fn add_part(&mut self)
        requires
            old(self)@.wf(),
        ensures
            final(self)@ == (SnakeView {
                parts: old(self)@.parts.push(
                    Symbol { color: Color::DarkGreen, pos: old(self)@.positions().last(), ch: BODY_GLYPH },
                ),
                ..old(self)@
            }),
            final(self)@.wf(),
    {
        let last = self.parts[self.parts.len() - 1].get_pos();
        let part = SnakePart::new(Symbol::new(last).ch(BODY_GLYPH).color(Color::DarkGreen));
        self.parts.push(part);
        assert(self@.parts =~= old(self)@.parts.push(part@));
    }

    /// Whether the head ran into the snake's own body.
    pub fn check_self_eaten(&self) -> (r: bool)
        requires
            self@.wf(),
        ensures
            r == self@.self_eaten(),
    {
        let head = self.parts[0].get_pos();
        let mut i: usize = 2;
        while i < self.parts.len()
            invariant
                2 <= i,
                self@.wf(),
                head == self@.head(),
                forall|j: int| 2 <= j < i && j < self@.parts.len() ==> #[trigger] self@.parts[j].pos != head,
            decreases self.parts.len() - i,
        {
            if self.parts[i].get_pos() == head {
                assert(self@.parts[i as int].pos == head);
                return true;
            }
            i += 1;
        }
        false
    }

    /// Whether any segment, the head included, stands on `pos`.
    pub fn check_pos(&self, pos: &Pos) -> (r: bool)
        ensures
            r == self@.occupies(*pos),
    {
        let mut i: usize = 0;
        while i < self.parts.len()
            invariant
                forall|j: int| 0 <= j < i && j < self@.parts.len() ==> #[trigger] self@.parts[j].pos != *pos,
            decreases self.parts.len() - i,
        {
            if self.parts[i].get_pos() == *pos {
                assert(self@.parts[i as int].pos == *pos);
                return true;
            }
            i += 1;
        }
        false
    }

    pub fn get_head_pos(&self) -> (r: Pos)
        requires
            self@.wf(),
        ensures
            r == self@.head(),
    {
        self.parts[0].get_pos()
    }

    pub fn set_head_color(&mut self, color: Color)
        requires
            old(self)@.wf(),
        ensures
            final(self)@ == (SnakeView {
                parts: old(self)@.parts.update(0, Symbol { color, ..old(self)@.parts[0] }),
                ..old(self)@
            }),
            final(self)@.wf(),
    {
        let mut head = self.parts[0];
        head.set_color(color);
        self.parts.set(0, head);
        assert(self@.parts =~= old(self)@.parts.update(0, head@));
    }
}

/// The cell reached from `p` after `n` moves along `d`.
pub open spec fn moved_n(p: Pos, d: Direction, s: Size, n: nat) -> Pos
    decreases n,
{
    if n == 0 {
        p
    } else {
        moved(moved_n(p, d, s, (n - 1) as nat), d, s)
    }
}

/// How many moves along `d` go once around the field.
pub open spec fn lap(d: Direction, s: Size) -> nat {
    match d {
        Direction::Left | Direction::Right => s.width as nat,
        Direction::Up | Direction::Down => s.height as nat,
    }
}

/// Where `n` moves along `d` lead on a field that wraps around: the
/// coordinate along `d` advances by `n` modulo the field's extent.
pub open spec fn wound(p: Pos, d: Direction, s: Size, n: nat) -> Pos {
    match d {
        Direction::Right => Pos { x: (2 + (p.x - 2 + n) % (s.width as int)) as u16, y: p.y },
        Direction::Left => Pos { x: (2 + (p.x - 2 - n) % (s.width as int)) as u16, y: p.y },
        Direction::Down => Pos { x: p.x, y: (1 + (p.y - 1 + n) % (s.height as int)) as u16 },
        Direction::Up => Pos { x: p.x, y: (1 + (p.y - 1 - n) % (s.height as int)) as u16 },
    }
}

/// One step forward or backward on a cycle of length `w`.
proof fn lemma_mod_step(a: int, w: int)
    requires
        w > 0,
    ensures
        0 <= a % w < w,
        (a + 1) % w == (if a % w == w - 1 { 0 } else { a % w + 1 }),
        (a - 1) % w == (if a % w == 0 { w - 1 } else { a % w - 1 }),
{
    vstd::arithmetic::div_mod::lemma_fundamental_div_mod(a, w);
    vstd::arithmetic::div_mod::lemma_mod_bound(a, w);
    let q = a / w;
    let r = a % w;
    assert(w * q == q * w) by (nonlinear_arith);
    assert((q + 1) * w == q * w + w) by (nonlinear_arith);
    assert((q - 1) * w == q * w - w) by (nonlinear_arith);
    if r == w - 1 {
        vstd::arithmetic::div_mod::lemma_fundamental_div_mod_converse(a + 1, w, q + 1, 0);
    } else {
        vstd::arithmetic::div_mod::lemma_fundamental_div_mod_converse(a + 1, w, q, r + 1);
    }
    if r == 0 {
        vstd::arithmetic::div_mod::lemma_fundamental_div_mod_converse(a - 1, w, q - 1, w - 1);
    } else {
        vstd::arithmetic::div_mod::lemma_fundamental_div_mod_converse(a - 1, w, q, r - 1);
    }
}

proof fn lemma_moved_n_wound(p: Pos, d: Direction, s: Size, n: nat)
    requires
        field_ok(s),
        in_field(p, s),
    ensures
        moved_n(p, d, s, n) == wound(p, d, s, n),
        in_field(moved_n(p, d, s, n), s),
    decreases n,
{
    let w = s.width as int;
    let h = s.height as int;
    if n == 0 {
        vstd::arithmetic::div_mod::lemma_small_mod((p.x - 2) as nat, w as nat);
        vstd::arithmetic::div_mod::lemma_small_mod((p.y - 1) as nat, h as nat);
    } else {
        lemma_moved_n_wound(p, d, s, (n - 1) as nat);
        let m = (n - 1) as int;
        match d {
            Direction::Right => lemma_mod_step(p.x - 2 + m, w),
            Direction::Left => lemma_mod_step(p.x - 2 - m, w),
            Direction::Down => lemma_mod_step(p.y - 1 + m, h),
            Direction::Up => lemma_mod_step(p.y - 1 - m, h),
        }
    }
    match d {
        Direction::Right | Direction::Left => vstd::arithmetic::div_mod::lemma_mod_bound(
            if d == Direction::Right { p.x - 2 + n } else { p.x - 2 - n },
            w,
        ),
        Direction::Down | Direction::Up => vstd::arithmetic::div_mod::lemma_mod_bound(
            if d == Direction::Down { p.y - 1 + n } else { p.y - 1 - n },
            h,
        ),
    }
}

/// A turn onto the opposite of the heading leaves the heading as it is;
/// any other turn takes the snake where it asks.
pub proof fn lemma_reversal_ignored(d: Direction, e: Direction)
    ensures
        turned(d, opposite(d)) == d,
        e != opposite(d) ==> turned(d, e) == e,
{
}

/// A one-segment snake never runs into itself.
pub proof fn lemma_single_segment_not_self_eaten(s: SnakeView)
    requires
        s.parts.len() == 1,
    ensures
        !s.self_eaten(),
{
}

/// Wraparound is total: from any cell of the field, any number of moves
/// in one direction stays inside the field; a move off one edge comes back
/// in at the opposite edge; and a lap of the field's width or height ends
/// where it began.
pub proof fn lemma_wraparound_total(p: Pos, d: Direction, s: Size, n: nat)
    requires
        field_ok(s),
        in_field(p, s),
    ensures
        in_field(moved_n(p, d, s, n), s),
        moved_n(p, d, s, lap(d, s)) == p,
        d == Direction::Right && p.x == s.width + 1 ==> moved(p, d, s).x == 2,
        d == Direction::Left && p.x == 2 ==> moved(p, d, s).x == s.width + 1,
        d == Direction::Down && p.y == s.height ==> moved(p, d, s).y == 1,
        d == Direction::Up && p.y == 1 ==> moved(p, d, s).y == s.height,
{
    lemma_moved_n_wound(p, d, s, n);
    lemma_moved_n_wound(p, d, s, lap(d, s));
    let w = s.width as int;
    let h = s.height as int;
    match d {
        Direction::Right => {
            vstd::arithmetic::div_mod::lemma_fundamental_div_mod_converse(p.x - 2 + w, w, 1, p.x - 2);
        },
        Direction::Left => {
            vstd::arithmetic::div_mod::lemma_fundamental_div_mod_converse(p.x - 2 - w, w, -1, p.x - 2);
        },
        Direction::Down => {
            vstd::arithmetic::div_mod::lemma_fundamental_div_mod_converse(p.y - 1 + h, h, 1, p.y - 1);
        },
        Direction::Up => {
            vstd::arithmetic::div_mod::lemma_fundamental_div_mod_converse(p.y - 1 - h, h, -1, p.y - 1);
        },
    }
}

} // verus!
