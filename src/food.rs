use vstd::prelude::*;
use crate::dimensions::{Pos, Size, field_ok, in_field};
use crate::random::random_in;
use crate::symbol::Symbol;
use crossterm::style::Color;

verus! {

/// Glyph of both kinds of apple.
pub const APPLE_GLYPH: char = '\u{25c9}';

/// Glyph of a brick.
pub const BRICK_GLYPH: char = '\u{25ac}';

/// How many random cells a placement draws before it scans the field.
pub const PLACEMENT_DRAWS: u32 = 1000;

#[derive(Clone, Copy, Debug, PartialEq, Eq, Structural)]
pub enum FoodType {
    GreenApple,
    GoldApple,
    Brick,
}

/// Points for eating an item of kind `t`; a brick is worth nothing and ends the run.
pub open spec fn value_of(t: FoodType) -> u16 {
    match t {
        FoodType::GreenApple => 10,
        FoodType::GoldApple => 20,
        FoodType::Brick => 0,
    }
}

pub open spec fn is_edible(t: FoodType) -> bool {
    t != FoodType::Brick
}

/// An item on the field: an apple to eat, or a brick to avoid.
#[derive(Clone, Copy, Debug, PartialEq, Eq, Structural)]
pub struct Food {
    pub kind: FoodType,
    pub pos: Pos,
}

impl Food {
    pub fn new(kind: FoodType, pos: Pos) -> (r: Food)
        ensures
            r == (Food { kind, pos }),
    {
        Food { kind, pos }
    }

    pub fn get_symbol(&self) -> (r: Symbol)
        ensures
            r.pos == self.pos,
            r.ch == (if self.kind == FoodType::Brick { BRICK_GLYPH } else { APPLE_GLYPH }),
            r.color == match self.kind {
                FoodType::GreenApple => Color::Green,
                FoodType::GoldApple => Color::Yellow,
                FoodType::Brick => Color::Red,
            },
    {
        match self.kind {
            FoodType::GreenApple => Symbol::new(self.pos).ch(APPLE_GLYPH).color(Color::Green),
            FoodType::GoldApple => Symbol::new(self.pos).ch(APPLE_GLYPH).color(Color::Yellow),
            FoodType::Brick => Symbol::new(self.pos).ch(BRICK_GLYPH).color(Color::Red),
        }
    }

    pub fn get_value(&self) -> (r: u16)
        ensures
            r == value_of(self.kind),
    {
        match self.kind {
            FoodType::GreenApple => 10,
            FoodType::GoldApple => 20,
            FoodType::Brick => 0,
        }
    }

    pub fn get_pos(&self) -> (r: Pos)
        ensures
            r == self.pos,
    {
        self.pos
    }

    pub fn get_type(&self) -> (r: FoodType)
        ensures
            r == self.kind,
    {
        self.kind
    }
}

/// An item of kind `food_type` at the origin, as the legend shows it.
pub fn get_food_with_type(food_type: FoodType) -> (r: Food)
    ensures
        r == (Food { kind: food_type, pos: Pos { x: 0, y: 0 } }),
{
    Food { kind: food_type, pos: Pos { x: 0, y: 0 } }
}

/// The kind of apple that a fair coin `coin` in `0 ..= 1` picks.
pub fn apple_for_coin(coin: u16) -> (r: FoodType)
    ensures
        r == (if coin == 0 { FoodType::GreenApple } else { FoodType::GoldApple }),
{
    if coin == 0 {
        FoodType::GreenApple
    } else {
        FoodType::GoldApple
    }
}

/// A cell of the field drawn uniformly at random.
fn random_cell(field_size: &Size) -> (r: Pos)
    requires
        field_ok(*field_size),
    ensures
        in_field(r, *field_size),
{
    let x = random_in(2, field_size.width + 1);
    let y = random_in(1, field_size.height);
    Pos { x, y }
}

/// A kind for a new item: a brick, or an apple picked by a coin flip.
pub(crate) fn random_kind(edible: bool) -> (r: FoodType)
    ensures
        is_edible(r) == edible,
{
    if edible {
        apple_for_coin(random_in(0, 1))
    } else {
        FoodType::Brick
    }
}

/// A new item in the field, in neither the row nor the column of
/// `snake_pos`: an apple when `edible`, a brick otherwise.
pub fn generate_food(field_size: &Size, edible: bool, snake_pos: &Pos) -> (r: Food)
    requires
        field_ok(*field_size),
        field_size.width >= 2,
        field_size.height >= 2,
    ensures
        in_field(r.pos, *field_size),
        r.pos.x != snake_pos.x,
        r.pos.y != snake_pos.y,
        is_edible(r.kind) == edible,
{
    let mut draws: u32 = 0;
    let mut pos = Pos { x: if snake_pos.x == 2 { 3 } else { 2 }, y: if snake_pos.y == 1 { 2 } else { 1 } };
    while draws < PLACEMENT_DRAWS
        invariant
            field_ok(*field_size),
            in_field(pos, *field_size),
            pos.x != snake_pos.x,
            pos.y != snake_pos.y,
        decreases PLACEMENT_DRAWS - draws,
    {
        let candidate = random_cell(field_size);
        if !candidate.is_overlaps(snake_pos) {
            pos = candidate;
            break;
        }
        draws += 1;
    }
    Food { kind: random_kind(edible), pos }
}

/// Whether `p` is one of the `occupied` cells.
pub fn is_occupied(occupied: &Vec<Pos>, p: &Pos) -> (r: bool)
    ensures
        r == occupied@.contains(*p),
{
    let mut i: usize = 0;
    while i < occupied.len()
        invariant
            forall|j: int| 0 <= j < i && j < occupied@.len() ==> occupied@[j] != *p,
        decreases occupied.len() - i,
    {
        if occupied[i] == *p {
            assert(occupied@[i as int] == *p);
            return true;
        }
        i += 1;
    }
    false
}

/// The first free cell of the field, column by column, or `None` when
/// every cell is occupied.
fn first_free(field_size: &Size, occupied: &Vec<Pos>) -> (r: Option<Pos>)
    requires
        field_ok(*field_size),
    ensures
        r matches Some(p) ==> in_field(p, *field_size) && !occupied@.contains(p),
        r is None ==> forall|p: Pos| in_field(p, *field_size) ==> occupied@.contains(p),
{
    let mut x: u16 = 2;
    while x <= field_size.width + 1
        invariant
            field_ok(*field_size),
            2 <= x <= field_size.width + 2,
            forall|p: Pos| in_field(p, *field_size) && p.x < x ==> occupied@.contains(p),
        decreases field_size.width + 2 - x,
    {
        let mut y: u16 = 1;
        while y <= field_size.height
            invariant
                field_ok(*field_size),
                2 <= x <= field_size.width + 1,
                1 <= y <= field_size.height + 1,
                forall|p: Pos| in_field(p, *field_size) && p.x < x ==> occupied@.contains(p),
                forall|p: Pos| in_field(p, *field_size) && p.x == x && p.y < y ==> occupied@.contains(p),
            decreases field_size.height + 1 - y,
        {
            let p = Pos { x, y };
            if !is_occupied(occupied, &p) {
                return Some(p);
            }
            y += 1;
        }
        x += 1;
    }
    None
}

/// Rejection sampling: draws random cells of the field until one is not
/// `occupied`. After `PLACEMENT_DRAWS` rejected draws it scans the field
/// instead, so it returns `None` exactly when every cell is occupied.
pub fn place(field_size: &Size, occupied: &Vec<Pos>) -> (r: Option<Pos>)
    requires
        field_ok(*field_size),
    ensures
        r matches Some(p) ==> in_field(p, *field_size) && !occupied@.contains(p),
        r is None ==> forall|p: Pos| in_field(p, *field_size) ==> occupied@.contains(p),
{
    let mut draws: u32 = 0;
    while draws < PLACEMENT_DRAWS
        invariant
            field_ok(*field_size),
        decreases PLACEMENT_DRAWS - draws,
    {
        let candidate = random_cell(field_size);
        if !is_occupied(occupied, &candidate) {
            return Some(candidate);
        }
        draws += 1;
    }
    first_free(field_size, occupied)
}

/// The number of cells in the field.
pub open spec fn area(s: Size) -> int {
    s.width * s.height
}

/// A sequence that holds every cell of the field has at least as many
/// entries as the field has cells.
pub proof fn lemma_cover_len(s: Size, cells: Seq<Pos>)
    requires
        field_ok(s),
        forall|p: Pos| in_field(p, s) ==> cells.contains(p),
    ensures
        area(s) <= cells.len(),
{
    let w = s.width as int;
    let h = s.height as int;
    let index = |p: Pos| (p.x - 2) * h + (p.y - 1);
    let indices = cells.map_values(index);
    let image = indices.to_set();
    assert(w * h >= 0) by (nonlinear_arith)
        requires
            w >= 1,
            h >= 1,
    ;
    assert forall|k: int| vstd::set_lib::set_int_range(0, w * h).contains(k) implies image.contains(
        k,
    ) by {
        vstd::arithmetic::div_mod::lemma_fundamental_div_mod(k, h);
        vstd::arithmetic::div_mod::lemma_mod_bound(k, h);
        vstd::arithmetic::div_mod::lemma_div_is_ordered(0, k, h);
        vstd::arithmetic::div_mod::lemma_div_basics(h);
        vstd::arithmetic::div_mod::lemma_multiply_divide_lt(k, h, w);
        let q = k / h;
        let r = k % h;
        let p = Pos { x: (2 + q) as u16, y: (1 + r) as u16 };
        assert(in_field(p, s));
        assert(cells.contains(p));
        let i = choose|i: int| 0 <= i < cells.len() && cells[i] == p;
        assert(h * q == q * h) by (nonlinear_arith);
        assert(indices[i] == k);
    }
    vstd::set_lib::lemma_int_range(0, w * h);
    indices.lemma_cardinality_of_set();
    vstd::seq_lib::seq_to_set_is_finite(indices);
    vstd::set_lib::lemma_len_subset(vstd::set_lib::set_int_range(0, w * h), image);
}

} // verus!
