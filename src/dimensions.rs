use vstd::prelude::*;

verus! {

/// A cell of the terminal grid: column `x`, row `y`.
#[derive(Clone, Copy, Debug, PartialEq, Eq, Structural)]
pub struct Pos {
    pub x: u16,
    pub y: u16,
}

/// The interior of the playing field, border excluded.
#[derive(Clone, Copy, Debug, PartialEq, Eq, Structural)]
pub struct Size {
    pub width: u16,
    pub height: u16,
}

/// A field whose interior is non-empty and whose border columns and rows
/// still fit in a `u16` coordinate.
pub open spec fn field_ok(s: Size) -> bool {
    1 <= s.width <= u16::MAX - 2 && 1 <= s.height <= u16::MAX - 1
}

/// The interior cells: columns `2 ..= width + 1`, rows `1 ..= height`.
/// Column 1, column `width + 2`, row 0 and row `height + 1` hold the border.
pub open spec fn in_field(p: Pos, s: Size) -> bool {
    2 <= p.x <= s.width + 1 && 1 <= p.y <= s.height
}

/// A position at most one cell outside the interior on each axis.
pub open spec fn near_field(p: Pos, s: Size) -> bool {
    1 <= p.x <= s.width + 2 && p.y <= s.height + 1
}

/// Teleports a coordinate that stepped onto the border to the opposite edge.
pub open spec fn wrapped(p: Pos, s: Size) -> Pos {
    Pos {
        x: if p.x == 1 {
            (s.width + 1) as u16
        } else if p.x == s.width + 2 {
            2
        } else {
            p.x
        },
        y: if p.y == 0 {
            s.height
        } else if p.y == s.height + 1 {
            1
        } else {
            p.y
        },
    }
}

/// Wraparound of the field: a position that moved one cell out of the
/// interior re-enters it at the opposite edge; any other is kept.
pub fn wrap(pos: Pos, size: Size) -> (r: Pos)
    requires
        field_ok(size),
        near_field(pos, size),
    ensures
        r == wrapped(pos, size),
        in_field(r, size),
{
    let mut r = pos;
    if r.x == size.width + 2 {
        r.x = 2;
    } else if r.x == 1 {
        r.x = size.width + 1;
    }
    if r.y == 0 {
        r.y = size.height;
    } else if r.y == size.height + 1 {
        r.y = 1;
    }
    r
}

impl Pos {
    pub fn add_x(self, x: u16) -> (r: Pos)
        requires
            self.x + x <= u16::MAX,
        ensures
            r == (Pos { x: (self.x + x) as u16, y: self.y }),
    {
        Pos { x: self.x + x, y: self.y }
    }

    pub fn add_y(self, y: u16) -> (r: Pos)
        requires
            self.y + y <= u16::MAX,
        ensures
            r == (Pos { x: self.x, y: (self.y + y) as u16 }),
    {
        Pos { x: self.x, y: self.y + y }
    }

    /// Whether the two positions share a column or a row.
    pub fn is_overlaps(&self, pos: &Self) -> (r: bool)
        ensures
            r == (self.x == pos.x || self.y == pos.y),
    {
        self.x == pos.x || self.y == pos.y
    }
}

impl From<(u16, u16)> for Pos {
    fn from(pos: (u16, u16)) -> (r: Pos) {
        Pos { x: pos.0, y: pos.1 }
    }
}

impl vstd::std_specs::convert::FromSpecImpl<(u16, u16)> for Pos {
    open spec fn obeys_from_spec() -> bool {
        true
    }

    open spec fn from_spec(pos: (u16, u16)) -> Pos {
        Pos { x: pos.0, y: pos.1 }
    }
}

impl Size {
    pub fn add_width(self, width: u16) -> (r: Size)
        requires
            self.width + width <= u16::MAX,
        ensures
            r == (Size { width: (self.width + width) as u16, height: self.height }),
    {
        Size { width: self.width + width, height: self.height }
    }

    pub fn add_height(self, height: u16) -> (r: Size)
        requires
            self.height + height <= u16::MAX,
        ensures
            r == (Size { width: self.width, height: (self.height + height) as u16 }),
    {
        Size { width: self.width, height: self.height + height }
    }
}

impl From<(u16, u16)> for Size {
    fn from(size: (u16, u16)) -> (r: Size) {
        Size { width: size.0, height: size.1 }
    }
}

impl vstd::std_specs::convert::FromSpecImpl<(u16, u16)> for Size {
    open spec fn obeys_from_spec() -> bool {
        true
    }

    open spec fn from_spec(size: (u16, u16)) -> Size {
        Size { width: size.0, height: size.1 }
    }
}

} // verus!
