use vstd::prelude::*;
use crate::dimensions::Pos;

verus! {

/// crossterm's terminal color; its variants carry only bytes, so the
/// library names colors directly and hands them to the renderer unread.
#[verifier::external_type_specification]
pub struct ExColor(crossterm::style::Color);

/// One glyph of the field: where it stands, which character, which color.
#[derive(Clone, Copy)]
pub struct Symbol {
    pub color: crossterm::style::Color,
    pub pos: Pos,
    pub ch: char,
}

impl Symbol {
    /// A blank white cell at `pos`: drawing it clears that cell.
    pub fn new(pos: Pos) -> (r: Symbol)
        ensures
            r == (Symbol { color: crossterm::style::Color::White, pos, ch: ' ' }),
    {
        Symbol { color: crossterm::style::Color::White, pos, ch: ' ' }
    }

    pub fn color(self, color: crossterm::style::Color) -> (r: Symbol)
        ensures
            r == (Symbol { color, ..self }),
    {
        Symbol { color, ..self }
    }

    pub fn ch(self, ch: char) -> (r: Symbol)
        ensures
            r == (Symbol { ch, ..self }),
    {
        Symbol { ch, ..self }
    }
}

} // verus!
