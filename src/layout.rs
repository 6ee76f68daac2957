use vstd::prelude::*;
use crate::dimensions::{Size, field_ok};
use crate::error::SnakeError;

verus! {

/// The fewest columns a terminal needs for the game.
pub const MINIMUM_WIDTH: u16 = 80;

/// The fewest rows a terminal needs for the game.
pub const MINIMUM_HEIGHT: u16 = 14;

/// The playing field that a terminal of `terminal_size` leaves beside the
/// side panels: 27 columns and 12 rows at the minimum size, and every
/// further column or row goes to the field.
pub fn field_size_for(terminal_size: Size) -> (r: Result<Size, SnakeError>)
    ensures
        r is Err <==> terminal_size.width < MINIMUM_WIDTH || terminal_size.height < MINIMUM_HEIGHT,
        r is Err ==> (r matches Err(SnakeError::Dimension(w, h)) && w == MINIMUM_WIDTH && h
            == MINIMUM_HEIGHT),
        r matches Ok(s) ==> s == (Size {
            width: (27 + (terminal_size.width - MINIMUM_WIDTH)) as u16,
            height: (12 + (terminal_size.height - MINIMUM_HEIGHT)) as u16,
        }) && field_ok(s) && s.width >= 2,
{
    if terminal_size.width < MINIMUM_WIDTH || terminal_size.height < MINIMUM_HEIGHT {
        return Err(SnakeError::Dimension(MINIMUM_WIDTH, MINIMUM_HEIGHT));
    }
    Ok(Size {
        width: 27 + (terminal_size.width - MINIMUM_WIDTH),
        height: 12 + (terminal_size.height - MINIMUM_HEIGHT),
    })
}

} // verus!
