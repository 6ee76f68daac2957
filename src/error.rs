use vstd::prelude::*;

verus! {

/// std's I/O error, carried unread inside `SnakeError::Parse`.
#[verifier::external_type_specification]
#[verifier::external_body]
pub struct ExIoError(std::io::Error);

/// Why a game could not start or go on.
#[derive(Debug)]
pub enum SnakeError {
    /// The terminal is smaller than the given columns and rows.
    Dimension(u16, u16),
    /// The terminal failed a read or a write.
    Parse(std::io::Error),
}

impl From<std::io::Error> for SnakeError {
    fn from(err: std::io::Error) -> (r: SnakeError) {
        SnakeError::Parse(err)
    }
}

impl vstd::std_specs::convert::FromSpecImpl<std::io::Error> for SnakeError {
    open spec fn obeys_from_spec() -> bool {
        true
    }

    open spec fn from_spec(err: std::io::Error) -> SnakeError {
        SnakeError::Parse(err)
    }
}

} // verus!
