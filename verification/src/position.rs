//! Coordinate translation between the editor's 0-based line convention
//! and the 1-based convention used by one family of analysis backends.
//!
//! This module is the single authority for conversion: no other
//! component may assume a convention.

use vstd::prelude::*;

verus! {

/// The line-numbering convention a provider speaks: the editor/client
/// side's 0-based convention, or the 1-based convention of one backend
/// family. Columns are 0-based under both.
#[derive(Clone, Copy, Debug, PartialEq, Eq, Structural)]
pub enum Convention {
    ZeroBased,
    OneBased,
}

/// A position in a source file: a file path, a line and a column.
///
/// The editor/client side speaks a 0-based line convention; one backend
/// family speaks a 1-based line convention. Columns are 0-based on both
/// sides and are never adjusted.
#[derive(Clone, Debug, PartialEq, Eq)]
pub struct Position {
    pub filepath: String,
    pub line: usize,
    pub col: usize,
}

/// What the backend's position convention translated to: the line moved
/// up by one, the file path and column untouched.
pub open spec fn spec_to_backend(p: Position) -> Position {
    Position { filepath: p.filepath, line: (p.line + 1) as usize, col: p.col }
}

/// What the client's position convention translated to: the line moved
/// down by one (lines already at zero stay at zero), the file path and
/// column untouched.
pub open spec fn spec_to_client(p: Position) -> Position {
    if p.line > 0 {
        Position { filepath: p.filepath, line: (p.line - 1) as usize, col: p.col }
    } else {
        p
    }
}

/// Translates a client-convention (0-based line) position into the
/// 1-based backend convention by incrementing the line; the column is
/// convention-stable and passes through unchanged.
pub fn to_backend_convention(p: Position) -> (r: Position)
    requires
        p.line < usize::MAX,
    ensures
        r == spec_to_backend(p),
{
    Position { filepath: p.filepath, line: p.line + 1, col: p.col }
}

/// Translates a backend-convention (1-based line) position back into
/// the 0-based client convention by decrementing the line; the column
/// passes through unchanged.
pub fn to_client_convention(p: Position) -> (r: Position)
    ensures
        r == spec_to_client(p),
{
    if p.line > 0 {
        Position { filepath: p.filepath, line: p.line - 1, col: p.col }
    } else {
        p
    }
}

/// What a request position looks like at a provider's boundary: under
/// the provider's own 0-based convention it passes through unchanged;
/// a 1-based provider receives it translated into its convention.
pub open spec fn spec_position_for_provider(p: Position, convention: Convention) -> Position {
    match convention {
        Convention::ZeroBased => p,
        Convention::OneBased => spec_to_backend(p),
    }
}

/// Translates a client-convention request position into the convention
/// a provider speaks, before the request crosses that provider's
/// boundary.
pub fn position_for_provider(p: Position, convention: Convention) -> (r: Position)
    requires
        convention is OneBased ==> p.line < usize::MAX,
    ensures
        r == spec_position_for_provider(p, convention),
{
    match convention {
        Convention::ZeroBased => p,
        Convention::OneBased => to_backend_convention(p),
    }
}

/// What a provider's response position looks like once it has crossed
/// back into the client convention: a 0-based provider's position
/// passes through; a 1-based provider's position is translated down.
pub open spec fn spec_position_from_provider(p: Position, convention: Convention) -> Position {
    match convention {
        Convention::ZeroBased => p,
        Convention::OneBased => spec_to_client(p),
    }
}

/// Translates a position in a provider's response back into the
/// client convention, before the response reaches the caller.
pub fn position_from_provider(p: Position, convention: Convention) -> (r: Position)
    ensures
        r == spec_position_from_provider(p, convention),
{
    match convention {
        Convention::ZeroBased => p,
        Convention::OneBased => to_client_convention(p),
    }
}

/// Round-trip law: translating a position into the backend convention
/// and back yields the original position; the line survives the round
/// trip and the column is untouched.
pub proof fn lemma_convention_round_trip(p: Position)
    requires
        p.line < usize::MAX,
    ensures
        spec_to_client(spec_to_backend(p)) == p,
{
}

} // verus!
