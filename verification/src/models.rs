//! The chains that are known and the ways to solve an election.

use vstd::prelude::*;

verus! {

/// A chain whose elections can be read.
#[derive(Clone, Copy, Debug, PartialEq, Eq, Structural)]
pub enum Chain {
    Polkadot,
    Kusama,
    Substrate,
}

/// An election algorithm.
#[derive(Clone, Copy, Debug, PartialEq, Eq, Structural)]
pub enum Algorithm {
    /// Sequential Phragmen.
    SeqPhragmen,
    /// PhragMMS.
    Phragmms,
}

} // verus!
