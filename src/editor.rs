//! The editing model of an input log: a seed, the frames recorded so far, and
//! the pieces that the seed deals.
use vstd::prelude::*;
use crate::gameplay::{Piece, PieceGenerator, State, WARMUP_ROLLS, rolls};

verus! {

/// The buttons held on one frame, as the bitmask that the input site reads.
#[derive(Copy, Clone, Debug, Eq, PartialEq, Hash)]
pub struct Input {
    pub bits: u8,
}

/// One recorded frame: its input and, once simulated, the game state after it.
#[derive(Clone, Debug)]
pub struct Frame {
    pub input: Input,
    pub state: Option<State>,
}

#[derive(Clone, Debug)]
pub struct TasEditor {
    pub seed: u32,
    pub frames: Vec<Frame>,
    pub pieces: Vec<Piece>,
    pub generator: PieceGenerator,
}

impl TasEditor {
    /// An empty log for a game seeded with `seed`.
    pub fn new(seed: u32) -> (r: Self)
        ensures
            r.seed == seed,
            r.frames@.len() == 0,
            r.pieces@.len() == 0,
            r.generator.wf(),
            r.generator.rng == rolls(seed, WARMUP_ROLLS as nat),
            r.generator.index == 7,
            r.generator.bag@ == Seq::new(7, |i: int| Piece::S),
    {
        TasEditor { seed, frames: Vec::new(), pieces: Vec::new(), generator: PieceGenerator::new(seed) }
    }
}

} // verus!
