//! The game model that input logs are planned against: the piece randomizer
//! and the state of a game at its start.
use vstd::prelude::*;

pub mod piece;

pub use piece::{Piece, PieceState, RotationState};

verus! {

/// Rows of the game field, including those above the visible part.
pub const FIELD_ROWS: usize = 40;

/// Rolls of the random number generator made at the start of a game, before the first piece.
pub const WARMUP_ROLLS: u32 = 1987;

/// The frames that a new game waits before the first piece spawns.
pub const SPAWN_DELAY: u32 = 5;

/// One step of the game's linear congruential generator, modulo 2^32.
pub open spec fn roll_spec(rng: u32) -> u32 {
    ((((rng as int * 0x5D588B65) % 0x1_0000_0000) + 0x269EC3) % 0x1_0000_0000) as u32
}

/// `n` steps of the generator from `rng`.
pub open spec fn rolls(rng: u32, n: nat) -> u32
    decreases n,
{
    if n == 0 {
        rng
    } else {
        roll_spec(rolls(rng, (n - 1) as nat))
    }
}

pub fn roll(rng: u32) -> (r: u32)
    ensures
        r == roll_spec(rng),
{
    rng.wrapping_mul(0x5D588B65).wrapping_add(0x269EC3)
}

/// The seven-piece bag randomizer of the game.
#[derive(Copy, Clone, Debug, Eq, PartialEq, Hash)]
pub struct PieceGenerator {
    pub rng: u32,
    /// How many pieces of the current bag have been dealt.
    pub index: u8,
    pub bag: [Piece; 7],
}

/// The bag in the order it is refilled, before any swap.
pub open spec fn fresh_bag() -> Seq<Piece> {
    seq![Piece::S, Piece::Z, Piece::J, Piece::L, Piece::T, Piece::O, Piece::I]
}

/// The bag position that a roll of `rng` swaps into place when `dealt` pieces
/// of the bag are out.
pub open spec fn pick(rng: u32, dealt: u8) -> int {
    (((rng >> 16u32) as int * (7 - dealt)) as u32 >> ((16 + dealt) as u32)) as int
}

impl PieceGenerator {
    pub open spec fn wf(self) -> bool {
        self.index <= 7
    }

    /// How many pieces of the bag are out before a draw: a full bag is refilled first.
    pub open spec fn dealt_before_draw(self) -> u8 {
        if self.index == 7 { 0u8 } else { self.index }
    }

    /// The piece that one draw deals.
    pub open spec fn next_piece(self) -> Piece {
        self.next_bag()[self.dealt_before_draw() as int]
    }

    /// The bag after one draw.
    pub open spec fn next_bag(self) -> Seq<Piece> {
        let index = self.dealt_before_draw();
        let bag = if self.index == 7 { fresh_bag() } else { self.bag@ };
        let j = pick(roll_spec(self.rng), index);
        bag.update(index as int, bag[j]).update(j, bag[index as int])
    }

    /// A generator seeded with `seed`: the generator rolled as many times as a
    /// game does before its first piece, with an empty bag.
    pub fn new(seed: u32) -> (r: Self)
        ensures
            r.wf(),
            r.rng == rolls(seed, WARMUP_ROLLS as nat),
            r.index == 7,
            r.bag@ == Seq::new(7, |i: int| Piece::S),
    {
        let mut rng = seed;
        let mut i: u32 = 0;
        while i < WARMUP_ROLLS
            invariant
                i <= WARMUP_ROLLS,
                rng == rolls(seed, i as nat),
            decreases WARMUP_ROLLS - i,
        {
            rng = roll(rng);
            i = i + 1;
        }
        let r = PieceGenerator { rng, index: 7, bag: [Piece::S; 7] };
        assert(r.bag@ == Seq::new(7, |i: int| Piece::S));
        r
    }

    /// Deals the next piece, refilling the bag when all seven are out.
    pub fn next(&mut self) -> (r: Piece)
        requires
            old(self).wf(),
        ensures
            final(self).wf(),
            final(self).rng == roll_spec(old(self).rng),
            final(self).index == old(self).dealt_before_draw() + 1,
            final(self).bag@ == old(self).next_bag(),
            r == old(self).next_piece(),
    {
        if self.index == 7 {
            self.index = 0;
            self.bag = [Piece::S, Piece::Z, Piece::J, Piece::L, Piece::T, Piece::O, Piece::I];
            assert(self.bag@ == fresh_bag());
        }
        self.rng = roll(self.rng);
        let rng = self.rng;
        let dealt = self.index;
        let high = rng >> 16u32;
        assert(high <= 0xFFFF) by (bit_vector)
            requires
                high == rng >> 16u32,
        ;
        assert(dealt < 7);
        assert(high * (7 - dealt as u32) < 458752) by (nonlinear_arith)
            requires
                high <= 0xFFFF,
                dealt < 7,
        ;
        let product = high * (7 - dealt as u32);
        let shift = 16 + dealt as u32;
        let j = product >> shift;
        assert(j <= 6) by (bit_vector)
            requires
                product < 458752u32,
                16u32 <= shift < 23u32,
                j == product >> shift,
        ;
        let i = dealt as usize;
        let a = self.bag[i];
        let b = self.bag[j as usize];
        self.bag[i] = b;
        self.bag[j as usize] = a;
        let piece = self.bag[i];
        self.index = self.index + 1;
        piece
    }
}

/// What the game is doing between frames.
#[derive(Copy, Clone, Debug, Eq, PartialEq, Hash)]
pub enum GameState {
    SpawnDelay(u32),
    LineClearDelay(u32),
    FallingPiece(FallingPiece),
}

/// A piece under the player's control, with its timers.
#[derive(Copy, Clone, Debug, Eq, PartialEq, Hash)]
pub struct FallingPiece {
    pub piece: PieceState,
    pub gravity: u32,
    pub lock_delay: u32,
    pub last_frame_was_movement: bool,
    pub lowest_y: i32,
    pub rotations: u32,
    pub rotations_movements: u32,
}

/// The whole state of a game.
#[derive(Clone, Debug, Eq, PartialEq, Hash)]
pub struct State {
    pub field: Vec<[Option<Piece>; 10]>,
    pub hold: Option<Piece>,
    pub hold_is_high: bool,
    pub state: GameState,
    pub time: u32,
    pub score: u32,
    pub lines: u32,
    pub left_das: u32,
    pub right_das: u32,
    pub line_clear_points: Option<(u32, u32)>,
    pub pc_points: Option<(u32, u32)>,
    pub piece_generator: PieceGenerator,
}

impl State {
    /// A game seeded with `seed` at its very start: an empty field of forty
    /// rows, nothing held, no score, and the first piece about to spawn.
    pub fn new(seed: u32) -> (r: State)
        ensures
            r.field@.len() == FIELD_ROWS,
            forall|y: int, x: int|
                0 <= y < FIELD_ROWS && 0 <= x < 10 ==> #[trigger] r.field@[y]@[x] is None,
            r.hold is None,
            !r.hold_is_high,
            r.state == GameState::SpawnDelay(SPAWN_DELAY),
            r.time == 0,
            r.score == 0,
            r.lines == 0,
            r.left_das == 0,
            r.right_das == 0,
            r.line_clear_points is None,
            r.pc_points is None,
            r.piece_generator.wf(),
            r.piece_generator.rng == rolls(seed, WARMUP_ROLLS as nat),
            r.piece_generator.index == 7,
            r.piece_generator.bag@ == Seq::new(7, |i: int| Piece::S),
    {
        let mut field: Vec<[Option<Piece>; 10]> = Vec::new();
        let mut y: usize = 0;
        while y < FIELD_ROWS
            invariant
                y <= FIELD_ROWS,
                field@.len() == y,
                forall|k: int, x: int| 0 <= k < y && 0 <= x < 10 ==> #[trigger] field@[k]@[x] is None,
            decreases FIELD_ROWS - y,
        {
            let row: [Option<Piece>; 10] = [None; 10];
            assert(forall|x: int| 0 <= x < 10 ==> #[trigger] row@[x] is None);
            field.push(row);
            y = y + 1;
        }
        State {
            field,
            hold: None,
            hold_is_high: false,
            state: GameState::SpawnDelay(SPAWN_DELAY),
            time: 0,
            score: 0,
            lines: 0,
            left_das: 0,
            right_das: 0,
            line_clear_points: None,
            pc_points: None,
            piece_generator: PieceGenerator::new(seed),
        }
    }
}

} // verus!
