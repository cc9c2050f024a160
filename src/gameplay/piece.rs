//! Pieces, their orientations, and rotation with wall kicks on a field of ten
//! columns and forty rows.
use vstd::prelude::*;

verus! {

#[derive(Copy, Clone, Debug, Eq, PartialEq, Hash)]
pub enum Piece {
    S,
    Z,
    J,
    L,
    T,
    O,
    I,
}

#[derive(Copy, Clone, Debug, Eq, PartialEq, Hash)]
pub enum RotationState {
    North,
    East,
    South,
    West,
}

/// A piece in a given orientation, with its centre at `(x, y)`.
#[derive(Copy, Clone, Debug, Eq, PartialEq, Hash)]
pub struct PieceState {
    pub kind: Piece,
    pub state: RotationState,
    pub x: i32,
    pub y: i32,
}

/// Rows of the field, from the bottom.
pub const FIELD_HEIGHT: i32 = 40;

/// Columns of the field.
pub const FIELD_WIDTH: i32 = 10;

pub open spec fn kind_index(k: Piece) -> int {
    match k {
        Piece::S => 0,
        Piece::Z => 1,
        Piece::J => 2,
        Piece::L => 3,
        Piece::T => 4,
        Piece::O => 5,
        Piece::I => 6,
    }
}

pub open spec fn state_index(s: RotationState) -> int {
    match s {
        RotationState::North => 0,
        RotationState::East => 1,
        RotationState::South => 2,
        RotationState::West => 3,
    }
}

/// The row of the shape and offset tables for a piece kind in an orientation.
pub open spec fn table_row(k: Piece, s: RotationState) -> int {
    kind_index(k) * 4 + state_index(s)
}

pub open spec fn clockwise(s: RotationState) -> RotationState {
    match s {
        RotationState::North => RotationState::East,
        RotationState::East => RotationState::South,
        RotationState::South => RotationState::West,
        RotationState::West => RotationState::North,
    }
}

pub open spec fn counter_clockwise(s: RotationState) -> RotationState {
    match s {
        RotationState::North => RotationState::West,
        RotationState::West => RotationState::South,
        RotationState::South => RotationState::East,
        RotationState::East => RotationState::North,
    }
}

/// A cell that is outside the field or already taken.
pub open spec fn blocked(field: Seq<[Option<Piece>; 10]>, x: int, y: int) -> bool {
    y < 0 || y >= FIELD_HEIGHT || x < 0 || x >= FIELD_WIDTH || field[y]@[x] is Some
}

/// The four cells of each piece in each orientation, relative to its centre;
/// row `4 * kind + orientation`, kinds in the order S, Z, J, L, T, O, I.
pub open spec fn shape_table(i: int) -> Seq<(int, int)> {
    if i == 0 {
        seq![(-1, 0), (0, 0), (0, 1), (1, 1)]
    } else if i == 1 {
        seq![(0, 1), (0, 0), (1, 0), (1, -1)]
    } else if i == 2 {
        seq![(1, 0), (0, 0), (0, -1), (-1, -1)]
    } else if i == 3 {
        seq![(0, -1), (0, 0), (-1, 0), (-1, 1)]
    } else if i == 4 {
        seq![(1, 0), (0, 0), (0, 1), (-1, 1)]
    } else if i == 5 {
        seq![(0, -1), (0, 0), (1, 0), (1, 1)]
    } else if i == 6 {
        seq![(-1, 0), (0, 0), (0, -1), (1, -1)]
    } else if i == 7 {
        seq![(0, 1), (0, 0), (-1, 0), (-1, -1)]
    } else if i == 8 {
        seq![(-1, 1), (-1, 0), (0, 0), (1, 0)]
    } else if i == 9 {
        seq![(1, 1), (0, 1), (0, 0), (0, -1)]
    } else if i == 10 {
        seq![(1, -1), (1, 0), (0, 0), (-1, 0)]
    } else if i == 11 {
        seq![(-1, -1), (0, -1), (0, 0), (0, 1)]
    } else if i == 12 {
        seq![(-1, 0), (0, 0), (1, 0), (1, 1)]
    } else if i == 13 {
        seq![(0, 1), (0, 0), (0, -1), (1, -1)]
    } else if i == 14 {
        seq![(1, 0), (0, 0), (-1, 0), (-1, -1)]
    } else if i == 15 {
        seq![(0, -1), (0, 0), (0, 1), (-1, 1)]
    } else if i == 16 {
        seq![(0, 0), (-1, 0), (0, 1), (1, 0)]
    } else if i == 17 {
        seq![(0, 0), (0, 1), (1, 0), (0, -1)]
    } else if i == 18 {
        seq![(0, 0), (1, 0), (0, -1), (-1, 0)]
    } else if i == 19 {
        seq![(0, 0), (0, -1), (-1, 0), (0, 1)]
    } else if i == 20 {
        seq![(0, 0), (1, 0), (0, 1), (1, 1)]
    } else if i == 21 {
        seq![(0, 0), (0, -1), (1, 0), (1, -1)]
    } else if i == 22 {
        seq![(0, 0), (-1, 0), (0, -1), (-1, -1)]
    } else if i == 23 {
        seq![(0, 0), (0, 1), (-1, 0), (-1, 1)]
    } else if i == 24 {
        seq![(-1, 0), (0, 0), (1, 0), (2, 0)]
    } else if i == 25 {
        seq![(0, 1), (0, 0), (0, -1), (0, -2)]
    } else if i == 26 {
        seq![(1, 0), (0, 0), (-1, 0), (-2, 0)]
    } else {
        seq![(0, -1), (0, 0), (0, 1), (0, 2)]
    }
}

/// The row of the cell table for `i`.
fn shape(i: usize) -> (r: [(i32, i32); 4])
    requires
        i < 28,
    ensures
        forall|j: int|
            0 <= j < 4 ==> #[trigger] r@[j].0 == shape_table(i as int)[j].0 && r@[j].1 == shape_table(
                i as int,
            )[j].1,
        forall|j: int| 0 <= j < 4 ==> -2 <= #[trigger] r@[j].0 <= 2 && -2 <= r@[j].1 <= 2,
{
    if i == 0 {
        [(-1, 0), (0, 0), (0, 1), (1, 1)]
    } else if i == 1 {
        [(0, 1), (0, 0), (1, 0), (1, -1)]
    } else if i == 2 {
        [(1, 0), (0, 0), (0, -1), (-1, -1)]
    } else if i == 3 {
        [(0, -1), (0, 0), (-1, 0), (-1, 1)]
    } else if i == 4 {
        [(1, 0), (0, 0), (0, 1), (-1, 1)]
    } else if i == 5 {
        [(0, -1), (0, 0), (1, 0), (1, 1)]
    } else if i == 6 {
        [(-1, 0), (0, 0), (0, -1), (1, -1)]
    } else if i == 7 {
        [(0, 1), (0, 0), (-1, 0), (-1, -1)]
    } else if i == 8 {
        [(-1, 1), (-1, 0), (0, 0), (1, 0)]
    } else if i == 9 {
        [(1, 1), (0, 1), (0, 0), (0, -1)]
    } else if i == 10 {
        [(1, -1), (1, 0), (0, 0), (-1, 0)]
    } else if i == 11 {
        [(-1, -1), (0, -1), (0, 0), (0, 1)]
    } else if i == 12 {
        [(-1, 0), (0, 0), (1, 0), (1, 1)]
    } else if i == 13 {
        [(0, 1), (0, 0), (0, -1), (1, -1)]
    } else if i == 14 {
        [(1, 0), (0, 0), (-1, 0), (-1, -1)]
    } else if i == 15 {
        [(0, -1), (0, 0), (0, 1), (-1, 1)]
    } else if i == 16 {
        [(0, 0), (-1, 0), (0, 1), (1, 0)]
    } else if i == 17 {
        [(0, 0), (0, 1), (1, 0), (0, -1)]
    } else if i == 18 {
        [(0, 0), (1, 0), (0, -1), (-1, 0)]
    } else if i == 19 {
        [(0, 0), (0, -1), (-1, 0), (0, 1)]
    } else if i == 20 {
        [(0, 0), (1, 0), (0, 1), (1, 1)]
    } else if i == 21 {
        [(0, 0), (0, -1), (1, 0), (1, -1)]
    } else if i == 22 {
        [(0, 0), (-1, 0), (0, -1), (-1, -1)]
    } else if i == 23 {
        [(0, 0), (0, 1), (-1, 0), (-1, 1)]
    } else if i == 24 {
        [(-1, 0), (0, 0), (1, 0), (2, 0)]
    } else if i == 25 {
        [(0, 1), (0, 0), (0, -1), (0, -2)]
    } else if i == 26 {
        [(1, 0), (0, 0), (-1, 0), (-2, 0)]
    } else {
        [(0, -1), (0, 0), (0, 1), (0, 2)]
    }
}

/// The five rotation offsets of each piece in each orientation, rows as in
/// `shape_table`: turning from one orientation to another tries the differences
/// of their offsets as kicks, in order.
pub open spec fn offset_table(i: int) -> Seq<(int, int)> {
    if i == 0 {
        seq![(0, 0), (0, 0), (0, 0), (0, 0), (0, 0)]
    } else if i == 1 {
        seq![(0, 0), (1, 0), (1, -1), (0, 2), (1, 2)]
    } else if i == 2 {
        seq![(0, 0), (0, 0), (0, 0), (0, 0), (0, 0)]
    } else if i == 3 {
        seq![(0, 0), (-1, 0), (-1, -1), (0, 2), (-1, 2)]
    } else if i == 4 {
        seq![(0, 0), (0, 0), (0, 0), (0, 0), (0, 0)]
    } else if i == 5 {
        seq![(0, 0), (1, 0), (1, -1), (0, 2), (1, 2)]
    } else if i == 6 {
        seq![(0, 0), (0, 0), (0, 0), (0, 0), (0, 0)]
    } else if i == 7 {
        seq![(0, 0), (-1, 0), (-1, -1), (0, 2), (-1, 2)]
    } else if i == 8 {
        seq![(0, 0), (0, 0), (0, 0), (0, 0), (0, 0)]
    } else if i == 9 {
        seq![(0, 0), (1, 0), (1, -1), (0, 2), (1, 2)]
    } else if i == 10 {
        seq![(0, 0), (0, 0), (0, 0), (0, 0), (0, 0)]
    } else if i == 11 {
        seq![(0, 0), (-1, 0), (-1, -1), (0, 2), (-1, 2)]
    } else if i == 12 {
        seq![(0, 0), (0, 0), (0, 0), (0, 0), (0, 0)]
    } else if i == 13 {
        seq![(0, 0), (1, 0), (1, -1), (0, 2), (1, 2)]
    } else if i == 14 {
        seq![(0, 0), (0, 0), (0, 0), (0, 0), (0, 0)]
    } else if i == 15 {
        seq![(0, 0), (-1, 0), (-1, -1), (0, 2), (-1, 2)]
    } else if i == 16 {
        seq![(0, 0), (0, 0), (0, 0), (0, 0), (0, 0)]
    } else if i == 17 {
        seq![(0, 0), (1, 0), (1, -1), (0, 2), (1, 2)]
    } else if i == 18 {
        seq![(0, 0), (0, 0), (0, 0), (0, 0), (0, 0)]
    } else if i == 19 {
        seq![(0, 0), (-1, 0), (-1, -1), (0, 2), (-1, 2)]
    } else if i == 20 {
        seq![(0, 0), (0, 0), (0, 0), (0, 0), (0, 0)]
    } else if i == 21 {
        seq![(0, -1), (0, -1), (0, -1), (0, -1), (0, -1)]
    } else if i == 22 {
        seq![(-1, -1), (-1, -1), (-1, -1), (-1, -1), (-1, -1)]
    } else if i == 23 {
        seq![(-1, 0), (-1, 0), (-1, 0), (-1, 0), (-1, 0)]
    } else if i == 24 {
        seq![(0, 0), (-1, 0), (2, 0), (-1, 0), (2, 0)]
    } else if i == 25 {
        seq![(-1, 0), (0, 0), (0, 0), (0, 1), (0, -2)]
    } else if i == 26 {
        seq![(-1, 1), (1, 1), (-2, 1), (1, 0), (-2, 0)]
    } else {
        seq![(0, 1), (0, 1), (0, 1), (0, -1), (0, 2)]
    }
}

/// The row of the offset table for `i`.
fn offsets(i: usize) -> (r: [(i32, i32); 5])
    requires
        i < 28,
    ensures
        forall|j: int|
            0 <= j < 5 ==> #[trigger] r@[j].0 == offset_table(i as int)[j].0 && r@[j].1 == offset_table(
                i as int,
            )[j].1,
        forall|j: int| 0 <= j < 5 ==> -2 <= #[trigger] r@[j].0 <= 2 && -2 <= r@[j].1 <= 2,
{
    if i == 0 {
        [(0, 0), (0, 0), (0, 0), (0, 0), (0, 0)]
    } else if i == 1 {
        [(0, 0), (1, 0), (1, -1), (0, 2), (1, 2)]
    } else if i == 2 {
        [(0, 0), (0, 0), (0, 0), (0, 0), (0, 0)]
    } else if i == 3 {
        [(0, 0), (-1, 0), (-1, -1), (0, 2), (-1, 2)]
    } else if i == 4 {
        [(0, 0), (0, 0), (0, 0), (0, 0), (0, 0)]
    } else if i == 5 {
        [(0, 0), (1, 0), (1, -1), (0, 2), (1, 2)]
    } else if i == 6 {
        [(0, 0), (0, 0), (0, 0), (0, 0), (0, 0)]
    } else if i == 7 {
        [(0, 0), (-1, 0), (-1, -1), (0, 2), (-1, 2)]
    } else if i == 8 {
        [(0, 0), (0, 0), (0, 0), (0, 0), (0, 0)]
    } else if i == 9 {
        [(0, 0), (1, 0), (1, -1), (0, 2), (1, 2)]
    } else if i == 10 {
        [(0, 0), (0, 0), (0, 0), (0, 0), (0, 0)]
    } else if i == 11 {
        [(0, 0), (-1, 0), (-1, -1), (0, 2), (-1, 2)]
    } else if i == 12 {
        [(0, 0), (0, 0), (0, 0), (0, 0), (0, 0)]
    } else if i == 13 {
        [(0, 0), (1, 0), (1, -1), (0, 2), (1, 2)]
    } else if i == 14 {
        [(0, 0), (0, 0), (0, 0), (0, 0), (0, 0)]
    } else if i == 15 {
        [(0, 0), (-1, 0), (-1, -1), (0, 2), (-1, 2)]
    } else if i == 16 {
        [(0, 0), (0, 0), (0, 0), (0, 0), (0, 0)]
    } else if i == 17 {
        [(0, 0), (1, 0), (1, -1), (0, 2), (1, 2)]
    } else if i == 18 {
        [(0, 0), (0, 0), (0, 0), (0, 0), (0, 0)]
    } else if i == 19 {
        [(0, 0), (-1, 0), (-1, -1), (0, 2), (-1, 2)]
    } else if i == 20 {
        [(0, 0), (0, 0), (0, 0), (0, 0), (0, 0)]
    } else if i == 21 {
        [(0, -1), (0, -1), (0, -1), (0, -1), (0, -1)]
    } else if i == 22 {
        [(-1, -1), (-1, -1), (-1, -1), (-1, -1), (-1, -1)]
    } else if i == 23 {
        [(-1, 0), (-1, 0), (-1, 0), (-1, 0), (-1, 0)]
    } else if i == 24 {
        [(0, 0), (-1, 0), (2, 0), (-1, 0), (2, 0)]
    } else if i == 25 {
        [(-1, 0), (0, 0), (0, 0), (0, 1), (0, -2)]
    } else if i == 26 {
        [(-1, 1), (1, 1), (-2, 1), (1, 0), (-2, 0)]
    } else {
        [(0, 1), (0, 1), (0, 1), (0, -1), (0, 2)]
    }
}

impl PieceState {
    pub open spec fn row(self) -> int {
        table_row(self.kind, self.state)
    }

    /// The `j`-th cell that the piece covers.
    pub open spec fn cell(self, j: int) -> (int, int) {
        (shape_table(self.row())[j].0 + self.x, shape_table(self.row())[j].1 + self.y)
    }

    /// The position lies at least `margin` away from the ends of `i32`.
    pub open spec fn within(self, margin: int) -> bool {
        &&& i32::MIN + margin <= self.x <= i32::MAX - margin
        &&& i32::MIN + margin <= self.y <= i32::MAX - margin
    }

    pub open spec fn overlaps_spec(self, field: Seq<[Option<Piece>; 10]>) -> bool {
        exists|j: int| 0 <= j < 4 && blocked(field, #[trigger] self.cell(j).0, self.cell(j).1)
    }

    /// The piece turned to `to` and moved by the `k`-th kick.
    pub open spec fn kicked(self, to: RotationState, k: int) -> PieceState {
        let a = offset_table(self.row())[k];
        let b = offset_table(table_row(self.kind, to))[k];
        PieceState { state: to, x: (self.x + (a.0 - b.0)) as i32, y: (self.y + (a.1 - b.1)) as i32, ..self }
    }

    /// The first of the kicks from the `k`-th on that leaves the piece on free
    /// cells; the piece unchanged when none does.
    pub open spec fn rotated(self, field: Seq<[Option<Piece>; 10]>, to: RotationState, k: int) -> PieceState
        decreases 5 - k,
    {
        if k >= 5 || k < 0 {
            self
        } else if !self.kicked(to, k).overlaps_spec(field) {
            self.kicked(to, k)
        } else {
            self.rotated(field, to, k + 1)
        }
    }

    pub fn cells(&self) -> (r: [(i32, i32); 4])
        requires
            self.within(2),
        ensures
            forall|j: int|
                0 <= j < 4 ==> #[trigger] r@[j].0 == self.cell(j).0 && r@[j].1 == self.cell(j).1,
    {
        let s = shape(self.index());
        [
            (s[0].0 + self.x, s[0].1 + self.y),
            (s[1].0 + self.x, s[1].1 + self.y),
            (s[2].0 + self.x, s[2].1 + self.y),
            (s[3].0 + self.x, s[3].1 + self.y),
        ]
    }

    pub fn cw(&mut self, field: &[[Option<Piece>; 10]])
        requires
            old(self).within(6),
            field@.len() >= FIELD_HEIGHT,
        ensures
            *final(self) == old(self).rotated(field@, clockwise(old(self).state), 0),
    {
        let to = match self.state {
            RotationState::North => RotationState::East,
            RotationState::East => RotationState::South,
            RotationState::South => RotationState::West,
            RotationState::West => RotationState::North,
        };
        self.rotate(field, to)
    }

    pub fn ccw(&mut self, field: &[[Option<Piece>; 10]])
        requires
            old(self).within(6),
            field@.len() >= FIELD_HEIGHT,
        ensures
            *final(self) == old(self).rotated(field@, counter_clockwise(old(self).state), 0),
    {
        let to = match self.state {
            RotationState::North => RotationState::West,
            RotationState::West => RotationState::South,
            RotationState::South => RotationState::East,
            RotationState::East => RotationState::North,
        };
        self.rotate(field, to)
    }

    fn rotate(&mut self, field: &[[Option<Piece>; 10]], to: RotationState)
        requires
            old(self).within(6),
            field@.len() >= FIELD_HEIGHT,
        ensures
            *final(self) == old(self).rotated(field@, to, 0),
    {
        let mut result = *self;
        result.state = to;
        let from_offsets = offsets(self.index());
        let target = result.index();
        assert(target == table_row(self.kind, to));
        let to_offsets = offsets(target);
        let mut k: usize = 0;
        while k < 5
            invariant
                k <= 5,
                *self == *old(self),
                self.within(6),
                field@.len() >= FIELD_HEIGHT,
                forall|j: int|
                    0 <= j < 5 ==> #[trigger] from_offsets@[j].0 == offset_table(self.row())[j].0
                        && from_offsets@[j].1 == offset_table(self.row())[j].1,
                forall|j: int|
                    0 <= j < 5 ==> #[trigger] to_offsets@[j].0 == offset_table(
                        table_row(self.kind, to),
                    )[j].0 && to_offsets@[j].1 == offset_table(table_row(self.kind, to))[j].1,
                forall|j: int| 0 <= j < 5 ==> -2 <= #[trigger] from_offsets@[j].0 <= 2 && -2 <= from_offsets@[j].1 <= 2,
                forall|j: int| 0 <= j < 5 ==> -2 <= #[trigger] to_offsets@[j].0 <= 2 && -2 <= to_offsets@[j].1 <= 2,
                self.rotated(field@, to, 0) == self.rotated(field@, to, k as int),
            decreases 5 - k,
        {
            let (x1, y1) = from_offsets[k];
            let (x2, y2) = to_offsets[k];
            let candidate = PieceState {
                kind: self.kind,
                state: to,
                x: self.x + (x1 - x2),
                y: self.y + (y1 - y2),
            };
            assert(candidate == self.kicked(to, k as int));
            if !candidate.overlaps(field) {
                *self = candidate;
                return;
            }
            k = k + 1;
        }
    }

    fn index(&self) -> (r: usize)
        ensures
            r == self.row(),
            r < 28,
    {
        let k: usize = match self.kind {
            Piece::S => 0,
            Piece::Z => 1,
            Piece::J => 2,
            Piece::L => 3,
            Piece::T => 4,
            Piece::O => 5,
            Piece::I => 6,
        };
        let s: usize = match self.state {
            RotationState::North => 0,
            RotationState::East => 1,
            RotationState::South => 2,
            RotationState::West => 3,
        };
        k * 4 + s
    }

    pub fn overlaps(&self, field: &[[Option<Piece>; 10]]) -> (r: bool)
        requires
            self.within(2),
            field@.len() >= FIELD_HEIGHT,
        ensures
            r == self.overlaps_spec(field@),
    {
        let cells = self.cells();
        let mut j: usize = 0;
        while j < 4
            invariant
                j <= 4,
                field@.len() >= FIELD_HEIGHT,
                forall|i: int|
                    0 <= i < 4 ==> #[trigger] cells@[i].0 == self.cell(i).0 && cells@[i].1
                        == self.cell(i).1,
                forall|i: int| 0 <= i < j ==> !blocked(field@, #[trigger] self.cell(i).0, self.cell(i).1),
            decreases 4 - j,
        {
            let (x, y) = cells[j];
            if y < 0 || y >= FIELD_HEIGHT || x < 0 || x >= FIELD_WIDTH || field[y as usize][x
                as usize].is_some() {
                assert(blocked(field@, self.cell(j as int).0, self.cell(j as int).1));
                return true;
            }
            j = j + 1;
        }
        false
    }
}

} // verus!
