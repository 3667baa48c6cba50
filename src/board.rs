use vstd::prelude::*;

verus! {

/// A side of the board; each is the other's opponent.
#[derive(Clone, Copy, Debug, PartialEq, Eq, Structural, Hash)]
pub enum Color {
    White,
    Black,
}

impl Color {
    pub open spec fn opposite(self) -> Color {
        match self {
            Color::White => Color::Black,
            Color::Black => Color::White,
        }
    }

    /// The other side.
    pub fn opponent(self) -> (r: Color)
        ensures
            r == self.opposite(),
            r != self,
            r.opposite() == self,
    {
        match self {
            Color::White => Color::Black,
            Color::Black => Color::White,
        }
    }
}

#[derive(Clone, Copy, Debug, PartialEq, Eq, Structural, Hash)]
pub enum Piece {
    Pawn,
    Knight,
    Bishop,
    Rook,
    Queen,
    King,
}

/// The phase of the game, which selects the king's positional table.
#[derive(Debug, Clone, Copy, PartialEq, Eq, Structural)]
pub enum GameTime {
    Start,
    Middle,
    End,
}

/// A piece of one side standing on a square.
#[derive(Clone, Copy, Debug, PartialEq, Eq, Structural, Hash)]
pub struct Occupant {
    pub piece: Piece,
    pub color: Color,
}

/// The pieces on the board, square by square: the square on rank `r` and
/// file `f` (both counted from 0, rank 0 being White's first rank and file
/// 0 the a-file) is at index `r * 8 + f`.
#[derive(Clone, Debug, PartialEq, Eq, Hash)]
pub struct Position {
    pub squares: Vec<Option<Occupant>>,
}

impl Position {
    pub open spec fn wf(&self) -> bool {
        self.squares@.len() == 64
    }

    /// An empty board.
    pub fn empty() -> (r: Position)
        ensures
            r.wf(),
            forall|i: int| 0 <= i < 64 ==> r.squares@[i].is_none(),
    {
        let mut squares: Vec<Option<Occupant>> = Vec::new();
        let mut i: usize = 0;
        while i < 64
            invariant
                i <= 64,
                squares@.len() == i,
                forall|j: int| 0 <= j < i ==> squares@[j].is_none(),
            decreases 64 - i,
        {
            squares.push(None);
            i = i + 1;
        }
        Position { squares }
    }

    /// Puts `occupant` (or nothing) on square `index`.
    pub fn set(&mut self, index: usize, occupant: Option<Occupant>)
        requires
            old(self).wf(),
            index < 64,
        ensures
            final(self).squares@ == old(self).squares@.update(index as int, occupant),
            final(self).wf(),
    {
        self.squares.set(index, occupant);
    }
}

} // verus!
