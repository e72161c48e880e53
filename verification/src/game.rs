//! The game-state engine: the board, the marks, move submission and
//! end-condition detection.

use vstd::prelude::*;

verus! {

/// One of the two player symbols placed on a tile.
#[derive(Debug, Clone, Copy, PartialEq, Eq, Structural)]
pub enum TileValue {
    X,
    O,
}

impl TileValue {
    /// The mark belonging to the other player.
    pub open spec fn flipped(self) -> TileValue {
        match self {
            TileValue::X => TileValue::O,
            TileValue::O => TileValue::X,
        }
    }

    /// Swaps X and O.
    pub fn toggle(self) -> (r: Self)
        ensures
            r == self.flipped(),
    {
        match self {
            TileValue::X => TileValue::O,
            TileValue::O => TileValue::X,
        }
    }
}

/// Toggling a mark twice gives the mark back: `toggle` is an involution.
pub proof fn lemma_toggle_involution(m: TileValue)
    ensures
        m.flipped().flipped() == m,
{
}

/// A validated board address `(row, col)`, each axis in `[0, 2]`.
#[derive(Debug, Copy, Clone, PartialEq, Eq, Structural)]
pub struct Coords(u8, u8);

/// The one way constructing a `Coords` can fail.
#[derive(Debug, Copy, Clone, PartialEq, Eq, Structural)]
pub enum CoordsBuildError {
    OutOfBounds,
}

impl Coords {
    /// Every `Coords` that exists addresses a tile of the 3-by-3 grid.
    #[verifier::type_invariant]
    spec fn in_bounds(self) -> bool {
        self.0 < 3 && self.1 < 3
    }

    /// The row this address names.
    pub closed spec fn row(self) -> int {
        self.0 as int
    }

    /// The column this address names.
    pub closed spec fn col(self) -> int {
        self.1 as int
    }

    /// Builds a coordinate pair, rejecting any axis outside `[0, 2]`.
    pub fn build(row: u8, col: u8) -> (r: Result<Self, CoordsBuildError>)
        ensures
            row < 3 && col < 3 ==> (r matches Ok(c) && c.row() == row && c.col() == col),
            !(row < 3 && col < 3) ==> (r matches Err(e) && e == CoordsBuildError::OutOfBounds),
    {
        if !(row < 3 && col < 3) {
            return Err(CoordsBuildError::OutOfBounds);
        }
        Ok(Self(row, col))
    }
}

/// The flat position of the tile at `(row, col)` in the board's view.
pub open spec fn tile_index(row: int, col: int) -> int {
    row * 3 + col
}

/// The 3-by-3 grid of tiles; `None` means empty, `Some(m)` means occupied by `m`.
///
/// The view is the sequence of the nine tiles in row-major order.
#[derive(Debug)]
pub struct Board([Option<TileValue>; 9]);

impl View for Board {
    type V = Seq<Option<TileValue>>;

    closed spec fn view(&self) -> Seq<Option<TileValue>> {
        self.0@
    }
}

impl Board {
    /// The tile at `(row, col)`.
    pub open spec fn tile(self, row: int, col: int) -> Option<TileValue>
        recommends
            0 <= row < 3,
            0 <= col < 3,
    {
        self@[tile_index(row, col)]
    }

    /// An empty board: all nine tiles `None`.
    pub fn new() -> (b: Self)
        ensures
            b@.len() == 9,
            forall|i: int| 0 <= i < 9 ==> b@[i] is None,
    {
        Self([None, None, None, None, None, None, None, None, None])
    }

    /// Reads the tile the coordinates address.
    pub fn value_at_coords(&self, coords: &Coords) -> (r: &Option<TileValue>)
        ensures
            *r == self.tile(coords.row(), coords.col()),
    {
        proof {
            use_type_invariant(coords);
        }
        let idx: usize = (coords.0 * 3 + coords.1) as usize;
        &self.0[idx]
    }

    /// Reads the tile at a flat position of the row-major view.
    fn tile_at_index(&self, i: usize) -> (r: Option<TileValue>)
        requires
            i < 9,
        ensures
            r == self@[i as int],
    {
        self.0[i]
    }

    /// Overwrites the tile the coordinates address, with no occupancy check:
    /// validation belongs to the caller.
    pub fn set_tile(&mut self, coords: &Coords, value: &Option<TileValue>)
        ensures
            final(self)@ == old(self)@.update(tile_index(coords.row(), coords.col()), *value),
    {
        proof {
            use_type_invariant(coords);
        }
        let idx: usize = (coords.0 * 3 + coords.1) as usize;
        self.0[idx] = *value;
    }
}

/// One committed placement: a player playing `value` at `coords`.
#[derive(Debug, Copy, Clone, PartialEq, Eq, Structural)]
pub struct Turn {
    pub value: TileValue,
    pub coords: Coords,
}

impl Turn {
    /// Records the placement of `value` at `coords`.
    pub fn new(value: TileValue, coords: Coords) -> (t: Self)
        ensures
            t.value == value,
            t.coords == coords,
    {
        Self { value, coords }
    }
}

/// The terminal outcome of a game: a winner, or a tie.
#[derive(Debug, Copy, Clone, PartialEq, Eq, Structural)]
pub enum GameResult {
    Winner(TileValue),
    Tie,
}

/// Why a move was rejected; neither failure touches the engine's state.
#[derive(Debug, Copy, Clone, PartialEq, Eq, Structural)]
pub enum TurnError {
    /// The targeted tile already holds the named mark.
    TileFull(TileValue),
    /// The game already concluded with the echoed result.
    GameOver(GameResult),
}

/// The `i`-th of the 8 winning lines, as flat tile positions:
/// the three rows, then the three columns, then the two diagonals.
pub open spec fn win_line(i: int) -> (int, int, int)
    recommends
        0 <= i < 8,
{
    if i == 0 {
        (0, 1, 2)
    } else if i == 1 {
        (3, 4, 5)
    } else if i == 2 {
        (6, 7, 8)
    } else if i == 3 {
        (0, 3, 6)
    } else if i == 4 {
        (1, 4, 7)
    } else if i == 5 {
        (2, 5, 8)
    } else if i == 6 {
        (0, 4, 8)
    } else {
        (2, 4, 6)
    }
}

/// The mark occupying all three tiles of line `i`, if any.
pub open spec fn line_winner(b: Seq<Option<TileValue>>, i: int) -> Option<TileValue>
    recommends
        b.len() == 9,
        0 <= i < 8,
{
    let (p, q, r) = win_line(i);
    if b[p] is Some && b[q] == b[p] && b[r] == b[p] {
        b[p]
    } else {
        None
    }
}

/// The winner of the first fully matched line, in the fixed line order.
pub open spec fn board_winner(b: Seq<Option<TileValue>>) -> Option<TileValue> {
    if line_winner(b, 0) is Some {
        line_winner(b, 0)
    } else if line_winner(b, 1) is Some {
        line_winner(b, 1)
    } else if line_winner(b, 2) is Some {
        line_winner(b, 2)
    } else if line_winner(b, 3) is Some {
        line_winner(b, 3)
    } else if line_winner(b, 4) is Some {
        line_winner(b, 4)
    } else if line_winner(b, 5) is Some {
        line_winner(b, 5)
    } else if line_winner(b, 6) is Some {
        line_winner(b, 6)
    } else {
        line_winner(b, 7)
    }
}

/// Whether every tile of the board is occupied.
pub open spec fn board_full(b: Seq<Option<TileValue>>) -> bool {
    forall|i: int| 0 <= i < 9 ==> b[i] is Some
}

/// The outcome the end-state scan reads off a board: the first winning line's
/// mark, else a tie on a full board, else nothing while play continues.
pub open spec fn end_state(b: Seq<Option<TileValue>>) -> Option<GameResult> {
    match board_winner(b) {
        Some(m) => Some(GameResult::Winner(m)),
        None => if board_full(b) {
            Some(GameResult::Tie)
        } else {
            None
        },
    }
}

/// On an empty board the end-state scan reports that play continues.
pub proof fn lemma_empty_board_in_progress(b: Seq<Option<TileValue>>)
    requires
        b.len() == 9,
        forall|i: int| 0 <= i < 9 ==> b[i] is None,
    ensures
        end_state(b) is None,
{
}

/// Represents and manages a game of Tic-Tac-Toe: the board, the move history,
/// whose turn it is, and the cached result once the game has concluded.
#[derive(Debug)]
pub struct Game {
    board: Board,
    turn_history: Vec<Turn>,
    player_turn: TileValue,
    result: Option<GameResult>,
}

type TurnResult = Result<Option<GameResult>, TurnError>;

impl Game {
    /// The nine tiles of the owned board, in row-major order.
    pub closed spec fn spec_board(self) -> Seq<Option<TileValue>> {
        self.board@
    }

    /// The accepted moves, in chronological order.
    pub closed spec fn spec_history(self) -> Seq<Turn> {
        self.turn_history@
    }

    /// The mark `play_coords` will place next.
    pub closed spec fn spec_player_turn(self) -> TileValue {
        self.player_turn
    }

    /// The cached outcome: `None` while the game is in progress.
    pub closed spec fn spec_result(self) -> Option<GameResult> {
        self.result
    }

    /// The result a query of the end state returns: the cached result once one
    /// is set, else the outcome read off the board.
    pub open spec fn spec_end_state(self) -> Option<GameResult> {
        match self.spec_result() {
            Some(res) => Some(res),
            None => end_state(self.spec_board()),
        }
    }

    /// Initializes a new game with an empty board, no turns, and turn X.
    pub fn new() -> (g: Self)
        ensures
            g.spec_board().len() == 9,
            forall|i: int| 0 <= i < 9 ==> g.spec_board()[i] is None,
            g.spec_history() == Seq::<Turn>::empty(),
            g.spec_player_turn() == TileValue::X,
            g.spec_result() is None,
    {
        Self {
            board: Board::new(),
            turn_history: Vec::new(),
            player_turn: TileValue::X,
            result: None,
        }
    }

    /// The three tiles of the `i`-th winning line, as flat board positions.
    fn win_line_tiles(i: usize) -> (t: (usize, usize, usize))
        requires
            i < 8,
        ensures
            (t.0 as int, t.1 as int, t.2 as int) == win_line(i as int),
            t.0 < 9 && t.1 < 9 && t.2 < 9,
    {
        if i == 0 {
            (0, 1, 2)
        } else if i == 1 {
            (3, 4, 5)
        } else if i == 2 {
            (6, 7, 8)
        } else if i == 3 {
            (0, 3, 6)
        } else if i == 4 {
            (1, 4, 7)
        } else if i == 5 {
            (2, 5, 8)
        } else if i == 6 {
            (0, 4, 8)
        } else {
            (2, 4, 6)
        }
    }

    /// Checks whether the game is over, returning the (potential) result: the
    /// cached result if one is set, else the outcome read off the board, with
    /// nothing mutated.
    pub fn check_end(&self) -> (r: Option<GameResult>)
        ensures
            r == self.spec_end_state(),
    {
        if self.result.is_some() {
            return self.result;
        }
        let ghost b = self.spec_board();
        let mut i: usize = 0;
        while i < 8
            invariant
                i <= 8,
                b == self.spec_board(),
                b.len() == 9,
                self.spec_result() is None,
                forall|j: int| 0 <= j < i ==> line_winner(b, j) is None,
            decreases 8 - i,
        {
            let (p, q, r) = Self::win_line_tiles(i);
            let first = self.board.tile_at_index(p);
            if let Some(m) = first {
                let second = self.board.tile_at_index(q);
                let third = self.board.tile_at_index(r);
                if let (Some(m2), Some(m3)) = (second, third) {
                    if m == m2 && m == m3 {
                        return Some(GameResult::Winner(m));
                    }
                }
            }
            i += 1;
        }
        let mut k: usize = 0;
        while k < 9
            invariant
                k <= 9,
                b == self.spec_board(),
                b.len() == 9,
                self.spec_result() is None,
                board_winner(b) is None,
                forall|j: int| 0 <= j < k ==> b[j] is Some,
            decreases 9 - k,
        {
            if self.board.tile_at_index(k).is_none() {
                return None;
            }
            k += 1;
        }
        Some(GameResult::Tie)
    }

    /// Attempts to set the tile at `turn.coords` to `turn.value`.
    ///
    /// Fails with `TurnError::GameOver` echoing the cached result once the game
    /// has concluded, and with `TurnError::TileFull` naming the occupying mark
    /// when the tile is taken; both failures leave the engine untouched. On
    /// success the mark is written, the turn is appended to the history, and
    /// the newly computed (and newly cached) result is returned. The current
    /// player's mark is not consulted and not advanced: turn alternation
    /// belongs to `play_coords`.
    pub fn take_turn(&mut self, turn: Turn) -> (r: TurnResult)
        ensures
            old(self).spec_result() is Some ==> {
                &&& r == TurnResult::Err(TurnError::GameOver(old(self).spec_result()->0))
                &&& *final(self) == *old(self)
            },
            old(self).spec_result() is None
                && old(self).spec_board()[tile_index(turn.coords.row(), turn.coords.col())]
                is Some ==> {
                &&& r == TurnResult::Err(TurnError::TileFull(
                    old(self).spec_board()[tile_index(turn.coords.row(), turn.coords.col())]->0,
                ))
                &&& *final(self) == *old(self)
            },
            old(self).spec_result() is None
                && old(self).spec_board()[tile_index(turn.coords.row(), turn.coords.col())]
                is None ==> {
                &&& final(self).spec_board() == old(self).spec_board().update(
                    tile_index(turn.coords.row(), turn.coords.col()),
                    Some(turn.value),
                )
                &&& final(self).spec_history() == old(self).spec_history().push(turn)
                &&& final(self).spec_player_turn() == old(self).spec_player_turn()
                &&& final(self).spec_result() == end_state(final(self).spec_board())
                &&& r == TurnResult::Ok(end_state(final(self).spec_board()))
            },
    {
        if let Some(x) = self.result {
            return Err(TurnError::GameOver(x));
        }
        let val_ref: &Option<TileValue> = self.board.value_at_coords(&turn.coords);
        if let Some(val) = *val_ref {
            Err(TurnError::TileFull(val))
        } else {
            self.board.set_tile(&turn.coords, &Some(turn.value));
            self.turn_history.push(turn);
            Ok(self.check_and_update_result())
        }
    }

    /// Plays a turn with `take_turn`, using the engine's own current mark, and
    /// toggles the current mark when (and only when) the move is accepted.
    pub fn play_coords(&mut self, coords: Coords) -> (r: TurnResult)
        ensures
            old(self).spec_result() is Some ==> {
                &&& r == TurnResult::Err(TurnError::GameOver(old(self).spec_result()->0))
                &&& *final(self) == *old(self)
            },
            old(self).spec_result() is None
                && old(self).spec_board()[tile_index(coords.row(), coords.col())] is Some ==> {
                &&& r == TurnResult::Err(TurnError::TileFull(
                    old(self).spec_board()[tile_index(coords.row(), coords.col())]->0,
                ))
                &&& *final(self) == *old(self)
            },
            old(self).spec_result() is None
                && old(self).spec_board()[tile_index(coords.row(), coords.col())] is None ==> {
                &&& final(self).spec_board() == old(self).spec_board().update(
                    tile_index(coords.row(), coords.col()),
                    Some(old(self).spec_player_turn()),
                )
                &&& final(self).spec_history() == old(self).spec_history().push(
                    (Turn { value: old(self).spec_player_turn(), coords }),
                )
                &&& final(self).spec_player_turn() == old(self).spec_player_turn().flipped()
                &&& final(self).spec_result() == end_state(final(self).spec_board())
                &&& r == TurnResult::Ok(end_state(final(self).spec_board()))
            },
    {
        let result = self.take_turn(Turn { value: self.player_turn, coords })?;
        self.player_turn = self.player_turn.toggle();
        Ok(result)
    }

    /// Recomputes the end state, caches it as the game's result, and returns it.
    pub fn check_and_update_result(&mut self) -> (r: Option<GameResult>)
        ensures
            r == old(self).spec_end_state(),
            final(self).spec_result() == r,
            final(self).spec_board() == old(self).spec_board(),
            final(self).spec_history() == old(self).spec_history(),
            final(self).spec_player_turn() == old(self).spec_player_turn(),
    {
        let r = self.check_end();
        self.result = r;
        r
    }

    /// The `Game`'s board.
    pub fn board(&self) -> (b: &Board)
        ensures
            b@ == self.spec_board(),
    {
        &self.board
    }

    /// The accepted moves, in the order they were played.
    pub fn turn_history(&self) -> (h: &Vec<Turn>)
        ensures
            h@ == self.spec_history(),
    {
        &self.turn_history
    }

    /// The mark `play_coords` will place next.
    pub fn player_turn(&self) -> (m: &TileValue)
        ensures
            *m == self.spec_player_turn(),
    {
        &self.player_turn
    }

    /// The cached outcome: `None` while the game is in progress.
    pub fn result(&self) -> (r: &Option<GameResult>)
        ensures
            *r == self.spec_result(),
    {
        &self.result
    }
}

} // verus!
