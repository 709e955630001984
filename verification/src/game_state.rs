//! A move-commitment protocol for a fixed 3x3 grid of single-occupancy cells.
//!
//! Every mutation of the board is gated through a verify-then-commit
//! sequence: a [`Turn`] capability grants exclusive access to one
//! [`GameState`], and only a [`Move`] obtained by successfully verifying a
//! placement against that capability can write to the board.  Exclusivity is
//! structural: the `GameState` is owned by the capability for as long as the
//! capability lives, so no second `Turn` can exist and no other code can
//! touch the cells until the access is released.

use vstd::prelude::*;

verus! {

/// The mark occupying one board position.
#[derive(Clone, Copy, PartialEq, Eq, Structural, Debug)]
pub enum Cell {
    Empty,
    MarkA,
    MarkB,
}

/// A validated reference to one of the board's positions.
///
/// Every live `CellId` indexes the board safely: construction through
/// [`CellId::new`] is the only way to obtain one, and it fails for
/// out-of-range input.
#[derive(Clone, Copy, Debug)]
pub struct CellId {
    i: usize,
}

impl CellId {
    #[verifier::type_invariant]
    spec fn inv(self) -> bool {
        self.i < 9
    }

    /// The position this id refers to.
    pub closed spec fn view(self) -> int {
        self.i as int
    }

    /// Succeeds exactly on positions within the board.
    pub fn new(i: usize) -> (r: Option<CellId>)
        ensures
            i < 9 ==> (r matches Some(c) && c@ == i),
            i >= 9 ==> r is None,
    {
        if i < 9 {
            Some(CellId { i })
        } else {
            None
        }
    }
}

/// Whether verifying a placement at position `i` of board `b` is accepted:
/// the protocol admits a move exactly when the targeted cell is empty.
pub open spec fn verify_accepts(b: Seq<Cell>, i: int) -> bool {
    b[i] == Cell::Empty
}

/// The board: a fixed-length sequence of cells, all initially empty.
///
/// This is the single source of truth for board contents.  It offers no way
/// to mutate a cell directly; the only write path is
/// [`Move::end_turn`], reached through [`GameState::start_turn`] and
/// [`Turn::verify`].
pub struct GameState {
    cells: Vec<Cell>,
}

impl GameState {
    #[verifier::type_invariant]
    spec fn inv(self) -> bool {
        self.cells@.len() == 9
    }

    /// The contents of the board, one cell per position.
    pub closed spec fn view(self) -> Seq<Cell> {
        self.cells@
    }

    /// A fresh board with every cell empty.
    pub fn new() -> (r: GameState)
        ensures
            r@.len() == 9,
            forall|i: int| 0 <= i < 9 ==> r@[i] == Cell::Empty,
    {
        let mut cells: Vec<Cell> = Vec::new();
        let mut k: usize = 0;
        while k < 9
            invariant
                k <= 9,
                cells@.len() == k,
                forall|i: int| 0 <= i < k ==> cells@[i] == Cell::Empty,
            decreases 9 - k,
        {
            cells.push(Cell::Empty);
            k += 1;
        }
        GameState { cells }
    }

    /// The only mutating primitive: writes `t` at position `c`.  Reachable
    /// solely through [`Move::end_turn`].
    fn set_cell(&mut self, c: CellId, t: Cell)
        ensures
            final(self)@ == old(self)@.update(c@, t),
    {
        proof {
            use_type_invariant(&*self);
            use_type_invariant(c);
        }
        self.cells[c.i] = t;
    }

    /// Hands the board over to a fresh [`Turn`].  The `GameState` moves into
    /// the capability, so no second turn can be started and no other code
    /// can observe or mutate the cells until the access is released (by
    /// [`Move::end_turn`] or [`Turn::release`]).
    pub fn start_turn(self) -> (t: Turn)
        ensures
            t.board() == self@,
    {
        Turn { gs: self }
    }
}

/// The capability to act on the board for one move: exclusive access held,
/// no pending move.
///
/// A `Turn` owns its `GameState`; it is consumed by [`Turn::verify`], which
/// either upgrades it to a [`Move`] or hands back an equivalent `Turn`.
pub struct Turn {
    gs: GameState,
}

impl Turn {
    /// The board this capability grants access to.
    pub closed spec fn board(self) -> Seq<Cell> {
        self.gs@
    }

    /// Checks a candidate placement.  If the cell at `id` is empty, the turn
    /// is upgraded to a verified [`Move`] carrying the target and the mark;
    /// otherwise an equivalent turn comes back, so the caller keeps exclusive
    /// access and may retry.  The board is never mutated here, in either
    /// outcome.
    pub fn verify(self, id: CellId, m: Cell) -> (r: VerifyResult)
        ensures
            verify_accepts(self.board(), id@) ==> (r matches VerifyResult::Valid(mv)
                && mv.board() == self.board()
                && mv.target() == id@
                && mv.mark() == m),
            !verify_accepts(self.board(), id@) ==> (r matches VerifyResult::Invalid(t)
                && t.board() == self.board()),
    {
        proof {
            use_type_invariant(id);
            use_type_invariant(&self.gs);
        }
        let Turn { gs } = self;
        match gs.cells[id.i] {
            Cell::Empty => VerifyResult::Valid(Move { id, m, gs }),
            _ => VerifyResult::Invalid(Turn { gs }),
        }
    }

    /// Gives the exclusive access back without having moved: the protocol
    /// instance ends in its released state and the board is unchanged.
    pub fn release(self) -> (gs: GameState)
        ensures
            gs@ == self.board(),
    {
        self.gs
    }

    /// The display surface: the board as three space-padded rows of
    /// single-character glyphs.
    pub fn render(&self) -> (s: String)
        ensures
            s@ == crate::render::board_text(self.board()),
    {
        proof {
            use_type_invariant(&self.gs);
        }
        crate::render::board_string(&self.gs.cells)
    }
}

/// A validated, not-yet-applied placement.
///
/// Obtainable only by [`Turn::verify`] succeeding, so holding a `Move`
/// witnesses that its target cell was empty when it was verified — and still
/// is, since the move holds the board exclusively.  It must be resolved by
/// [`Move::end_turn`] or [`Move::undo`].
#[must_use]
pub struct Move {
    id: CellId,
    m: Cell,
    gs: GameState,
}

impl Move {
    #[verifier::type_invariant]
    spec fn inv(self) -> bool {
        self.gs@[self.id@] == Cell::Empty
    }

    /// The board this capability grants access to.
    pub closed spec fn board(self) -> Seq<Cell> {
        self.gs@
    }

    /// The position the verified placement targets.
    pub closed spec fn target(self) -> int {
        self.id@
    }

    /// The mark the verified placement will write.
    pub closed spec fn mark(self) -> Cell {
        self.m
    }

    /// Commits the move: writes the mark at the target and releases the
    /// board.  This is the only way the board is ever mutated, and its
    /// preconditions were established by verification, so it cannot fail.
    pub fn end_turn(self) -> (gs: GameState)
        ensures
            gs@ == self.board().update(self.target(), self.mark()),
    {
        let Move { id, m, gs: mut gs } = self;
        gs.set_cell(id, m);
        gs
    }

    /// Abandons the move without mutating the board and hands back a fresh
    /// [`Turn`] over the same board, for a caller that reconsiders.
    pub fn undo(self) -> (t: Turn)
        ensures
            t.board() == self.board(),
    {
        Turn { gs: self.gs }
    }
}

/// The outcome of one verification attempt.
pub enum VerifyResult {
    /// The placement was accepted; the capability is now a pending move.
    Valid(Move),
    /// The cell was occupied; the caller keeps the turn and may retry.
    Invalid(Turn),
}

impl VerifyResult {
    /// Chains a fallback attempt: a `Valid` outcome short-circuits
    /// unchanged, while an `Invalid` one applies `f` to the returned turn.
    /// Any number of candidate placements can be tried in sequence this way
    /// without ever losing the exclusive access.
    pub fn or<F: FnOnce(Turn) -> VerifyResult>(self, f: F) -> (r: VerifyResult)
        requires
            self matches VerifyResult::Invalid(t) ==> call_requires(f, (t,)),
        ensures
            self matches VerifyResult::Valid(mv) ==> (r matches VerifyResult::Valid(mv2) && mv2
                == mv),
            self matches VerifyResult::Invalid(t) ==> call_ensures(f, (t,), r),
    {
        match self {
            VerifyResult::Invalid(t) => f(t),
            v => v,
        }
    }
}

/// What a player hands back to the driver: either a verified move the driver
/// is to commit, or the still-exclusive turn, relinquished.
pub enum MoveResult {
    /// The player commits to this validated placement.
    Valid(Move),
    /// The player declines to move; the turn comes back unconsumed.
    GiveUp(Turn),
}

/// A player is handed the turn capability and must resolve it: it either
/// returns a move verified against the very board it was given, or gives the
/// turn back.  Either way the board it received is left unchanged.
pub trait Player {
    fn next_move(&mut self, state: Turn) -> (r: MoveResult)
        ensures
            match r {
                MoveResult::Valid(mv) => mv.board() == state.board(),
                MoveResult::GiveUp(t) => t.board() == state.board(),
            },
    ;
}

/// Law: on a fresh board every cell is empty, so verifying any in-range
/// position with any mark is accepted.
pub proof fn lemma_fresh_board_accepts(b: Seq<Cell>, i: int)
    requires
        forall|j: int| 0 <= j < b.len() ==> b[j] == Cell::Empty,
        0 <= i < b.len(),
    ensures
        verify_accepts(b, i),
{
}

/// Law: committing a mark occupies its cell, so verifying the same position
/// a second time, after the first attempt was committed, is rejected.
pub proof fn lemma_reverify_after_commit(b: Seq<Cell>, i: int, m: Cell)
    requires
        0 <= i < b.len(),
        m != Cell::Empty,
    ensures
        !verify_accepts(b.update(i, m), i),
{
}

/// Law: an undone move hands back a turn over the very board the move was
/// verified against — the premises are exactly what [`Turn::verify`] ensures
/// of the move it yields and what [`Move::undo`] ensures of the turn it
/// returns — so verify-undo-verify at one position is accepted exactly as a
/// single verification would have been.
pub proof fn lemma_reverify_after_undo(t: Turn, mv: Move, t2: Turn, i: int)
    requires
        mv.board() == t.board(),
        t2.board() == mv.board(),
    ensures
        verify_accepts(t2.board(), i) == verify_accepts(t.board(), i),
{
}

} // verus!
