//! A concrete player that only ever tries the board's first two positions,
//! and the driver that runs one of its turns.

use vstd::prelude::*;
use crate::game_state::{
    verify_accepts, Cell, CellId, GameState, MoveResult, Player, Turn, VerifyResult,
};

verus! {

/// A player that tries position 0 and then position 1 with its fixed mark,
/// chaining the two attempts through [`VerifyResult::or`], and gives the
/// turn back when both cells are occupied.
pub struct TwoCellPlayer {
    pub mark: Cell,
}

impl Player for TwoCellPlayer {
    /// Takes the first free of positions 0 and 1 with its own mark, and
    /// gives up exactly when both are occupied; the board it was handed is
    /// preserved in every outcome.
    fn next_move(&mut self, state: Turn) -> (r: MoveResult)
        ensures
            verify_accepts(state.board(), 0) ==> (r matches MoveResult::Valid(mv) && mv.board()
                == state.board() && mv.target() == 0 && mv.mark() == old(self).mark),
            !verify_accepts(state.board(), 0) && verify_accepts(state.board(), 1) ==> (r matches
                MoveResult::Valid(mv) && mv.board() == state.board() && mv.target() == 1
                && mv.mark() == old(self).mark),
            !verify_accepts(state.board(), 0) && !verify_accepts(state.board(), 1) ==> (r matches
                MoveResult::GiveUp(t) && t.board() == state.board()),
            final(self).mark == old(self).mark,
    {
        let c0 = CellId::new(0).unwrap();
        let c1 = CellId::new(1).unwrap();
        let m = self.mark;
        let second = move |t: Turn| -> (rr: VerifyResult)
            ensures
                verify_accepts(t.board(), 1) ==> (rr matches VerifyResult::Valid(mv) && mv.board()
                    == t.board() && mv.target() == 1 && mv.mark() == m),
                !verify_accepts(t.board(), 1) ==> (rr matches VerifyResult::Invalid(t2)
                    && t2.board() == t.board()),
            {
                t.verify(c1, m)
            };
        match state.verify(c0, m).or(second) {
            VerifyResult::Valid(mv) => MoveResult::Valid(mv),
            VerifyResult::Invalid(t) => MoveResult::GiveUp(t),
        }
    }
}

/// Runs one turn of the game: hands a fresh turn on `gs` to the player and,
/// if the player commits to a move, applies it.  The player's fixed strategy
/// makes the whole turn's effect exact: the first free of positions 0 and 1
/// receives the player's mark, and when both are occupied the board comes
/// back untouched.  Returns whether a move was committed; what to do about a
/// player that gave up is the caller's policy, not the protocol's.
pub fn run_turn(p: &mut TwoCellPlayer, gs: &mut GameState) -> (r: bool)
    ensures
        verify_accepts(old(gs)@, 0) ==> r && final(gs)@ == old(gs)@.update(0, old(p).mark),
        !verify_accepts(old(gs)@, 0) && verify_accepts(old(gs)@, 1) ==> r && final(gs)@ == old(
            gs,
        )@.update(1, old(p).mark),
        !verify_accepts(old(gs)@, 0) && !verify_accepts(old(gs)@, 1) ==> !r && final(gs)@ == old(
            gs,
        )@,
        final(p).mark == old(p).mark,
{
    let mut board = GameState::new();
    core::mem::swap(gs, &mut board);
    match p.next_move(board.start_turn()) {
        MoveResult::Valid(mv) => {
            *gs = mv.end_turn();
            true
        },
        MoveResult::GiveUp(t) => {
            *gs = t.release();
            false
        },
    }
}

} // verus!
