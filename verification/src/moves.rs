//! Moves, plans and participant identities.

use vstd::prelude::*;

verus! {

/// Number of turns in a battle, and of moves in a plan.
pub const TURNS_PER_BATTLE: u32 = 3;

/// The three kinds of attack.
#[derive(Clone, Copy, Debug, PartialEq, Eq, Structural)]
pub enum Attack {
    /// 30 damage, stopped by `Defense::Dodge`.
    Slash,
    /// 40 damage, stopped by `Defense::Counter`.
    Fireball,
    /// 35 damage, stopped by `Defense::Block`.
    Lightning,
}

/// The three kinds of defense.
#[derive(Clone, Copy, Debug, PartialEq, Eq, Structural)]
pub enum Defense {
    /// Stops `Attack::Lightning`.
    Block,
    /// Stops `Attack::Slash`.
    Dodge,
    /// Stops `Attack::Fireball`.
    Counter,
}

/// What one side does in one turn.
#[derive(Clone, Copy, Debug, PartialEq, Eq, Structural)]
pub struct Move {
    pub attack: Attack,
    pub defense: Defense,
}

/// Length in bytes of a participant's key.
pub const PLAYER_KEY_LEN: usize = 56;

/// Identity of a participant: the bytes of the account's textual key.
/// Two participants are the same exactly when their keys are.
#[derive(Clone, Copy, Debug, PartialEq, Eq)]
pub struct PlayerId {
    pub key: [u8; PLAYER_KEY_LEN],
}

impl PlayerId {
    /// Whether two identities name the same participant.
    pub fn same(&self, other: &PlayerId) -> (r: bool)
        ensures
            r == (*self == *other),
    {
        let mut i: usize = 0;
        while i < PLAYER_KEY_LEN
            invariant
                i <= PLAYER_KEY_LEN,
                forall|j: int| 0 <= j < i ==> self.key@[j] == other.key@[j],
            decreases PLAYER_KEY_LEN - i,
        {
            if self.key[i] != other.key[i] {
                return false;
            }
            i = i + 1;
        }
        assert(self.key@ =~= other.key@);
        assert(self.key == other.key);
        true
    }
}

/// An ordered plan of moves, one per turn. A full plan has exactly
/// `TURNS_PER_BATTLE` moves; the empty sequence stands for "not revealed yet".
#[derive(Clone, Debug, PartialEq, Eq)]
pub struct MoveSequence {
    pub moves: Vec<Move>,
}

impl View for MoveSequence {
    type V = Seq<Move>;

    open spec fn view(&self) -> Seq<Move> {
        self.moves@
    }
}

/// A plan is complete when it has one move per turn.
pub open spec fn is_plan(s: Seq<Move>) -> bool {
    s.len() == TURNS_PER_BATTLE
}

} // verus!
