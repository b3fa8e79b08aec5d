//! One session: two commitment slots and, in the end, an outcome.
//!
//! Each slot goes from empty to committed to revealed, once. A commit stores
//! the binding value of the player's proof; a reveal is accepted only with
//! public inputs that carry the same binding value. When both slots are
//! revealed the battle can be resolved, once.

use vstd::prelude::*;
use crate::battle::{
    calculate_damage_and_defense, damage_dealt, empty_outcome, health_after,
    law_battle_runs_three_turns, outcome, player1_won, simulate_battle, stops, turn_result,
    BattleResult, Outcome,
};
use crate::error::Error;
use crate::gateway::{
    binding_of, bytes_content, extract_commitment_hash, has_binding, same_binding, verify_proof,
};
use crate::moves::{is_plan, Move, MoveSequence, PlayerId, TURNS_PER_BATTLE};
use soroban_sdk::Bytes;

verus! {

/// One player's slot in a session.
#[derive(Clone, Debug, PartialEq, Eq)]
pub struct PlayerCommitment {
    /// Binding value stored at commit time.
    pub proof_id: [u8; 32],
    pub has_revealed: bool,
    /// The revealed plan; empty until the reveal.
    pub moves: MoveSequence,
}

/// A slot as a mathematical value.
pub struct CommitmentView {
    pub proof_id: Seq<u8>,
    pub has_revealed: bool,
    pub moves: Seq<Move>,
}

impl View for PlayerCommitment {
    type V = CommitmentView;

    open spec fn view(&self) -> CommitmentView {
        CommitmentView {
            proof_id: self.proof_id@,
            has_revealed: self.has_revealed,
            moves: self.moves@,
        }
    }
}

/// A session between two players.
#[derive(Clone, Debug, PartialEq, Eq)]
pub struct Game {
    pub player1: PlayerId,
    pub player2: PlayerId,
    pub player1_points: i128,
    pub player2_points: i128,
    pub has_player1_commitment: bool,
    pub player1_commitment: PlayerCommitment,
    pub has_player2_commitment: bool,
    pub player2_commitment: PlayerCommitment,
    pub has_battle_result: bool,
    pub battle_result: BattleResult,
}

/// A session as a mathematical value.
pub struct GameView {
    pub player1: PlayerId,
    pub player2: PlayerId,
    pub player1_points: i128,
    pub player2_points: i128,
    pub has_player1_commitment: bool,
    pub player1_commitment: CommitmentView,
    pub has_player2_commitment: bool,
    pub player2_commitment: CommitmentView,
    pub has_battle_result: bool,
    pub battle_result: Outcome,
}

impl View for Game {
    type V = GameView;

    open spec fn view(&self) -> GameView {
        GameView {
            player1: self.player1,
            player2: self.player2,
            player1_points: self.player1_points,
            player2_points: self.player2_points,
            has_player1_commitment: self.has_player1_commitment,
            player1_commitment: self.player1_commitment@,
            has_player2_commitment: self.has_player2_commitment,
            player2_commitment: self.player2_commitment@,
            has_battle_result: self.has_battle_result,
            battle_result: self.battle_result@,
        }
    }
}

/// The binding value that an empty slot holds: 32 zero bytes.
pub open spec fn zero_binding() -> Seq<u8> {
    Seq::new(32, |i: int| 0u8)
}

/// The slot of a player who has not committed: all zero, nothing revealed.
pub open spec fn empty_commitment() -> CommitmentView {
    CommitmentView { proof_id: zero_binding(), has_revealed: false, moves: Seq::empty() }
}

/// The slot right after a commit with the given binding value.
pub open spec fn committed_slot(binding: Seq<u8>) -> CommitmentView {
    CommitmentView { proof_id: binding, has_revealed: false, moves: Seq::empty() }
}

/// A slot is consistent with its "committed" flag.
pub open spec fn slot_wf(has_commitment: bool, slot: CommitmentView) -> bool {
    &&& slot.proof_id.len() == 32
    &&& !has_commitment ==> slot == empty_commitment()
    &&& !slot.has_revealed ==> slot.moves == Seq::<Move>::empty()
    &&& slot.has_revealed ==> has_commitment && is_plan(slot.moves)
}

impl GameView {
    /// Both players have revealed their plans.
    pub open spec fn both_revealed(self) -> bool {
        self.player1_commitment.has_revealed && self.player2_commitment.has_revealed
    }

    /// Both players have committed.
    pub open spec fn both_committed(self) -> bool {
        self.has_player1_commitment && self.has_player2_commitment
    }

    /// The invariant of a session: two different players; slots consistent
    /// with their flags; no reveal before both commits; and an outcome only
    /// once both plans are revealed, which is then the outcome of those plans.
    pub open spec fn wf(self) -> bool {
        &&& self.player1 != self.player2
        &&& slot_wf(self.has_player1_commitment, self.player1_commitment)
        &&& slot_wf(self.has_player2_commitment, self.player2_commitment)
        &&& self.player1_commitment.has_revealed || self.player2_commitment.has_revealed
            ==> self.both_committed()
        &&& self.has_battle_result ==> self.both_revealed() && self.battle_result == outcome(
            self.player1,
            self.player2,
            self.player1_commitment.moves,
            self.player2_commitment.moves,
        )
        &&& !self.has_battle_result ==> self.battle_result == empty_outcome()
    }
}

/// The session that `start` creates: both slots empty, no outcome.
pub open spec fn new_game(player1: PlayerId, player2: PlayerId, points1: i128, points2: i128) -> GameView {
    GameView {
        player1,
        player2,
        player1_points: points1,
        player2_points: points2,
        has_player1_commitment: false,
        player1_commitment: empty_commitment(),
        has_player2_commitment: false,
        player2_commitment: empty_commitment(),
        has_battle_result: false,
        battle_result: empty_outcome(),
    }
}

/// Why the session refuses a commit by `player`, if it does: it has ended,
/// the player is not one of the two, or the player's slot is taken.
pub open spec fn commit_refusal(g: GameView, player: PlayerId) -> Option<Error> {
    if g.has_battle_result {
        Some(Error::GameAlreadyEnded)
    } else if player == g.player1 {
        if g.has_player1_commitment {
            Some(Error::AlreadyCommitted)
        } else {
            None
        }
    } else if player == g.player2 {
        if g.has_player2_commitment {
            Some(Error::AlreadyCommitted)
        } else {
            None
        }
    } else {
        Some(Error::NotPlayer)
    }
}

/// The session after `player` has committed to `binding`.
pub open spec fn after_commit(g: GameView, player: PlayerId, binding: Seq<u8>) -> GameView {
    if player == g.player1 {
        GameView { has_player1_commitment: true, player1_commitment: committed_slot(binding), ..g }
    } else {
        GameView { has_player2_commitment: true, player2_commitment: committed_slot(binding), ..g }
    }
}

/// Why a slot refuses a reveal with the given binding value, if it does.
pub open spec fn slot_reveal_refusal(slot: CommitmentView, binding: Seq<u8>) -> Option<Error> {
    if slot.has_revealed {
        Some(Error::AlreadyRevealed)
    } else if binding != slot.proof_id {
        Some(Error::CommitmentMismatch)
    } else {
        None
    }
}

/// Why the session refuses a reveal by `player`, if it does.
pub open spec fn reveal_refusal(g: GameView, player: PlayerId, inputs: Seq<u8>, plan: Seq<Move>) -> Option<
    Error,
> {
    if !is_plan(plan) {
        Some(Error::InvalidMoveSequence)
    } else if !g.both_committed() {
        Some(Error::BothPlayersNotCommitted)
    } else if !has_binding(inputs) {
        Some(Error::InvalidPublicInputs)
    } else if player == g.player1 {
        slot_reveal_refusal(g.player1_commitment, binding_of(inputs))
    } else if player == g.player2 {
        slot_reveal_refusal(g.player2_commitment, binding_of(inputs))
    } else {
        Some(Error::NotPlayer)
    }
}

/// The session after `player` has revealed `plan`.
pub open spec fn after_reveal(g: GameView, player: PlayerId, plan: Seq<Move>) -> GameView {
    if player == g.player1 {
        GameView {
            player1_commitment: CommitmentView {
                has_revealed: true,
                moves: plan,
                ..g.player1_commitment
            },
            ..g
        }
    } else {
        GameView {
            player2_commitment: CommitmentView {
                has_revealed: true,
                moves: plan,
                ..g.player2_commitment
            },
            ..g
        }
    }
}

/// Why the session refuses to resolve, if it does. A session that already
/// has its outcome does not refuse: it answers with that outcome.
pub open spec fn resolve_refusal(g: GameView) -> Option<Error> {
    if !g.has_battle_result && !g.both_revealed() {
        Some(Error::BothPlayersNotCommitted)
    } else {
        None
    }
}

/// The session after a resolution: unchanged if it had its outcome, else
/// with the outcome of the two revealed plans.
pub open spec fn after_resolve(g: GameView) -> GameView {
    if g.has_battle_result {
        g
    } else {
        GameView {
            has_battle_result: true,
            battle_result: outcome(
                g.player1,
                g.player2,
                g.player1_commitment.moves,
                g.player2_commitment.moves,
            ),
            ..g
        }
    }
}

/// What a resolution hands back: the outcome, and what to tell the ledger.
#[derive(Clone, Debug, PartialEq, Eq)]
pub struct Resolution {
    /// The outcome of the session.
    pub result: BattleResult,
    /// `Some(player1_won)` when this call produced the outcome, so that the
    /// ledger is told once; `None` when the session already had it.
    pub hub_report: Option<bool>,
}

impl PlayerCommitment {
    /// Whether the slot is consistent with its "committed" flag.
    pub fn is_well_formed(&self, has_commitment: bool) -> (r: bool)
        ensures
            r == slot_wf(has_commitment, self@),
    {
        if self.has_revealed {
            return has_commitment && self.moves.moves.len() == 3;
        }
        if self.moves.moves.len() != 0 {
            return false;
        }
        assert(self.moves@ =~= Seq::<Move>::empty());
        if has_commitment {
            return true;
        }
        let mut i: usize = 0;
        while i < 32
            invariant
                i <= 32,
                !has_commitment,
                forall|j: int| 0 <= j < i ==> self.proof_id@[j] == 0u8,
            decreases 32 - i,
        {
            if self.proof_id[i] != 0 {
                assert(self.proof_id@[i as int] != zero_binding()[i as int]);
                return false;
            }
            i = i + 1;
        }
        assert(self.proof_id@ =~= zero_binding());
        true
    }

    /// The slot of a player who has not committed.
    pub fn empty() -> (r: PlayerCommitment)
        ensures
            r@ == empty_commitment(),
    {
        let proof_id: [u8; 32] = [0u8; 32];
        assert(proof_id@ =~= zero_binding());
        PlayerCommitment { proof_id, has_revealed: false, moves: MoveSequence { moves: Vec::new() } }
    }
}

impl Game {
    /// A fresh session between two different players: both slots empty, no
    /// outcome.
    pub fn new(player1: PlayerId, player2: PlayerId, player1_points: i128, player2_points: i128) -> (g: Game)
        requires
            player1 != player2,
        ensures
            g@ == new_game(player1, player2, player1_points, player2_points),
            g@.wf(),
    {
        Game {
            player1,
            player2,
            player1_points,
            player2_points,
            has_player1_commitment: false,
            player1_commitment: PlayerCommitment::empty(),
            has_player2_commitment: false,
            player2_commitment: PlayerCommitment::empty(),
            has_battle_result: false,
            battle_result: BattleResult::empty(),
        }
    }

    /// Whether the session meets its invariant.
    pub fn is_well_formed(&self) -> (r: bool)
        ensures
            r == self@.wf(),
    {
        if self.player1.same(&self.player2) {
            return false;
        }
        if !self.player1_commitment.is_well_formed(self.has_player1_commitment) {
            return false;
        }
        if !self.player2_commitment.is_well_formed(self.has_player2_commitment) {
            return false;
        }
        if (self.player1_commitment.has_revealed || self.player2_commitment.has_revealed) && !(
        self.has_player1_commitment && self.has_player2_commitment) {
            return false;
        }
        if self.has_battle_result {
            if !self.player1_commitment.has_revealed || !self.player2_commitment.has_revealed {
                return false;
            }
            let expected = simulate_battle(
                &self.player1,
                &self.player2,
                &self.player1_commitment.moves,
                &self.player2_commitment.moves,
            );
            self.battle_result.same(&expected)
        } else {
            let expected = BattleResult::empty();
            self.battle_result.same(&expected)
        }
    }

    /// Whether a commit by `player` would be refused, before any proof is
    /// looked at.
    pub fn commit_check(&self, player: &PlayerId) -> (r: Result<(), Error>)
        ensures
            r == match commit_refusal(self@, *player) {
                Some(e) => Err::<(), Error>(e),
                None => Ok::<(), Error>(()),
            },
    {
        if self.has_battle_result {
            return Err(Error::GameAlreadyEnded);
        }
        if player.same(&self.player1) {
            if self.has_player1_commitment {
                return Err(Error::AlreadyCommitted);
            }
        } else if player.same(&self.player2) {
            if self.has_player2_commitment {
                return Err(Error::AlreadyCommitted);
            }
        } else {
            return Err(Error::NotPlayer);
        }
        Ok(())
    }

    /// Commits `player` to the binding value of a proof.
    ///
    /// `accepted` is the verifier's verdict on the proof that came with
    /// `public_inputs`. A commit that the session refuses fails with the
    /// session's reason whatever the verdict; otherwise a rejected proof, or
    /// public inputs too short to hold a binding value, fail with
    /// `ProofVerificationFailed`. On success the binding value is stored in
    /// the player's slot and returned. A failed commit changes nothing.
    pub fn commit_moves(&mut self, player: &PlayerId, public_inputs: &Bytes, accepted: bool) -> (r:
        Result<[u8; 32], Error>)
        ensures
            match commit_refusal(old(self)@, *player) {
                Some(e) => r == Err::<[u8; 32], Error>(e) && *final(self) == *old(self),
                None => if accepted && has_binding(bytes_content(*public_inputs)) {
                    &&& r matches Ok(hash)
                    &&& hash@ == binding_of(bytes_content(*public_inputs))
                    &&& final(self)@ == after_commit(old(self)@, *player, hash@)
                } else {
                    r == Err::<[u8; 32], Error>(Error::ProofVerificationFailed) && *final(self)
                        == *old(self)
                },
            },
            final(self)@ == commit_step(
                old(self)@,
                *player,
                bytes_content(*public_inputs),
                accepted,
            ),
            old(self)@.wf() ==> final(self)@.wf(),
    {
        match self.commit_check(player) {
            Err(e) => {
                return Err(e);
            },
            Ok(()) => {},
        }
        let commitment_hash = match verify_proof(accepted, public_inputs) {
            Ok(hash) => hash,
            Err(_) => {
                return Err(Error::ProofVerificationFailed);
            },
        };
        let commitment = PlayerCommitment {
            proof_id: commitment_hash,
            has_revealed: false,
            moves: MoveSequence { moves: Vec::new() },
        };
        if player.same(&self.player1) {
            self.player1_commitment = commitment;
            self.has_player1_commitment = true;
        } else {
            self.player2_commitment = commitment;
            self.has_player2_commitment = true;
        }
        Ok(commitment_hash)
    }

    /// Reveals the plan of `player`.
    ///
    /// The reveal is accepted only when the plan has three moves, both
    /// players have committed, the player has not revealed before, and the
    /// binding value in `public_inputs` is the one stored at commit time.
    /// A failed reveal changes nothing.
    pub fn reveal_moves(&mut self, player: &PlayerId, public_inputs: &Bytes, moves: Vec<Move>) -> (r:
        Result<(), Error>)
        ensures
            match reveal_refusal(old(self)@, *player, bytes_content(*public_inputs), moves@) {
                Some(e) => r == Err::<(), Error>(e) && *final(self) == *old(self),
                None => r is Ok && final(self)@ == after_reveal(old(self)@, *player, moves@),
            },
            final(self)@ == reveal_step(
                old(self)@,
                *player,
                bytes_content(*public_inputs),
                moves@,
            ),
            old(self)@.wf() ==> final(self)@.wf(),
    {
        if moves.len() != TURNS_PER_BATTLE as usize {
            return Err(Error::InvalidMoveSequence);
        }
        if !self.has_player1_commitment || !self.has_player2_commitment {
            return Err(Error::BothPlayersNotCommitted);
        }
        let revealed_hash = match extract_commitment_hash(public_inputs) {
            Ok(hash) => hash,
            Err(e) => {
                return Err(e);
            },
        };
        if player.same(&self.player1) {
            if self.player1_commitment.has_revealed {
                return Err(Error::AlreadyRevealed);
            }
            if !same_binding(&revealed_hash, &self.player1_commitment.proof_id) {
                return Err(Error::CommitmentMismatch);
            }
            self.player1_commitment.moves = MoveSequence { moves };
            self.player1_commitment.has_revealed = true;
        } else if player.same(&self.player2) {
            if self.player2_commitment.has_revealed {
                return Err(Error::AlreadyRevealed);
            }
            if !same_binding(&revealed_hash, &self.player2_commitment.proof_id) {
                return Err(Error::CommitmentMismatch);
            }
            self.player2_commitment.moves = MoveSequence { moves };
            self.player2_commitment.has_revealed = true;
        } else {
            return Err(Error::NotPlayer);
        }
        Ok(())
    }

    /// Resolves the battle once both plans are revealed.
    ///
    /// The first resolution replays the two plans, stores the outcome and
    /// says what to report to the ledger. Every later one hands back the
    /// stored outcome and reports nothing.
    pub fn resolve_battle(&mut self) -> (r: Result<Resolution, Error>)
        requires
            old(self)@.wf(),
        ensures
            final(self)@.wf(),
            final(self)@ == resolve_step(old(self)@),
            match resolve_refusal(old(self)@) {
                Some(e) => r == Err::<Resolution, Error>(e) && *final(self) == *old(self),
                None => {
                    &&& r matches Ok(res)
                    &&& final(self)@ == after_resolve(old(self)@)
                    &&& res.result@ == final(self)@.battle_result
                    &&& res.hub_report == if old(self)@.has_battle_result {
                        None::<bool>
                    } else {
                        Some(player1_won(res.result@, old(self)@.player1))
                    }
                },
            },
    {
        if self.has_battle_result {
            return Ok(Resolution { result: self.battle_result.copy(), hub_report: None });
        }
        if !self.player1_commitment.has_revealed || !self.player2_commitment.has_revealed {
            return Err(Error::BothPlayersNotCommitted);
        }
        let battle_result = simulate_battle(
            &self.player1,
            &self.player2,
            &self.player1_commitment.moves,
            &self.player2_commitment.moves,
        );
        let won = battle_result.player1_won(&self.player1);
        self.battle_result = battle_result.copy();
        self.has_battle_result = true;
        Ok(Resolution { result: battle_result, hub_report: Some(won) })
    }
}

/// One turn of a playback: the two moves and what came of them.
#[derive(Clone, Copy, Debug, PartialEq, Eq, Structural)]
pub struct DetailedTurnResult {
    pub turn: u32,
    pub player1_move: Move,
    pub player2_move: Move,
    pub player1_damage_dealt: i32,
    pub player2_damage_dealt: i32,
    pub player1_damage_taken: i32,
    pub player2_damage_taken: i32,
    pub player1_hp_remaining: i32,
    pub player2_hp_remaining: i32,
    /// Whether player 1's defense stopped the attack of player 2.
    pub player1_defense_successful: bool,
    /// Whether player 2's defense stopped the attack of player 1.
    pub player2_defense_successful: bool,
}

/// A resolved session told turn by turn.
#[derive(Clone, Debug, PartialEq, Eq)]
pub struct GamePlayback {
    pub session_id: u32,
    pub player1: PlayerId,
    pub player2: PlayerId,
    pub player1_username: Option<Vec<u8>>,
    pub player2_username: Option<Vec<u8>>,
    pub turn_results: Vec<DetailedTurnResult>,
    pub final_player1_hp: i32,
    pub final_player2_hp: i32,
    pub winner: Option<PlayerId>,
    pub is_draw: bool,
}

/// A playback as a mathematical value.
pub struct PlaybackView {
    pub session_id: u32,
    pub player1: PlayerId,
    pub player2: PlayerId,
    pub player1_username: Option<Seq<u8>>,
    pub player2_username: Option<Seq<u8>>,
    pub turn_results: Seq<DetailedTurnResult>,
    pub final_player1_hp: i32,
    pub final_player2_hp: i32,
    pub winner: Option<PlayerId>,
    pub is_draw: bool,
}

/// An optional byte string as a mathematical value.
pub open spec fn name_view(name: Option<Vec<u8>>) -> Option<Seq<u8>> {
    match name {
        Some(n) => Some(n@),
        None => None,
    }
}

impl View for GamePlayback {
    type V = PlaybackView;

    open spec fn view(&self) -> PlaybackView {
        PlaybackView {
            session_id: self.session_id,
            player1: self.player1,
            player2: self.player2,
            player1_username: name_view(self.player1_username),
            player2_username: name_view(self.player2_username),
            turn_results: self.turn_results@,
            final_player1_hp: self.final_player1_hp,
            final_player2_hp: self.final_player2_hp,
            winner: self.winner,
            is_draw: self.is_draw,
        }
    }
}

/// Turn `turn` of the playback of two plans.
pub open spec fn detailed_turn(p1: Seq<Move>, p2: Seq<Move>, turn: int) -> DetailedTurnResult {
    DetailedTurnResult {
        turn: turn as u32,
        player1_move: p1[turn],
        player2_move: p2[turn],
        player1_damage_dealt: damage_dealt(p1, p2, turn) as i32,
        player2_damage_dealt: damage_dealt(p2, p1, turn) as i32,
        player1_damage_taken: damage_dealt(p2, p1, turn) as i32,
        player2_damage_taken: damage_dealt(p1, p2, turn) as i32,
        player1_hp_remaining: health_after(p1, p2, turn + 1) as i32,
        player2_hp_remaining: health_after(p2, p1, turn + 1) as i32,
        player1_defense_successful: stops(p1[turn].defense, p2[turn].attack),
        player2_defense_successful: stops(p2[turn].defense, p1[turn].attack),
    }
}

/// The playback of a session whose plans are both revealed: every turn of
/// the battle between the two plans, and its outcome. It does not matter
/// whether the session has been resolved yet.
pub open spec fn playback_of(
    g: GameView,
    session_id: u32,
    player1_username: Option<Seq<u8>>,
    player2_username: Option<Seq<u8>>,
) -> PlaybackView {
    let o = outcome(g.player1, g.player2, g.player1_commitment.moves, g.player2_commitment.moves);
    PlaybackView {
        session_id,
        player1: g.player1,
        player2: g.player2,
        player1_username,
        player2_username,
        turn_results: Seq::new(
            TURNS_PER_BATTLE as nat,
            |t: int| detailed_turn(g.player1_commitment.moves, g.player2_commitment.moves, t),
        ),
        final_player1_hp: o.player1_hp,
        final_player2_hp: o.player2_hp,
        winner: o.winner,
        is_draw: o.is_draw,
    }
}

impl Game {
    /// Tells a session turn by turn, with the players' usernames as the
    /// caller found them.
    ///
    /// A session whose plans are not both revealed has no playback. One
    /// whose plans are revealed is told from its stored outcome, or, if it
    /// has not been resolved yet, from the battle between the two plans,
    /// which gives the same.
    pub fn playback(
        &self,
        session_id: u32,
        player1_username: Option<Vec<u8>>,
        player2_username: Option<Vec<u8>>,
    ) -> (r: Result<GamePlayback, Error>)
        requires
            self@.wf(),
        ensures
            !self@.both_revealed() ==> r == Err::<GamePlayback, Error>(
                Error::BothPlayersNotCommitted,
            ),
            self@.both_revealed() ==> (r matches Ok(p) && p@ == playback_of(
                self@,
                session_id,
                name_view(player1_username),
                name_view(player2_username),
            )),
    {
        if !self.player1_commitment.has_revealed || !self.player2_commitment.has_revealed {
            return Err(Error::BothPlayersNotCommitted);
        }
        let ghost p1 = self.player1_commitment.moves@;
        let ghost p2 = self.player2_commitment.moves@;
        let battle_result = if self.has_battle_result {
            self.battle_result.copy()
        } else {
            simulate_battle(
                &self.player1,
                &self.player2,
                &self.player1_commitment.moves,
                &self.player2_commitment.moves,
            )
        };
        proof {
            law_battle_runs_three_turns(p1, p2);
        }
        assert(battle_result@ == outcome(self.player1, self.player2, p1, p2));
        let mut detailed_turns: Vec<DetailedTurnResult> = Vec::new();
        let mut turn: u32 = 0;
        while turn < TURNS_PER_BATTLE
            invariant
                turn <= TURNS_PER_BATTLE,
                p1 == self.player1_commitment.moves@,
                p2 == self.player2_commitment.moves@,
                is_plan(p1),
                is_plan(p2),
                battle_result.turn_results@ == Seq::new(
                    TURNS_PER_BATTLE as nat,
                    |t: int| turn_result(p1, p2, t),
                ),
                detailed_turns@ =~= Seq::new(
                    turn as nat,
                    |t: int| detailed_turn(p1, p2, t),
                ),
            decreases TURNS_PER_BATTLE - turn,
        {
            let p1_move = self.player1_commitment.moves.moves[turn as usize];
            let p2_move = self.player2_commitment.moves.moves[turn as usize];
            let (p1_damage, p1_attack_stopped) = calculate_damage_and_defense(
                p1_move.attack,
                p2_move.defense,
                &self.player1_commitment.moves.moves,
                turn,
            );
            let (p2_damage, p2_attack_stopped) = calculate_damage_and_defense(
                p2_move.attack,
                p1_move.defense,
                &self.player2_commitment.moves.moves,
                turn,
            );
            let stored = battle_result.turn_results[turn as usize];
            detailed_turns.push(
                DetailedTurnResult {
                    turn,
                    player1_move: p1_move,
                    player2_move: p2_move,
                    player1_damage_dealt: p1_damage,
                    player2_damage_dealt: p2_damage,
                    player1_damage_taken: p2_damage,
                    player2_damage_taken: p1_damage,
                    player1_hp_remaining: stored.player1_hp_remaining,
                    player2_hp_remaining: stored.player2_hp_remaining,
                    player1_defense_successful: p2_attack_stopped,
                    player2_defense_successful: p1_attack_stopped,
                },
            );
            turn = turn + 1;
        }
        Ok(
            GamePlayback {
                session_id,
                player1: self.player1,
                player2: self.player2,
                player1_username,
                player2_username,
                turn_results: detailed_turns,
                final_player1_hp: battle_result.player1_hp,
                final_player2_hp: battle_result.player2_hp,
                winner: battle_result.winner,
                is_draw: battle_result.is_draw,
            },
        )
    }
}

/// The session after a call of `commit_moves`, whether it succeeded or not.
pub open spec fn commit_step(g: GameView, player: PlayerId, inputs: Seq<u8>, accepted: bool) -> GameView {
    if commit_refusal(g, player) is None && accepted && has_binding(inputs) {
        after_commit(g, player, binding_of(inputs))
    } else {
        g
    }
}

/// The session after a call of `reveal_moves`, whether it succeeded or not.
pub open spec fn reveal_step(g: GameView, player: PlayerId, inputs: Seq<u8>, plan: Seq<Move>) -> GameView {
    if reveal_refusal(g, player, inputs, plan) is None {
        after_reveal(g, player, plan)
    } else {
        g
    }
}

/// The session after a call of `resolve_battle`, whether it succeeded or not.
pub open spec fn resolve_step(g: GameView) -> GameView {
    if resolve_refusal(g) is None {
        after_resolve(g)
    } else {
        g
    }
}

/// Every operation keeps the invariant of a session.
pub proof fn law_steps_keep_invariant(
    g: GameView,
    player: PlayerId,
    inputs: Seq<u8>,
    accepted: bool,
    plan: Seq<Move>,
)
    requires
        g.wf(),
    ensures
        commit_step(g, player, inputs, accepted).wf(),
        reveal_step(g, player, inputs, plan).wf(),
        resolve_step(g).wf(),
{
}

/// What a later state of a session keeps of an earlier one: the players
/// and their stakes, every commitment with its binding value, every
/// revealed plan, and the outcome.
pub open spec fn extends(later: GameView, earlier: GameView) -> bool {
    &&& later.player1 == earlier.player1
    &&& later.player2 == earlier.player2
    &&& later.player1_points == earlier.player1_points
    &&& later.player2_points == earlier.player2_points
    &&& slot_extends(
        later.has_player1_commitment,
        later.player1_commitment,
        earlier.has_player1_commitment,
        earlier.player1_commitment,
    )
    &&& slot_extends(
        later.has_player2_commitment,
        later.player2_commitment,
        earlier.has_player2_commitment,
        earlier.player2_commitment,
    )
    &&& earlier.has_battle_result ==> later.has_battle_result && later.battle_result
        == earlier.battle_result
}

/// A slot only moves forward: once committed it keeps its binding value,
/// once revealed it keeps its plan.
pub open spec fn slot_extends(
    later_has: bool,
    later: CommitmentView,
    earlier_has: bool,
    earlier: CommitmentView,
) -> bool {
    &&& earlier_has ==> later_has && later.proof_id == earlier.proof_id
    &&& earlier.has_revealed ==> later.has_revealed && later.moves == earlier.moves
}

/// No operation takes anything back: a slot goes from empty to committed
/// to revealed and never changes what it holds, and the outcome, once
/// there, stays.
pub proof fn law_sessions_only_advance(
    g: GameView,
    player: PlayerId,
    inputs: Seq<u8>,
    accepted: bool,
    plan: Seq<Move>,
)
    requires
        g.wf(),
    ensures
        extends(commit_step(g, player, inputs, accepted), g),
        extends(reveal_step(g, player, inputs, plan), g),
        extends(resolve_step(g), g),
{
}

/// Resolving is idempotent: a second resolution finds the outcome of the
/// first in place, changes nothing and answers with that same outcome.
pub proof fn law_resolve_idempotent(g: GameView)
    requires
        g.wf(),
    ensures
        resolve_refusal(g) is None ==> resolve_refusal(resolve_step(g)) is None,
        resolve_step(resolve_step(g)) == resolve_step(g),
        resolve_refusal(g) is None ==> after_resolve(resolve_step(g)).battle_result
            == resolve_step(g).battle_result,
{
}

/// Once a session has its outcome, no operation changes the session.
pub proof fn law_outcome_is_final(
    g: GameView,
    player: PlayerId,
    inputs: Seq<u8>,
    accepted: bool,
    plan: Seq<Move>,
)
    requires
        g.wf(),
        g.has_battle_result,
    ensures
        commit_step(g, player, inputs, accepted) == g,
        reveal_step(g, player, inputs, plan) == g,
        resolve_step(g) == g,
{
}

/// A reveal succeeds only with the binding value stored at commit time.
/// With any other binding value, or with public inputs too short to hold
/// one, a player whose slot awaits its reveal is refused with a
/// protocol-integrity error, whatever three moves the plan holds, and the
/// session stays as it was.
pub proof fn law_reveal_needs_committed_binding(
    g: GameView,
    player: PlayerId,
    inputs: Seq<u8>,
    plan: Seq<Move>,
)
    requires
        g.wf(),
        player == g.player1 || player == g.player2,
    ensures
        ({
            let slot = if player == g.player1 {
                g.player1_commitment
            } else {
                g.player2_commitment
            };
            let matching = has_binding(inputs) && binding_of(inputs) == slot.proof_id;
            &&& reveal_refusal(g, player, inputs, plan) is None ==> matching
            &&& !matching ==> reveal_step(g, player, inputs, plan) == g
            &&& !matching && is_plan(plan) && g.both_committed() && !slot.has_revealed ==> {
                ||| reveal_refusal(g, player, inputs, plan) == Some(Error::CommitmentMismatch)
                ||| reveal_refusal(g, player, inputs, plan) == Some(Error::InvalidPublicInputs)
            }
        }),
{
}

/// The two slots are independent: commits by the two players give the same
/// session in either order, and so do their reveals.
pub proof fn law_players_commute(
    g: GameView,
    inputs1: Seq<u8>,
    accepted1: bool,
    plan1: Seq<Move>,
    inputs2: Seq<u8>,
    accepted2: bool,
    plan2: Seq<Move>,
)
    requires
        g.wf(),
    ensures
        commit_step(commit_step(g, g.player1, inputs1, accepted1), g.player2, inputs2, accepted2)
            == commit_step(
            commit_step(g, g.player2, inputs2, accepted2),
            g.player1,
            inputs1,
            accepted1,
        ),
        reveal_step(reveal_step(g, g.player1, inputs1, plan1), g.player2, inputs2, plan2)
            == reveal_step(reveal_step(g, g.player2, inputs2, plan2), g.player1, inputs1, plan1),
{
}

/// The complete protocol from a fresh session: with accepted proofs and
/// reveals that carry the committed binding values, every order in which
/// both commits precede both reveals leads to the same resolved session,
/// whose outcome is that of the two plans.
pub proof fn law_order_independence(
    g: GameView,
    commit1: Seq<u8>,
    commit2: Seq<u8>,
    reveal1: Seq<u8>,
    plan1: Seq<Move>,
    reveal2: Seq<u8>,
    plan2: Seq<Move>,
)
    requires
        g.wf(),
        !g.has_player1_commitment,
        !g.has_player2_commitment,
        has_binding(commit1),
        has_binding(commit2),
        has_binding(reveal1),
        has_binding(reveal2),
        binding_of(reveal1) == binding_of(commit1),
        binding_of(reveal2) == binding_of(commit2),
        is_plan(plan1),
        is_plan(plan2),
    ensures
        ({
            let c12 = commit_step(commit_step(g, g.player1, commit1, true), g.player2, commit2, true);
            let c21 = commit_step(commit_step(g, g.player2, commit2, true), g.player1, commit1, true);
            let r12 = reveal_step(reveal_step(c12, g.player1, reveal1, plan1), g.player2, reveal2, plan2);
            let r21 = reveal_step(reveal_step(c12, g.player2, reveal2, plan2), g.player1, reveal1, plan1);
            &&& c12 == c21
            &&& c12.both_committed()
            &&& r12 == r21
            &&& r12.both_revealed()
            &&& resolve_refusal(r12) is None
            &&& resolve_step(r12).has_battle_result
            &&& resolve_step(r12).battle_result == outcome(g.player1, g.player2, plan1, plan2)
        }),
{
}

} // verus!
