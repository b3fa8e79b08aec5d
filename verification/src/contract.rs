//! The operations of the contract, each on the records that the caller
//! found in its store.
//!
//! The store itself is the caller's: it looks records up, hands them in as
//! they are (`None` where nothing is stored), and writes back what an
//! operation returns. Every rule of the protocol is decided here.

use vstd::prelude::*;
use crate::battle::player1_won;
use crate::challenge::{
    find_linked_challenge, has_status, linked, partition_challenges, Challenge, ChallengeStatus,
    CHALLENGE_LIFETIME,
};
use crate::error::Error;
use crate::game::{
    commit_refusal, commit_step, name_view, new_game, playback_of, resolve_refusal, resolve_step,
    reveal_refusal, reveal_step, Game, GamePlayback, Resolution,
};
use crate::gateway::{binding_of, bytes_content, has_binding};
use crate::moves::{Move, PlayerId};
use crate::username::{
    check_username, decide_username, string_content, username_decision, username_refusal,
    UsernameChange,
};
use soroban_sdk::{Bytes, String};

verus! {

/// Ledgers for which a session is kept in the store: thirty days.
pub const GAME_TTL_LEDGERS: u32 = 518_400;

/// Ledgers for which a challenge is kept in the store: seven days.
pub const CHALLENGE_TTL_LEDGERS: u32 = 120_960;

/// The entry points of the contract.
#[derive(Clone, Copy, Debug, PartialEq, Eq)]
pub struct ClashContract;

impl ClashContract {
    /// Creates the session that is stored when a game starts. The two
    /// players must differ.
    pub fn start_game(player1: PlayerId, player2: PlayerId, player1_points: i128, player2_points: i128) -> (g: Game)
        requires
            player1 != player2,
        ensures
            g@ == new_game(player1, player2, player1_points, player2_points),
            g@.wf(),
    {
        Game::new(player1, player2, player1_points, player2_points)
    }

    /// Commits `player` in the stored session `game`; see
    /// `Game::commit_moves`. Hands back the session to store and the
    /// binding value.
    pub fn commit_moves(game: Option<Game>, player: &PlayerId, public_inputs: &Bytes, accepted: bool) -> (r:
        Result<(Game, [u8; 32]), Error>)
        ensures
            match game {
                None => r == Err::<(Game, [u8; 32]), Error>(Error::GameNotFound),
                Some(g) => match commit_refusal(g@, *player) {
                    Some(e) => r == Err::<(Game, [u8; 32]), Error>(e),
                    None => if accepted && has_binding(bytes_content(*public_inputs)) {
                        &&& r matches Ok(pair)
                        &&& pair.1@ == binding_of(bytes_content(*public_inputs))
                        &&& pair.0@ == commit_step(g@, *player, bytes_content(*public_inputs), true)
                        &&& g@.wf() ==> pair.0@.wf()
                    } else {
                        r == Err::<(Game, [u8; 32]), Error>(Error::ProofVerificationFailed)
                    },
                },
            },
    {
        let mut g = match game {
            Some(g) => g,
            None => {
                return Err(Error::GameNotFound);
            },
        };
        match g.commit_moves(player, public_inputs, accepted) {
            Ok(hash) => Ok((g, hash)),
            Err(e) => Err(e),
        }
    }

    /// Reveals the plan of `player` in the stored session `game`; see
    /// `Game::reveal_moves`. A plan that does not have three moves is
    /// refused before the session is looked at.
    pub fn reveal_moves(game: Option<Game>, player: &PlayerId, public_inputs: &Bytes, moves: Vec<Move>) -> (r:
        Result<Game, Error>)
        ensures
            moves@.len() != 3 ==> r == Err::<Game, Error>(Error::InvalidMoveSequence),
            moves@.len() == 3 ==> match game {
                None => r == Err::<Game, Error>(Error::GameNotFound),
                Some(g) => match reveal_refusal(g@, *player, bytes_content(*public_inputs), moves@) {
                    Some(e) => r == Err::<Game, Error>(e),
                    None => {
                        &&& r matches Ok(h)
                        &&& h@ == reveal_step(g@, *player, bytes_content(*public_inputs), moves@)
                        &&& g@.wf() ==> h@.wf()
                    },
                },
            },
    {
        if moves.len() != 3 {
            return Err(Error::InvalidMoveSequence);
        }
        let mut g = match game {
            Some(g) => g,
            None => {
                return Err(Error::GameNotFound);
            },
        };
        match g.reveal_moves(player, public_inputs, moves) {
            Ok(()) => Ok(g),
            Err(e) => Err(e),
        }
    }

    /// Resolves the stored session `game`; see `Game::resolve_battle`.
    /// Hands back the session to store and the resolution.
    pub fn resolve_battle(game: Option<Game>) -> (r: Result<(Game, Resolution), Error>)
        requires
            game matches Some(g) ==> g@.wf(),
        ensures
            match game {
                None => r == Err::<(Game, Resolution), Error>(Error::GameNotFound),
                Some(g) => match resolve_refusal(g@) {
                    Some(e) => r == Err::<(Game, Resolution), Error>(e),
                    None => {
                        &&& r matches Ok(pair)
                        &&& pair.0@ == resolve_step(g@)
                        &&& pair.0@.wf()
                        &&& pair.1.result@ == pair.0@.battle_result
                        &&& pair.1.hub_report == if g@.has_battle_result {
                            None::<bool>
                        } else {
                            Some(player1_won(pair.1.result@, g@.player1))
                        }
                    },
                },
            },
    {
        let mut g = match game {
            Some(g) => g,
            None => {
                return Err(Error::GameNotFound);
            },
        };
        match g.resolve_battle() {
            Ok(resolution) => Ok((g, resolution)),
            Err(e) => Err(e),
        }
    }

    /// The stored session, or `GameNotFound`.
    pub fn get_game(game: Option<Game>) -> (r: Result<Game, Error>)
        ensures
            r == match game {
                Some(g) => Ok::<Game, Error>(g),
                None => Err::<Game, Error>(Error::GameNotFound),
            },
    {
        match game {
            Some(g) => Ok(g),
            None => Err(Error::GameNotFound),
        }
    }

    /// The playback of the stored session `game`; see `Game::playback`.
    pub fn get_game_playback(
        session_id: u32,
        game: Option<Game>,
        player1_username: Option<Vec<u8>>,
        player2_username: Option<Vec<u8>>,
    ) -> (r: Result<GamePlayback, Error>)
        requires
            game matches Some(g) ==> g@.wf(),
        ensures
            match game {
                None => r == Err::<GamePlayback, Error>(Error::GameNotFound),
                Some(g) => if g@.both_revealed() {
                    r matches Ok(p) && p@ == playback_of(
                        g@,
                        session_id,
                        name_view(player1_username),
                        name_view(player2_username),
                    )
                } else {
                    r == Err::<GamePlayback, Error>(Error::BothPlayersNotCommitted)
                },
            },
    {
        match game {
            Some(g) => g.playback(session_id, player1_username, player2_username),
            None => Err(Error::GameNotFound),
        }
    }

    /// Creates the challenge that `challenger` sends to `challenged`.
    /// `counter` is the number of challenges sent so far: it becomes the
    /// new challenge's id. Hands back the id, the challenge to store and
    /// the next value of the counter.
    pub fn send_challenge(
        counter: u32,
        challenger: PlayerId,
        challenged: PlayerId,
        points_wagered: i128,
        now: u64,
    ) -> (r: Result<(u32, Challenge, u32), Error>)
        requires
            challenger != challenged ==> counter < u32::MAX && now + CHALLENGE_LIFETIME <= u64::MAX,
        ensures
            challenger == challenged ==> r == Err::<(u32, Challenge, u32), Error>(
                Error::CannotChallengeSelf,
            ),
            challenger != challenged ==> r == Ok::<(u32, Challenge, u32), Error>(
                (
                    counter,
                    Challenge::sent(challenger, challenged, points_wagered, now),
                    (counter + 1) as u32,
                ),
            ),
    {
        match Challenge::new(challenger, challenged, points_wagered, now) {
            Ok(challenge) => Ok((counter, challenge, counter + 1)),
            Err(e) => Err(e),
        }
    }

    /// Accepts the stored challenge on behalf of `challenged` and starts
    /// session `session_id` with the wagered points as both stakes. Hands
    /// back the challenge and the session to store.
    pub fn accept_challenge(challenge: Option<Challenge>, challenged: &PlayerId, session_id: u32, now: u64) -> (r:
        Result<(Challenge, Game), Error>)
        requires
            challenge matches Some(c) ==> c.wf(),
        ensures
            match challenge {
                None => r == Err::<(Challenge, Game), Error>(Error::ChallengeNotFound),
                Some(c) => match c.accept_refusal(*challenged, now) {
                    Some(e) => r == Err::<(Challenge, Game), Error>(e),
                    None => {
                        &&& r matches Ok(pair)
                        &&& pair.0 == c.accepted(session_id)
                        &&& pair.0.wf()
                        &&& pair.1@ == new_game(
                            c.challenger,
                            c.challenged,
                            c.points_wagered,
                            c.points_wagered,
                        )
                        &&& pair.1@.wf()
                    },
                },
            },
    {
        let mut c = match challenge {
            Some(c) => c,
            None => {
                return Err(Error::ChallengeNotFound);
            },
        };
        match c.accept(challenged, session_id, now) {
            Ok(()) => {},
            Err(e) => {
                return Err(e);
            },
        }
        let game = ClashContract::start_game(
            c.challenger,
            c.challenged,
            c.points_wagered,
            c.points_wagered,
        );
        Ok((c, game))
    }

    /// Groups a player's stored challenges by their status at `now`: the
    /// active, the completed and the expired ones.
    pub fn get_player_challenges(challenges: &Vec<Challenge>, now: u64) -> (r: (
        Vec<Challenge>,
        Vec<Challenge>,
        Vec<Challenge>,
    ))
        ensures
            r.0@ == challenges@.filter(has_status(now, ChallengeStatus::Active)),
            r.1@ == challenges@.filter(has_status(now, ChallengeStatus::Completed)),
            r.2@ == challenges@.filter(has_status(now, ChallengeStatus::Expired)),
    {
        partition_challenges(challenges, now)
    }

    /// Finds the challenge to mark as completed when session `session_id`
    /// is resolved: the first stored challenge that started it. Hands back
    /// its id and the completed challenge to store, or `None` if the
    /// session came from no challenge.
    pub fn mark_challenge_completed(challenges: &Vec<Option<Challenge>>, session_id: u32) -> (r: Option<
        (usize, Challenge),
    >)
        ensures
            match r {
                Some((i, done)) => {
                    &&& i < challenges@.len()
                    &&& linked(challenges@[i as int], session_id)
                    &&& forall|j: int| 0 <= j < i ==> !linked(#[trigger] challenges@[j], session_id)
                    &&& done == (Challenge { is_completed: true, ..challenges@[i as int]->0 })
                    &&& challenges@[i as int]->0.wf() ==> done.wf()
                },
                None => forall|j: int|
                    0 <= j < challenges@.len() ==> !linked(#[trigger] challenges@[j], session_id),
            },
    {
        match find_linked_challenge(challenges, session_id) {
            Some(i) => {
                match challenges[i] {
                    Some(c) => {
                        let mut done = c;
                        done.is_completed = true;
                        Some((i, done))
                    },
                    None => None,
                }
            },
            None => None,
        }
    }

    /// Decides a request of `caller` for the username `username`.
    ///
    /// `name_owner` is the player who holds that name in the directory, if
    /// any; `old_name_owner` is the player whom the directory lists for the
    /// caller's present name, if the caller has one. Hands back the bytes
    /// of the name and what to do with the directory.
    pub fn set_username(
        caller: &PlayerId,
        username: &String,
        name_owner: Option<PlayerId>,
        old_name_owner: Option<PlayerId>,
    ) -> (r: Result<(Vec<u8>, UsernameChange), Error>)
        ensures
            match username_refusal(string_content(*username)) {
                Some(e) => r == Err::<(Vec<u8>, UsernameChange), Error>(e),
                None => match username_decision(*caller, name_owner, old_name_owner) {
                    Err(e) => r == Err::<(Vec<u8>, UsernameChange), Error>(e),
                    Ok(change) => {
                        &&& r matches Ok(pair)
                        &&& pair.0@ == string_content(*username)
                        &&& pair.1 == change
                    },
                },
            },
    {
        let name = match check_username(username) {
            Ok(name) => name,
            Err(e) => {
                return Err(e);
            },
        };
        match decide_username(caller, name_owner, old_name_owner) {
            Ok(change) => Ok((name, change)),
            Err(e) => Err(e),
        }
    }
}

} // verus!
