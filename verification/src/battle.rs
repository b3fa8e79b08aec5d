//! The battle engine: replays two plans into an outcome.

use vstd::prelude::*;
use crate::moves::{is_plan, Attack, Defense, Move, MoveSequence, PlayerId, TURNS_PER_BATTLE};

verus! {

/// Health that both sides start a battle with.
pub const STARTING_HP: i32 = 100;

/// Extra damage for using the same attack twice in a row.
pub const COMBO_2_BONUS: i32 = 10;

/// Extra damage for using the same attack three times in a row.
pub const COMBO_3_BONUS: i32 = 25;

/// Damage of an attack that is neither stopped nor part of a combo.
pub open spec fn base_damage(attack: Attack) -> int {
    match attack {
        Attack::Slash => 30,
        Attack::Fireball => 40,
        Attack::Lightning => 35,
    }
}

/// The one defense that stops the given attack.
pub open spec fn stopper(attack: Attack) -> Defense {
    match attack {
        Attack::Slash => Defense::Dodge,
        Attack::Fireball => Defense::Counter,
        Attack::Lightning => Defense::Block,
    }
}

/// Whether `defense` stops `attack`.
pub open spec fn stops(defense: Defense, attack: Attack) -> bool {
    defense == stopper(attack)
}

/// Combo bonus of `attack` on turn `turn`, looking back at the attacker's
/// own earlier moves in `plan`.
pub open spec fn combo_bonus(attack: Attack, plan: Seq<Move>, turn: int) -> int {
    if turn >= 2 && plan[turn - 1].attack == attack && plan[turn - 2].attack == attack {
        COMBO_3_BONUS as int
    } else if turn >= 1 && plan[turn - 1].attack == attack {
        COMBO_2_BONUS as int
    } else {
        0
    }
}

/// Damage that `attack` deals on turn `turn` against `defense`.
pub open spec fn damage(attack: Attack, defense: Defense, plan: Seq<Move>, turn: int) -> int {
    if stops(defense, attack) {
        0
    } else {
        base_damage(attack) + combo_bonus(attack, plan, turn)
    }
}

/// Computes the damage of one attack and whether the defense it met stopped it.
///
/// `move_sequence` is the attacker's own plan and `current_turn` the turn on
/// which `attack` is made; they decide the combo bonus.
pub fn calculate_damage_and_defense(
    attack: Attack,
    defense: Defense,
    move_sequence: &Vec<Move>,
    current_turn: u32,
) -> (r: (i32, bool))
    requires
        stops(defense, attack) || current_turn == 0 || current_turn <= move_sequence@.len(),
    ensures
        r.0 == damage(attack, defense, move_sequence@, current_turn as int),
        r.1 == stops(defense, attack),
{
    let base_damage: i32 = match attack {
        Attack::Slash => 30,
        Attack::Fireball => 40,
        Attack::Lightning => 35,
    };
    let blocked = match (attack, defense) {
        (Attack::Slash, Defense::Dodge) => true,
        (Attack::Fireball, Defense::Counter) => true,
        (Attack::Lightning, Defense::Block) => true,
        _ => false,
    };
    if blocked {
        return (0, true);
    }
    let mut combo_bonus: i32 = 0;
    if current_turn >= 1 {
        let prev_attack = move_sequence[(current_turn - 1) as usize].attack;
        if prev_attack == attack {
            combo_bonus = COMBO_2_BONUS;
        }
    }
    if current_turn >= 2 {
        let prev2_attack = move_sequence[(current_turn - 2) as usize].attack;
        let prev1_attack = move_sequence[(current_turn - 1) as usize].attack;
        if prev2_attack == attack && prev1_attack == attack {
            combo_bonus = COMBO_3_BONUS;
        }
    }
    (base_damage + combo_bonus, false)
}

/// What happened in one turn. The two sides strike at the same time.
#[derive(Clone, Copy, Debug, PartialEq, Eq, Structural)]
pub struct TurnResult {
    /// Index of the turn, from 0.
    pub turn: u32,
    /// Damage that player 1's attack dealt to player 2.
    pub player1_damage_dealt: i32,
    /// Damage that player 2's attack dealt to player 1.
    pub player2_damage_dealt: i32,
    /// Player 1's health after the turn; it may be negative.
    pub player1_hp_remaining: i32,
    /// Player 2's health after the turn; it may be negative.
    pub player2_hp_remaining: i32,
    /// Whether player 1's defense stopped the attack of player 2.
    pub player1_defense_successful: bool,
    /// Whether player 2's defense stopped the attack of player 1.
    pub player2_defense_successful: bool,
}

/// The result of a battle.
#[derive(Clone, Debug, PartialEq, Eq)]
pub struct BattleResult {
    pub player1_hp: i32,
    pub player2_hp: i32,
    /// The winner, or `None` for a draw.
    pub winner: Option<PlayerId>,
    pub is_draw: bool,
    /// One entry per turn that was played, in order.
    pub turn_results: Vec<TurnResult>,
}

/// A battle result as a mathematical value.
pub struct Outcome {
    pub player1_hp: i32,
    pub player2_hp: i32,
    pub winner: Option<PlayerId>,
    pub is_draw: bool,
    pub turn_results: Seq<TurnResult>,
}

impl View for BattleResult {
    type V = Outcome;

    open spec fn view(&self) -> Outcome {
        Outcome {
            player1_hp: self.player1_hp,
            player2_hp: self.player2_hp,
            winner: self.winner,
            is_draw: self.is_draw,
            turn_results: self.turn_results@,
        }
    }
}

/// The placeholder that stands where no battle has been resolved yet.
pub open spec fn empty_outcome() -> Outcome {
    Outcome { player1_hp: 0, player2_hp: 0, winner: None, is_draw: false, turn_results: Seq::empty() }
}

/// What the ledger is told at resolution: whether the first-named player
/// won. A draw is reported as `false`, like a win of the second player.
pub open spec fn player1_won(o: Outcome, player1: PlayerId) -> bool {
    !o.is_draw && o.winner == Some(player1)
}

impl BattleResult {
    /// The placeholder that a session holds until it is resolved.
    pub fn empty() -> (r: BattleResult)
        ensures
            r@ == empty_outcome(),
    {
        BattleResult {
            player1_hp: 0,
            player2_hp: 0,
            winner: None,
            is_draw: false,
            turn_results: Vec::new(),
        }
    }

    /// A copy of the result, turn by turn.
    pub fn copy(&self) -> (r: BattleResult)
        ensures
            r@ == self@,
    {
        let mut turn_results: Vec<TurnResult> = Vec::new();
        let mut i: usize = 0;
        while i < self.turn_results.len()
            invariant
                i <= self.turn_results.len(),
                turn_results@ =~= self.turn_results@.subrange(0, i as int),
            decreases self.turn_results.len() - i,
        {
            turn_results.push(self.turn_results[i]);
            i = i + 1;
        }
        assert(turn_results@ =~= self.turn_results@);
        BattleResult {
            player1_hp: self.player1_hp,
            player2_hp: self.player2_hp,
            winner: self.winner,
            is_draw: self.is_draw,
            turn_results,
        }
    }

    /// Whether two results are the same in every field and every turn.
    pub fn same(&self, other: &BattleResult) -> (r: bool)
        ensures
            r == (self@ == other@),
    {
        if self.player1_hp != other.player1_hp || self.player2_hp != other.player2_hp
            || self.is_draw != other.is_draw {
            return false;
        }
        let same_winner = match (&self.winner, &other.winner) {
            (Some(a), Some(b)) => a.same(b),
            (None, None) => true,
            _ => false,
        };
        if !same_winner {
            return false;
        }
        if self.turn_results.len() != other.turn_results.len() {
            return false;
        }
        let mut i: usize = 0;
        while i < self.turn_results.len()
            invariant
                i <= self.turn_results.len(),
                self.turn_results.len() == other.turn_results.len(),
                forall|j: int| 0 <= j < i ==> self.turn_results@[j] == other.turn_results@[j],
            decreases self.turn_results.len() - i,
        {
            if self.turn_results[i] != other.turn_results[i] {
                return false;
            }
            i = i + 1;
        }
        assert(self.turn_results@ =~= other.turn_results@);
        true
    }

    /// Whether the first-named player won, as reported to the ledger.
    pub fn player1_won(&self, player1: &PlayerId) -> (r: bool)
        ensures
            r == player1_won(self@, *player1),
    {
        if self.is_draw {
            false
        } else {
            match &self.winner {
                Some(w) => w.same(player1),
                None => false,
            }
        }
    }
}

/// Damage that the owner of `plan` deals on turn `turn` to a foe who follows `foe`.
pub open spec fn damage_dealt(plan: Seq<Move>, foe: Seq<Move>, turn: int) -> int {
    damage(plan[turn].attack, foe[turn].defense, plan, turn)
}

/// Health of the owner of `own` after the first `turns` turns against `foe`,
/// if none of them ended the battle.
pub open spec fn health_after(own: Seq<Move>, foe: Seq<Move>, turns: int) -> int
    decreases turns,
{
    if turns <= 0 {
        STARTING_HP as int
    } else {
        health_after(own, foe, turns - 1) - damage_dealt(foe, own, turns - 1)
    }
}

/// Whether a side is at or below zero health after `turns` turns.
pub open spec fn knocked_out(p1: Seq<Move>, p2: Seq<Move>, turns: int) -> bool {
    health_after(p1, p2, turns) <= 0 || health_after(p2, p1, turns) <= 0
}

/// Number of turns that are played: the battle stops after the first turn
/// that leaves a side knocked out, and after the last turn at the latest.
pub open spec fn turns_played(p1: Seq<Move>, p2: Seq<Move>) -> int {
    if knocked_out(p1, p2, 1) {
        1
    } else if knocked_out(p1, p2, 2) {
        2
    } else {
        3
    }
}

/// The record of turn `turn`.
pub open spec fn turn_result(p1: Seq<Move>, p2: Seq<Move>, turn: int) -> TurnResult {
    TurnResult {
        turn: turn as u32,
        player1_damage_dealt: damage_dealt(p1, p2, turn) as i32,
        player2_damage_dealt: damage_dealt(p2, p1, turn) as i32,
        player1_hp_remaining: health_after(p1, p2, turn + 1) as i32,
        player2_hp_remaining: health_after(p2, p1, turn + 1) as i32,
        player1_defense_successful: stops(p1[turn].defense, p2[turn].attack),
        player2_defense_successful: stops(p2[turn].defense, p1[turn].attack),
    }
}

/// Who wins with the given final health values: nobody if both sides are
/// down, else the side with more health, and player 1 on equal health.
pub open spec fn winner_of(player1: PlayerId, player2: PlayerId, hp1: int, hp2: int) -> Option<
    PlayerId,
> {
    if hp1 <= 0 && hp2 <= 0 {
        None
    } else if hp2 > hp1 {
        Some(player2)
    } else {
        Some(player1)
    }
}

/// The outcome of the battle between two complete plans.
pub open spec fn outcome(player1: PlayerId, player2: PlayerId, p1: Seq<Move>, p2: Seq<Move>) -> Outcome {
    let n = turns_played(p1, p2);
    let hp1 = health_after(p1, p2, n);
    let hp2 = health_after(p2, p1, n);
    Outcome {
        player1_hp: hp1 as i32,
        player2_hp: hp2 as i32,
        winner: winner_of(player1, player2, hp1, hp2),
        is_draw: hp1 <= 0 && hp2 <= 0,
        turn_results: Seq::new(n as nat, |t: int| turn_result(p1, p2, t)),
    }
}

/// One attack deals between 0 and 65 damage.
pub proof fn lemma_damage_bounds(attack: Attack, defense: Defense, plan: Seq<Move>, turn: int)
    ensures
        0 <= damage(attack, defense, plan, turn) <= 65,
{
}

/// After `turns` turns a side has lost at most 65 health per turn.
pub proof fn lemma_health_bounds(own: Seq<Move>, foe: Seq<Move>, turns: int)
    requires
        0 <= turns,
    ensures
        STARTING_HP - 65 * turns <= health_after(own, foe, turns) <= STARTING_HP,
    decreases turns,
{
    if turns > 0 {
        lemma_health_bounds(own, foe, turns - 1);
        lemma_damage_bounds(foe[turns - 1].attack, own[turns - 1].defense, foe, turns - 1);
    }
}

/// Replays two plans turn by turn.
///
/// On each turn both attacks are evaluated against the other side's defense
/// of the same turn and both damages are applied at once. The battle stops
/// after the first turn that leaves a side at or below zero health.
pub fn simulate_battle(
    player1: &PlayerId,
    player2: &PlayerId,
    p1_moves: &MoveSequence,
    p2_moves: &MoveSequence,
) -> (r: BattleResult)
    requires
        is_plan(p1_moves@),
        is_plan(p2_moves@),
    ensures
        r@ == outcome(*player1, *player2, p1_moves@, p2_moves@),
{
    let ghost p1 = p1_moves@;
    let ghost p2 = p2_moves@;
    let mut p1_hp: i32 = STARTING_HP;
    let mut p2_hp: i32 = STARTING_HP;
    let mut turn_results: Vec<TurnResult> = Vec::new();
    let mut turn: u32 = 0;
    let mut over = false;
    while turn < TURNS_PER_BATTLE && !over
        invariant
            p1 == p1_moves@,
            p2 == p2_moves@,
            is_plan(p1),
            is_plan(p2),
            turn <= TURNS_PER_BATTLE,
            p1_hp == health_after(p1, p2, turn as int),
            p2_hp == health_after(p2, p1, turn as int),
            turn_results@ =~= Seq::new(turn as nat, |t: int| turn_result(p1, p2, t)),
            forall|k: int| 1 <= k < turn ==> !knocked_out(p1, p2, k),
            over == (turn >= 1 && knocked_out(p1, p2, turn as int)),
        decreases (if over { 0int } else { 1int }) + TURNS_PER_BATTLE - turn,
    {
        let p1_move = p1_moves.moves[turn as usize];
        let p2_move = p2_moves.moves[turn as usize];
        let (p1_damage, p1_attack_stopped) = calculate_damage_and_defense(
            p1_move.attack,
            p2_move.defense,
            &p1_moves.moves,
            turn,
        );
        let (p2_damage, p2_attack_stopped) = calculate_damage_and_defense(
            p2_move.attack,
            p1_move.defense,
            &p2_moves.moves,
            turn,
        );
        proof {
            lemma_health_bounds(p1, p2, turn as int);
            lemma_health_bounds(p2, p1, turn as int);
        }
        p1_hp = p1_hp - p2_damage;
        p2_hp = p2_hp - p1_damage;
        turn_results.push(
            TurnResult {
                turn,
                player1_damage_dealt: p1_damage,
                player2_damage_dealt: p2_damage,
                player1_hp_remaining: p1_hp,
                player2_hp_remaining: p2_hp,
                player1_defense_successful: p2_attack_stopped,
                player2_defense_successful: p1_attack_stopped,
            },
        );
        if p1_hp <= 0 || p2_hp <= 0 {
            over = true;
        }
        turn = turn + 1;
    }
    assert(turn == turns_played(p1, p2));
    let (winner, is_draw) = if p1_hp <= 0 && p2_hp <= 0 {
        (None, true)
    } else if p1_hp > p2_hp {
        (Some(*player1), false)
    } else if p2_hp > p1_hp {
        (Some(*player2), false)
    } else {
        (Some(*player1), false)
    };
    BattleResult { player1_hp: p1_hp, player2_hp: p2_hp, winner, is_draw, turn_results }
}

/// The stop table pairs each attack with exactly one defense: that defense
/// stops it, leaving zero damage, and the other two leave the attack as it is.
pub proof fn law_stop_table(attack: Attack, defense: Defense, other: Defense, plan: Seq<Move>, turn: int)
    ensures
        stops(stopper(attack), attack),
        stops(defense, attack) <==> defense == stopper(attack),
        stops(defense, attack) ==> damage(attack, defense, plan, turn) == 0,
        !stops(defense, attack) ==> damage(attack, defense, plan, turn) >= base_damage(attack),
        !stops(defense, attack) && !stops(other, attack) ==> damage(attack, defense, plan, turn)
            == damage(attack, other, plan, turn),
{
}

/// An attack that is not stopped and follows two uses of the same attack
/// deals its base damage plus the three-in-a-row bonus.
pub proof fn law_combo_three_in_a_row(plan: Seq<Move>, foe: Seq<Move>)
    requires
        is_plan(plan),
        is_plan(foe),
        plan[0].attack == plan[1].attack,
        plan[1].attack == plan[2].attack,
        !stops(foe[2].defense, plan[2].attack),
    ensures
        damage_dealt(plan, foe, 2) == base_damage(plan[2].attack) + COMBO_3_BONUS,
{
}

/// An attack that is not stopped and repeats only the attack of the turn
/// before deals its base damage plus the two-in-a-row bonus.
pub proof fn law_combo_two_in_a_row(plan: Seq<Move>, foe: Seq<Move>, turn: int)
    requires
        is_plan(plan),
        is_plan(foe),
        1 <= turn < 3,
        plan[turn - 1].attack == plan[turn].attack,
        turn == 2 ==> plan[0].attack != plan[2].attack,
        !stops(foe[turn].defense, plan[turn].attack),
    ensures
        damage_dealt(plan, foe, turn) == base_damage(plan[turn].attack) + COMBO_2_BONUS,
{
}

/// An attack that is not stopped and does not repeat the attack of the turn
/// before deals its base damage and no more.
pub proof fn law_no_combo(plan: Seq<Move>, foe: Seq<Move>, turn: int)
    requires
        is_plan(plan),
        is_plan(foe),
        0 <= turn < 3,
        turn >= 1 ==> plan[turn - 1].attack != plan[turn].attack,
        !stops(foe[turn].defense, plan[turn].attack),
    ensures
        damage_dealt(plan, foe, turn) == base_damage(plan[turn].attack),
{
}

/// No turn result follows a knockout: every turn but the last one played
/// leaves both sides above zero health, and a battle that ends before the
/// third turn ends on a knockout.
pub proof fn law_knockout_truncation(player1: PlayerId, player2: PlayerId, p1: Seq<Move>, p2: Seq<Move>)
    requires
        is_plan(p1),
        is_plan(p2),
    ensures
        ({
            let turns = outcome(player1, player2, p1, p2).turn_results;
            &&& 1 <= turns.len() <= 3
            &&& forall|t: int|
                0 <= t < turns.len() - 1 ==> (#[trigger] turns[t]).player1_hp_remaining > 0
                    && turns[t].player2_hp_remaining > 0
            &&& turns.len() < 3 ==> turns.last().player1_hp_remaining <= 0
                || turns.last().player2_hp_remaining <= 0
            &&& forall|t: int| 0 <= t < turns.len() ==> (#[trigger] turns[t]).turn == t
        }),
{
    reveal_with_fuel(health_after, 4);
    lemma_health_bounds(p1, p2, 1);
    lemma_health_bounds(p2, p1, 1);
    lemma_health_bounds(p1, p2, 2);
    lemma_health_bounds(p2, p1, 2);
}

/// With these damage values nobody can fall within two turns, so every
/// battle between complete plans runs all three turns.
pub proof fn law_battle_runs_three_turns(p1: Seq<Move>, p2: Seq<Move>)
    requires
        is_plan(p1),
        is_plan(p2),
    ensures
        turns_played(p1, p2) == 3,
        health_after(p1, p2, 2) >= 10,
        health_after(p2, p1, 2) >= 10,
{
    reveal_with_fuel(health_after, 4);
}

/// The final health values of an outcome are those of its last turn result.
pub proof fn law_final_health(player1: PlayerId, player2: PlayerId, p1: Seq<Move>, p2: Seq<Move>)
    requires
        is_plan(p1),
        is_plan(p2),
    ensures
        ({
            let o = outcome(player1, player2, p1, p2);
            &&& o.player1_hp == o.turn_results.last().player1_hp_remaining
            &&& o.player2_hp == o.turn_results.last().player2_hp_remaining
        }),
{
}

/// A battle that leaves both sides at or below zero health is a draw with
/// no winner, and no other battle is a draw.
pub proof fn law_draw(player1: PlayerId, player2: PlayerId, p1: Seq<Move>, p2: Seq<Move>)
    requires
        is_plan(p1),
        is_plan(p2),
    ensures
        ({
            let o = outcome(player1, player2, p1, p2);
            &&& o.is_draw <==> o.player1_hp <= 0 && o.player2_hp <= 0
            &&& o.is_draw <==> o.winner is None
        }),
{
    lemma_health_bounds(p1, p2, turns_played(p1, p2));
    lemma_health_bounds(p2, p1, turns_played(p1, p2));
}

/// Outside a draw the side with more health wins, and on equal health the
/// first-named participant does.
pub proof fn law_winner(player1: PlayerId, player2: PlayerId, p1: Seq<Move>, p2: Seq<Move>)
    requires
        is_plan(p1),
        is_plan(p2),
    ensures
        ({
            let o = outcome(player1, player2, p1, p2);
            &&& o.player1_hp == o.player2_hp && o.player1_hp > 0 ==> o.winner == Some(player1)
                && !o.is_draw
            &&& !o.is_draw && o.player1_hp > o.player2_hp ==> o.winner == Some(player1)
            &&& !o.is_draw && o.player2_hp > o.player1_hp ==> o.winner == Some(player2)
        }),
{
    lemma_health_bounds(p1, p2, turns_played(p1, p2));
    lemma_health_bounds(p2, p1, turns_played(p1, p2));
}

/// The outcome depends on the two participants and the two plans alone:
/// equal inputs give equal outcomes.
pub proof fn law_outcome_deterministic(
    player1: PlayerId,
    player2: PlayerId,
    p1: Seq<Move>,
    p2: Seq<Move>,
    q1: Seq<Move>,
    q2: Seq<Move>,
)
    requires
        p1 =~= q1,
        p2 =~= q2,
    ensures
        outcome(player1, player2, p1, p2) == outcome(player1, player2, q1, q2),
{
}

} // verus!
