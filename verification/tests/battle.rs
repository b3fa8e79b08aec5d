use clash::battle::{
    calculate_damage_and_defense, simulate_battle, BattleResult, TurnResult, COMBO_2_BONUS,
    COMBO_3_BONUS, STARTING_HP,
};
use clash::moves::{Attack, Defense, Move, MoveSequence, PlayerId};

fn mv(attack: Attack, defense: Defense) -> Move {
    Move { attack, defense }
}

fn plan(moves: [(Attack, Defense); 3]) -> MoveSequence {
    MoveSequence { moves: moves.iter().map(|m| mv(m.0, m.1)).collect() }
}

fn alice() -> PlayerId {
    PlayerId { key: [b'A'; 56] }
}

fn bob() -> PlayerId {
    PlayerId { key: [b'B'; 56] }
}

fn dealt_by_player1(r: &BattleResult) -> Vec<i32> {
    r.turn_results.iter().map(|t| t.player1_damage_dealt).collect()
}

fn dealt_by_player2(r: &BattleResult) -> Vec<i32> {
    r.turn_results.iter().map(|t| t.player2_damage_dealt).collect()
}

const ATTACKS: [Attack; 3] = [Attack::Slash, Attack::Fireball, Attack::Lightning];
const DEFENSES: [Defense; 3] = [Defense::Block, Defense::Dodge, Defense::Counter];

#[test]
fn constants_have_their_values() {
    assert_eq!(STARTING_HP, 100);
    assert_eq!(COMBO_2_BONUS, 10);
    assert_eq!(COMBO_3_BONUS, 25);
}

#[test]
fn base_damage_of_each_attack() {
    let seq = vec![mv(Attack::Slash, Defense::Block)];
    assert_eq!(calculate_damage_and_defense(Attack::Slash, Defense::Block, &seq, 0), (30, false));
    assert_eq!(calculate_damage_and_defense(Attack::Fireball, Defense::Block, &seq, 0), (40, false));
    assert_eq!(calculate_damage_and_defense(Attack::Lightning, Defense::Dodge, &seq, 0), (35, false));
}

#[test]
fn each_attack_is_stopped_by_exactly_one_defense() {
    let seq: Vec<Move> = Vec::new();
    for attack in ATTACKS {
        let stopper = match attack {
            Attack::Slash => Defense::Dodge,
            Attack::Fireball => Defense::Counter,
            Attack::Lightning => Defense::Block,
        };
        let base = match attack {
            Attack::Slash => 30,
            Attack::Fireball => 40,
            Attack::Lightning => 35,
        };
        for defense in DEFENSES {
            let got = calculate_damage_and_defense(attack, defense, &seq, 0);
            if defense == stopper {
                assert_eq!(got, (0, true));
            } else {
                assert_eq!(got, (base, false));
            }
        }
    }
}

#[test]
fn a_stopped_attack_earns_no_combo() {
    let seq = vec![mv(Attack::Fireball, Defense::Block); 3];
    assert_eq!(calculate_damage_and_defense(Attack::Fireball, Defense::Counter, &seq, 2), (0, true));
}

#[test]
fn three_in_a_row_earns_the_large_bonus() {
    for attack in ATTACKS {
        let seq = vec![mv(attack, Defense::Block); 3];
        let open = if attack == Attack::Lightning { Defense::Dodge } else { Defense::Block };
        let base = calculate_damage_and_defense(attack, open, &seq, 0).0;
        assert_eq!(calculate_damage_and_defense(attack, open, &seq, 1), (base + 10, false));
        assert_eq!(calculate_damage_and_defense(attack, open, &seq, 2), (base + 25, false));
    }
}

#[test]
fn two_in_a_row_then_another_attack() {
    let seq = vec![
        mv(Attack::Slash, Defense::Block),
        mv(Attack::Slash, Defense::Block),
        mv(Attack::Fireball, Defense::Block),
    ];
    assert_eq!(calculate_damage_and_defense(Attack::Slash, Defense::Block, &seq, 0), (30, false));
    assert_eq!(calculate_damage_and_defense(Attack::Slash, Defense::Block, &seq, 1), (40, false));
    assert_eq!(calculate_damage_and_defense(Attack::Fireball, Defense::Block, &seq, 2), (40, false));
}

#[test]
fn a_repeat_on_the_last_two_turns_earns_the_small_bonus() {
    let seq = vec![
        mv(Attack::Fireball, Defense::Block),
        mv(Attack::Slash, Defense::Block),
        mv(Attack::Slash, Defense::Block),
    ];
    assert_eq!(calculate_damage_and_defense(Attack::Slash, Defense::Block, &seq, 2), (40, false));
}

#[test]
fn a_gap_breaks_the_combo() {
    let seq = vec![
        mv(Attack::Slash, Defense::Block),
        mv(Attack::Fireball, Defense::Block),
        mv(Attack::Slash, Defense::Block),
    ];
    assert_eq!(calculate_damage_and_defense(Attack::Fireball, Defense::Block, &seq, 1), (40, false));
    assert_eq!(calculate_damage_and_defense(Attack::Slash, Defense::Block, &seq, 2), (30, false));
}

#[test]
fn the_combo_looks_at_the_attackers_own_plan() {
    let a = plan([
        (Attack::Slash, Defense::Block),
        (Attack::Fireball, Defense::Block),
        (Attack::Lightning, Defense::Block),
    ]);
    let b = plan([(Attack::Slash, Defense::Counter); 3]);
    let r = simulate_battle(&alice(), &bob(), &a, &b);
    assert_eq!(dealt_by_player1(&r), vec![30, 0, 35]);
    assert_eq!(dealt_by_player2(&r), vec![30, 40, 55]);
}

#[test]
fn three_slashes_against_a_foe_who_never_dodges() {
    let a = plan([(Attack::Slash, Defense::Dodge); 3]);
    let b = plan([(Attack::Slash, Defense::Block); 3]);
    let r = simulate_battle(&alice(), &bob(), &a, &b);
    assert_eq!(dealt_by_player1(&r), vec![30, 40, 55]);
    assert_eq!(dealt_by_player2(&r), vec![0, 0, 0]);
    assert_eq!(r.player1_hp, 100);
    assert_eq!(r.player2_hp, -25);
    assert_eq!(r.winner, Some(alice()));
    assert!(!r.is_draw);
    assert_eq!(
        r.turn_results,
        vec![
            TurnResult {
                turn: 0,
                player1_damage_dealt: 30,
                player2_damage_dealt: 0,
                player1_hp_remaining: 100,
                player2_hp_remaining: 70,
                player1_defense_successful: true,
                player2_defense_successful: false,
            },
            TurnResult {
                turn: 1,
                player1_damage_dealt: 40,
                player2_damage_dealt: 0,
                player1_hp_remaining: 100,
                player2_hp_remaining: 30,
                player1_defense_successful: true,
                player2_defense_successful: false,
            },
            TurnResult {
                turn: 2,
                player1_damage_dealt: 55,
                player2_damage_dealt: 0,
                player1_hp_remaining: 100,
                player2_hp_remaining: -25,
                player1_defense_successful: true,
                player2_defense_successful: false,
            },
        ]
    );
}

#[test]
fn both_sides_down_is_a_draw() {
    let a = plan([(Attack::Fireball, Defense::Block); 3]);
    let b = plan([(Attack::Fireball, Defense::Dodge); 3]);
    let r = simulate_battle(&alice(), &bob(), &a, &b);
    assert_eq!(r.player1_hp, -55);
    assert_eq!(r.player2_hp, -55);
    assert!(r.is_draw);
    assert_eq!(r.winner, None);
    assert!(!r.player1_won(&alice()));
}

#[test]
fn both_sides_down_with_unequal_health_is_still_a_draw() {
    let a = plan([(Attack::Fireball, Defense::Block); 3]);
    let b = plan([(Attack::Slash, Defense::Dodge); 3]);
    let r = simulate_battle(&alice(), &bob(), &a, &b);
    assert_eq!(r.player1_hp, -25);
    assert_eq!(r.player2_hp, -55);
    assert!(r.is_draw);
    assert_eq!(r.winner, None);
}

#[test]
fn equal_positive_health_goes_to_player1() {
    let a = plan([(Attack::Slash, Defense::Dodge); 3]);
    let b = plan([(Attack::Slash, Defense::Dodge); 3]);
    let r = simulate_battle(&alice(), &bob(), &a, &b);
    assert_eq!(r.player1_hp, 100);
    assert_eq!(r.player2_hp, 100);
    assert!(!r.is_draw);
    assert_eq!(r.winner, Some(alice()));
    assert!(r.player1_won(&alice()));

    let swapped = simulate_battle(&bob(), &alice(), &b, &a);
    assert_eq!(swapped.winner, Some(bob()));
}

#[test]
fn more_health_wins_for_player2() {
    let a = plan([(Attack::Slash, Defense::Block); 3]);
    let b = plan([(Attack::Fireball, Defense::Block); 3]);
    let r = simulate_battle(&alice(), &bob(), &a, &b);
    assert_eq!(r.player1_hp, 100 - 155);
    assert_eq!(r.player2_hp, 100 - 125);
    assert!(r.is_draw);

    let c = plan([
        (Attack::Slash, Defense::Counter),
        (Attack::Lightning, Defense::Counter),
        (Attack::Slash, Defense::Block),
    ]);
    let d = plan([
        (Attack::Fireball, Defense::Dodge),
        (Attack::Lightning, Defense::Dodge),
        (Attack::Fireball, Defense::Dodge),
    ]);
    let r = simulate_battle(&alice(), &bob(), &c, &d);
    assert_eq!(dealt_by_player1(&r), vec![0, 35, 0]);
    assert_eq!(dealt_by_player2(&r), vec![0, 35, 40]);
    assert_eq!(r.player1_hp, 25);
    assert_eq!(r.player2_hp, 65);
    assert_eq!(r.winner, Some(bob()));
    assert!(!r.is_draw);
    assert!(!r.player1_won(&alice()));
}

#[test]
fn damage_is_applied_to_both_sides_at_once() {
    let a = plan([(Attack::Fireball, Defense::Block); 3]);
    let b = plan([(Attack::Fireball, Defense::Block); 3]);
    let r = simulate_battle(&alice(), &bob(), &a, &b);
    let last = r.turn_results[2];
    assert_eq!(last.player1_damage_dealt, 65);
    assert_eq!(last.player2_damage_dealt, 65);
    assert_eq!(last.player1_hp_remaining, -55);
    assert_eq!(last.player2_hp_remaining, -55);
}

#[test]
fn every_battle_runs_three_turns_and_nobody_falls_before_the_last() {
    for a1 in ATTACKS {
        for a2 in ATTACKS {
            for d in DEFENSES {
                let a = plan([(a1, d), (a1, d), (a2, d)]);
                let b = plan([(a2, d), (a2, d), (a2, d)]);
                let r = simulate_battle(&alice(), &bob(), &a, &b);
                assert_eq!(r.turn_results.len(), 3);
                for (i, t) in r.turn_results.iter().enumerate() {
                    assert_eq!(t.turn as usize, i);
                    if i < 2 {
                        assert!(t.player1_hp_remaining > 0);
                        assert!(t.player2_hp_remaining > 0);
                    }
                }
                assert_eq!(r.player1_hp, r.turn_results[2].player1_hp_remaining);
                assert_eq!(r.player2_hp, r.turn_results[2].player2_hp_remaining);
            }
        }
    }
}

#[test]
fn the_same_plans_give_the_same_result() {
    let a = plan([
        (Attack::Lightning, Defense::Counter),
        (Attack::Lightning, Defense::Dodge),
        (Attack::Slash, Defense::Block),
    ]);
    let b = plan([
        (Attack::Fireball, Defense::Block),
        (Attack::Slash, Defense::Dodge),
        (Attack::Slash, Defense::Counter),
    ]);
    let first = simulate_battle(&alice(), &bob(), &a, &b);
    let second = simulate_battle(&alice(), &bob(), &a, &b);
    assert_eq!(first, second);
    assert!(first.same(&second));
    assert_eq!(first.copy(), first);
}

#[test]
fn the_placeholder_result_is_empty() {
    let e = BattleResult::empty();
    assert_eq!(e.player1_hp, 0);
    assert_eq!(e.player2_hp, 0);
    assert_eq!(e.winner, None);
    assert!(!e.is_draw);
    assert!(e.turn_results.is_empty());
}
