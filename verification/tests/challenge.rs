use clash::challenge::{
    find_linked_challenge, partition_challenges, Challenge, ChallengeStatus, CHALLENGE_LIFETIME,
};
use clash::contract::{ClashContract, CHALLENGE_TTL_LEDGERS, GAME_TTL_LEDGERS};
use clash::error::Error;
use clash::game::Game;
use clash::moves::PlayerId;

fn alice() -> PlayerId {
    PlayerId { key: [b'A'; 56] }
}

fn bob() -> PlayerId {
    PlayerId { key: [b'B'; 56] }
}

fn carol() -> PlayerId {
    PlayerId { key: [b'C'; 56] }
}

fn sent(now: u64) -> Challenge {
    Challenge::new(alice(), bob(), 50, now).unwrap()
}

#[test]
fn retention_windows() {
    assert_eq!(CHALLENGE_LIFETIME, 7 * 24 * 60 * 60);
    assert_eq!(GAME_TTL_LEDGERS, 518_400);
    assert_eq!(CHALLENGE_TTL_LEDGERS, 120_960);
}

#[test]
fn a_new_challenge_expires_after_seven_days() {
    let c = sent(1_000);
    assert_eq!(
        c,
        Challenge {
            challenger: alice(),
            challenged: bob(),
            points_wagered: 50,
            created_at: 1_000,
            expires_at: 1_000 + 604_800,
            is_accepted: false,
            is_completed: false,
            session_id: None,
        }
    );
}

#[test]
fn nobody_challenges_themselves() {
    assert_eq!(Challenge::new(alice(), alice(), 50, 0), Err(Error::CannotChallengeSelf));
    assert_eq!(
        ClashContract::send_challenge(4, alice(), alice(), 50, 0),
        Err(Error::CannotChallengeSelf)
    );
    assert_eq!(
        ClashContract::send_challenge(u32::MAX, alice(), alice(), 50, u64::MAX),
        Err(Error::CannotChallengeSelf)
    );
    assert_eq!(Challenge::new(bob(), bob(), 50, u64::MAX), Err(Error::CannotChallengeSelf));
}

#[test]
fn sending_takes_the_counter_as_the_id() {
    assert_eq!(ClashContract::send_challenge(4, alice(), bob(), 50, 1_000), Ok((4, sent(1_000), 5)));
    assert_eq!(ClashContract::send_challenge(0, alice(), bob(), 50, 0), Ok((0, sent(0), 1)));
}

#[test]
fn only_the_target_accepts() {
    let mut c = sent(1_000);
    assert_eq!(c.accept(&carol(), 1, 2_000), Err(Error::NotPlayer));
    assert_eq!(c.accept(&alice(), 1, 2_000), Err(Error::NotPlayer));
    assert_eq!(c, sent(1_000));
}

#[test]
fn acceptance_links_the_session() {
    let mut c = sent(1_000);
    assert_eq!(c.accept(&bob(), 9, 2_000), Ok(()));
    assert!(c.is_accepted);
    assert_eq!(c.session_id, Some(9));
    assert!(!c.is_completed);
    assert!(c.is_linked_to(9));
    assert!(!c.is_linked_to(8));
    assert!(!sent(0).is_linked_to(0));
}

#[test]
fn acceptance_at_the_moment_of_expiry_still_counts() {
    let mut c = sent(1_000);
    assert_eq!(c.accept(&bob(), 9, 1_000 + 604_800), Ok(()));
}

#[test]
fn an_expired_challenge_is_refused() {
    let mut c = sent(1_000);
    assert_eq!(c.accept(&bob(), 9, 1_000 + 604_801), Err(Error::ChallengeExpired));
    assert_eq!(c, sent(1_000));
}

#[test]
fn a_challenge_is_accepted_once() {
    let mut c = sent(1_000);
    c.accept(&bob(), 9, 2_000).unwrap();
    let before = c;
    assert_eq!(c.accept(&bob(), 10, 2_001), Err(Error::ChallengeExpired));
    assert_eq!(c, before);
}

#[test]
fn accepting_starts_a_session_with_the_wager_on_both_sides() {
    let (c, g) = ClashContract::accept_challenge(Some(sent(1_000)), &bob(), 9, 2_000).unwrap();
    assert!(c.is_accepted);
    assert_eq!(c.session_id, Some(9));
    assert_eq!(g, Game::new(alice(), bob(), 50, 50));
}

#[test]
fn accepting_a_missing_challenge_fails() {
    assert_eq!(ClashContract::accept_challenge(None, &bob(), 9, 0), Err(Error::ChallengeNotFound));
    assert_eq!(
        ClashContract::accept_challenge(Some(sent(0)), &carol(), 9, 0),
        Err(Error::NotPlayer)
    );
    assert_eq!(
        ClashContract::accept_challenge(Some(sent(0)), &bob(), 9, 604_801),
        Err(Error::ChallengeExpired)
    );
}

#[test]
fn status_by_time_and_completion() {
    let mut c = sent(1_000);
    assert_eq!(c.status(1_000), ChallengeStatus::Active);
    assert_eq!(c.status(605_800), ChallengeStatus::Active);
    assert_eq!(c.status(605_801), ChallengeStatus::Expired);
    c.accept(&bob(), 1, 2_000).unwrap();
    c.is_completed = true;
    assert_eq!(c.status(1_000), ChallengeStatus::Completed);
    assert_eq!(c.status(u64::MAX), ChallengeStatus::Completed);
}

#[test]
fn challenges_are_grouped_in_order() {
    let a = sent(0);
    let b = sent(100);
    let mut done = sent(50);
    done.is_accepted = true;
    done.session_id = Some(3);
    done.is_completed = true;
    let c = sent(700_000);
    let all = vec![a, done, b, c];
    let (active, completed, expired) = partition_challenges(&all, 604_850);
    assert_eq!(active, vec![b, c]);
    assert_eq!(completed, vec![done]);
    assert_eq!(expired, vec![a]);
    assert_eq!(ClashContract::get_player_challenges(&all, 604_850), (vec![b, c], vec![done], vec![a]));
    assert_eq!(partition_challenges(&Vec::new(), 0), (vec![], vec![], vec![]));
}

#[test]
fn the_first_linked_challenge_is_completed() {
    let mut one = sent(0);
    one.accept(&bob(), 5, 10).unwrap();
    let mut two = sent(1);
    two.accept(&bob(), 6, 10).unwrap();
    let mut three = sent(2);
    three.accept(&bob(), 6, 10).unwrap();
    let stored = vec![Some(sent(3)), None, Some(one), Some(two), Some(three)];
    assert_eq!(find_linked_challenge(&stored, 6), Some(3));
    assert_eq!(find_linked_challenge(&stored, 5), Some(2));
    assert_eq!(find_linked_challenge(&stored, 7), None);
    assert_eq!(find_linked_challenge(&Vec::new(), 7), None);

    let (i, done) = ClashContract::mark_challenge_completed(&stored, 6).unwrap();
    assert_eq!(i, 3);
    let mut expected = two;
    expected.is_completed = true;
    assert_eq!(done, expected);
    assert_eq!(ClashContract::mark_challenge_completed(&stored, 7), None);
}
