//! Challenges: invitations to a session with points at stake.

use vstd::prelude::*;
use crate::error::Error;
use crate::moves::PlayerId;

verus! {

/// Seconds for which a challenge stays open: seven days.
pub const CHALLENGE_LIFETIME: u64 = 604_800;

/// An invitation from one player to another.
#[derive(Clone, Copy, Debug, PartialEq, Eq)]
pub struct Challenge {
    pub challenger: PlayerId,
    pub challenged: PlayerId,
    pub points_wagered: i128,
    pub created_at: u64,
    pub expires_at: u64,
    pub is_accepted: bool,
    pub is_completed: bool,
    /// The session that the acceptance started.
    pub session_id: Option<u32>,
}

/// Where a challenge stands at a given time.
#[derive(Clone, Copy, Debug, PartialEq, Eq, Structural)]
pub enum ChallengeStatus {
    Active,
    Completed,
    Expired,
}

impl Challenge {
    /// The invariant of a challenge: two different players, the fixed
    /// lifetime, a session exactly when accepted, completed only after that.
    pub open spec fn wf(self) -> bool {
        &&& self.challenger != self.challenged
        &&& self.expires_at == self.created_at + CHALLENGE_LIFETIME
        &&& self.is_accepted <==> self.session_id is Some
        &&& self.is_completed ==> self.is_accepted
    }

    /// The status at time `now`: completed challenges stay completed, the
    /// others expire once `now` is past their expiry.
    pub open spec fn status_at(self, now: u64) -> ChallengeStatus {
        if self.is_completed {
            ChallengeStatus::Completed
        } else if now > self.expires_at {
            ChallengeStatus::Expired
        } else {
            ChallengeStatus::Active
        }
    }

    /// Why the challenge refuses an acceptance by `challenged` at `now`, if
    /// it does: only the named target may accept, only before the expiry,
    /// and only once.
    pub open spec fn accept_refusal(self, challenged: PlayerId, now: u64) -> Option<Error> {
        if self.challenged != challenged {
            Some(Error::NotPlayer)
        } else if now > self.expires_at || self.is_accepted {
            Some(Error::ChallengeExpired)
        } else {
            None
        }
    }

    /// The challenge after its acceptance has started session `session_id`.
    pub open spec fn accepted(self, session_id: u32) -> Challenge {
        Challenge { is_accepted: true, session_id: Some(session_id), ..self }
    }

    /// The challenge that `challenger` sends to `challenged` at `now`.
    pub open spec fn sent(challenger: PlayerId, challenged: PlayerId, points_wagered: i128, now: u64) -> Challenge {
        Challenge {
            challenger,
            challenged,
            points_wagered,
            created_at: now,
            expires_at: (now + CHALLENGE_LIFETIME) as u64,
            is_accepted: false,
            is_completed: false,
            session_id: None,
        }
    }

    /// Whether the challenge meets its invariant.
    pub fn is_well_formed(&self) -> (r: bool)
        ensures
            r == self.wf(),
    {
        if self.challenger.same(&self.challenged) {
            return false;
        }
        if self.created_at > u64::MAX - CHALLENGE_LIFETIME || self.expires_at != self.created_at
            + CHALLENGE_LIFETIME {
            return false;
        }
        let has_session = match self.session_id {
            Some(_) => true,
            None => false,
        };
        self.is_accepted == has_session && (!self.is_completed || self.is_accepted)
    }

    /// Creates the challenge that `challenger` sends to `challenged`.
    /// Nobody can challenge themselves.
    pub fn new(challenger: PlayerId, challenged: PlayerId, points_wagered: i128, now: u64) -> (r: Result<
        Challenge,
        Error,
    >)
        requires
            challenger != challenged ==> now + CHALLENGE_LIFETIME <= u64::MAX,
        ensures
            challenger == challenged ==> r == Err::<Challenge, Error>(Error::CannotChallengeSelf),
            challenger != challenged ==> r == Ok::<Challenge, Error>(
                Challenge::sent(challenger, challenged, points_wagered, now),
            ),
            r matches Ok(c) ==> c.wf(),
    {
        if challenger.same(&challenged) {
            return Err(Error::CannotChallengeSelf);
        }
        Ok(
            Challenge {
                challenger,
                challenged,
                points_wagered,
                created_at: now,
                expires_at: now + CHALLENGE_LIFETIME,
                is_accepted: false,
                is_completed: false,
                session_id: None,
            },
        )
    }

    /// Accepts the challenge on behalf of `challenged` and links it to the
    /// session that the acceptance starts. A refused acceptance changes
    /// nothing.
    pub fn accept(&mut self, challenged: &PlayerId, session_id: u32, now: u64) -> (r: Result<(), Error>)
        ensures
            match old(self).accept_refusal(*challenged, now) {
                Some(e) => r == Err::<(), Error>(e) && *final(self) == *old(self),
                None => r is Ok && *final(self) == old(self).accepted(session_id),
            },
            old(self).wf() ==> final(self).wf(),
    {
        if !self.challenged.same(challenged) {
            return Err(Error::NotPlayer);
        }
        if now > self.expires_at || self.is_accepted {
            return Err(Error::ChallengeExpired);
        }
        self.is_accepted = true;
        self.session_id = Some(session_id);
        Ok(())
    }

    /// The status of the challenge at time `now`.
    pub fn status(&self, now: u64) -> (r: ChallengeStatus)
        ensures
            r == self.status_at(now),
    {
        if self.is_completed {
            ChallengeStatus::Completed
        } else if now > self.expires_at {
            ChallengeStatus::Expired
        } else {
            ChallengeStatus::Active
        }
    }

    /// Whether the challenge started session `session_id`.
    pub fn is_linked_to(&self, session_id: u32) -> (r: bool)
        ensures
            r == (self.session_id == Some(session_id)),
    {
        match self.session_id {
            Some(id) => id == session_id,
            None => false,
        }
    }
}

/// The predicate "has status `status` at time `now`".
pub open spec fn has_status(now: u64, status: ChallengeStatus) -> spec_fn(Challenge) -> bool {
    |c: Challenge| c.status_at(now) == status
}

/// Splits challenges by their status at `now` into the active, the
/// completed and the expired ones, each group in the order of the input.
pub fn partition_challenges(challenges: &Vec<Challenge>, now: u64) -> (r: (
    Vec<Challenge>,
    Vec<Challenge>,
    Vec<Challenge>,
))
    ensures
        r.0@ == challenges@.filter(has_status(now, ChallengeStatus::Active)),
        r.1@ == challenges@.filter(has_status(now, ChallengeStatus::Completed)),
        r.2@ == challenges@.filter(has_status(now, ChallengeStatus::Expired)),
{
    let mut active: Vec<Challenge> = Vec::new();
    let mut completed: Vec<Challenge> = Vec::new();
    let mut expired: Vec<Challenge> = Vec::new();
    let mut i: usize = 0;
    while i < challenges.len()
        invariant
            i <= challenges.len(),
            active@ == challenges@.take(i as int).filter(has_status(now, ChallengeStatus::Active)),
            completed@ == challenges@.take(i as int).filter(
                has_status(now, ChallengeStatus::Completed),
            ),
            expired@ == challenges@.take(i as int).filter(has_status(now, ChallengeStatus::Expired)),
        decreases challenges.len() - i,
    {
        let challenge = challenges[i];
        proof {
            assert(challenges@.take(i + 1).drop_last() =~= challenges@.take(i as int));
            reveal(Seq::filter);
        }
        match challenge.status(now) {
            ChallengeStatus::Completed => {
                completed.push(challenge);
            },
            ChallengeStatus::Expired => {
                expired.push(challenge);
            },
            ChallengeStatus::Active => {
                active.push(challenge);
            },
        }
        i = i + 1;
    }
    assert(challenges@.take(challenges@.len() as int) =~= challenges@);
    (active, completed, expired)
}

/// Finds the first challenge that started session `session_id`. Entries
/// that are `None` stand for challenges that are no longer stored.
pub fn find_linked_challenge(challenges: &Vec<Option<Challenge>>, session_id: u32) -> (r: Option<usize>)
    ensures
        match r {
            Some(i) => {
                &&& i < challenges@.len()
                &&& linked(challenges@[i as int], session_id)
                &&& forall|j: int| 0 <= j < i ==> !linked(#[trigger] challenges@[j], session_id)
            },
            None => forall|j: int|
                0 <= j < challenges@.len() ==> !linked(#[trigger] challenges@[j], session_id),
        },
{
    let mut i: usize = 0;
    while i < challenges.len()
        invariant
            i <= challenges.len(),
            forall|j: int| 0 <= j < i ==> !linked(#[trigger] challenges@[j], session_id),
        decreases challenges.len() - i,
    {
        match &challenges[i] {
            Some(c) => {
                if c.is_linked_to(session_id) {
                    return Some(i);
                }
            },
            None => {},
        }
        i = i + 1;
    }
    None
}

/// Whether a stored entry is a challenge that started session `session_id`.
pub open spec fn linked(entry: Option<Challenge>, session_id: u32) -> bool {
    entry matches Some(c) && c.session_id == Some(session_id)
}

/// A challenge is accepted at most once, only by its target and only
/// before its expiry: an acceptance that succeeds comes from the target at
/// a time not past the expiry, and after it every further acceptance is
/// refused.
pub proof fn law_accepted_at_most_once(
    c: Challenge,
    challenged: PlayerId,
    session_id: u32,
    now: u64,
    later_player: PlayerId,
    later_session: u32,
    later: u64,
)
    requires
        c.accept_refusal(challenged, now) is None,
    ensures
        challenged == c.challenged,
        now <= c.expires_at,
        !c.is_accepted,
        c.accepted(session_id).accept_refusal(later_player, later) is Some,
        c.wf() ==> c.accepted(session_id).wf(),
{
}

/// Every challenge has exactly one status at any time, so the three groups
/// of `partition_challenges` share no challenge and leave none out.
pub proof fn law_status_groups(all: Seq<Challenge>, now: u64)
    ensures
        all.filter(has_status(now, ChallengeStatus::Active)).len() + all.filter(
            has_status(now, ChallengeStatus::Completed),
        ).len() + all.filter(has_status(now, ChallengeStatus::Expired)).len() == all.len(),
    decreases all.len(),
{
    reveal(Seq::filter);
    if all.len() > 0 {
        law_status_groups(all.drop_last(), now);
    }
}

} // verus!
