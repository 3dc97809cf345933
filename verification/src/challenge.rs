//! The render-mode state machine: five states on a cycle.

use vstd::prelude::*;
use vstd::std_specs::convert::FromSpecImpl;

verus! {

/// The four visual variants that can replace the default scene.
#[derive(Copy, Clone, Debug, PartialEq, Eq, Structural)]
pub enum ChallengeEnum {
    First,
    Second,
    Third,
    Fourth,
}

/// The active render mode: no variant (the default scene) or one of the four
/// variants. Exactly one of the five states is active at any time.
#[derive(Copy, Clone, Debug)]
pub struct Challenge(Option<ChallengeEnum>);

/// Number of render modes on the cycle.
pub open spec fn mode_count() -> nat {
    5
}

/// Position of a mode on the cycle, starting with the default scene at 0.
pub open spec fn position(mode: Option<ChallengeEnum>) -> nat {
    match mode {
        None => 0,
        Some(ChallengeEnum::First) => 1,
        Some(ChallengeEnum::Second) => 2,
        Some(ChallengeEnum::Third) => 3,
        Some(ChallengeEnum::Fourth) => 4,
    }
}

/// The mode that stands at a position of the cycle.
pub open spec fn mode_at(pos: nat) -> Option<ChallengeEnum> {
    if pos == 0 {
        None
    } else if pos == 1 {
        Some(ChallengeEnum::First)
    } else if pos == 2 {
        Some(ChallengeEnum::Second)
    } else if pos == 3 {
        Some(ChallengeEnum::Third)
    } else {
        Some(ChallengeEnum::Fourth)
    }
}

/// The successor of a mode: one step along the cycle, wrapping from the last
/// variant back to the default scene.
pub open spec fn successor(mode: Option<ChallengeEnum>) -> Option<ChallengeEnum> {
    mode_at((position(mode) + 1) % 5)
}

/// `steps` successive rotations applied to `mode`.
pub open spec fn rotated(mode: Option<ChallengeEnum>, steps: nat) -> Option<ChallengeEnum>
    decreases steps,
{
    if steps == 0 {
        mode
    } else {
        successor(rotated(mode, (steps - 1) as nat))
    }
}

impl View for Challenge {
    type V = Option<ChallengeEnum>;

    closed spec fn view(&self) -> Option<ChallengeEnum> {
        self.0
    }
}

impl Challenge {
    /// Advances to the next render mode. The transition is total and cyclic:
    /// default, first, second, third, fourth, and back to default.
    #[inline]
    pub fn rotate(self) -> (next: Self)
        ensures
            next@ == successor(self@),
    {
        let Self(challenge) = self;
        let next = match challenge {
            None => Some(ChallengeEnum::First),
            Some(ChallengeEnum::First) => Some(ChallengeEnum::Second),
            Some(ChallengeEnum::Second) => Some(ChallengeEnum::Third),
            Some(ChallengeEnum::Third) => Some(ChallengeEnum::Fourth),
            Some(ChallengeEnum::Fourth) => None,
        };
        Challenge(next)
    }
}

impl Default for Challenge {
    /// The engine starts with the default scene.
    #[inline]
    fn default() -> (start: Self)
        ensures
            start@ == None::<ChallengeEnum>,
    {
        Challenge(None)
    }
}

impl From<Option<ChallengeEnum>> for Challenge {
    #[inline]
    fn from(val: Option<ChallengeEnum>) -> (mode: Self)
        ensures
            mode@ == val,
    {
        Self(val)
    }
}

impl FromSpecImpl<Option<ChallengeEnum>> for Challenge {
    open spec fn obeys_from_spec() -> bool {
        true
    }

    closed spec fn from_spec(val: Option<ChallengeEnum>) -> Self {
        Challenge(val)
    }
}

impl From<Challenge> for Option<ChallengeEnum> {
    #[inline]
    fn from(val: Challenge) -> (mode: Self)
        ensures
            mode == val@,
    {
        let Challenge(val) = val;
        val
    }
}

impl FromSpecImpl<Challenge> for Option<ChallengeEnum> {
    open spec fn obeys_from_spec() -> bool {
        true
    }

    open spec fn from_spec(val: Challenge) -> Self {
        val@
    }
}

/// The successor function is the transition table: default to first, first
/// to second, second to third, third to fourth, fourth back to default.
pub proof fn lemma_successor_table(mode: Option<ChallengeEnum>)
    ensures
        successor(mode) == match mode {
            None => Some(ChallengeEnum::First),
            Some(ChallengeEnum::First) => Some(ChallengeEnum::Second),
            Some(ChallengeEnum::Second) => Some(ChallengeEnum::Third),
            Some(ChallengeEnum::Third) => Some(ChallengeEnum::Fourth),
            Some(ChallengeEnum::Fourth) => None,
        },
{
}

/// Positions and modes correspond one to one.
pub proof fn lemma_position_round_trip(mode: Option<ChallengeEnum>, pos: nat)
    ensures
        position(mode) < mode_count(),
        mode_at(position(mode)) == mode,
        pos < mode_count() ==> position(mode_at(pos)) == pos,
{
}

/// No mode is terminal and no two modes share a successor: a rotation always
/// leaves the current mode, and it can be undone.
pub proof fn lemma_successor_moves(a: Option<ChallengeEnum>, b: Option<ChallengeEnum>)
    ensures
        successor(a) != a,
        successor(a) == successor(b) ==> a == b,
{
}

/// After any number of rotations the position has advanced by that number,
/// counted around the cycle.
pub proof fn lemma_rotated_position(mode: Option<ChallengeEnum>, steps: nat)
    ensures
        position(rotated(mode, steps)) == (position(mode) + steps) % 5,
    decreases steps,
{
    if steps > 0 {
        lemma_rotated_position(mode, (steps - 1) as nat);
    }
}

/// The cycle closes: as many rotations as there are modes lead from every
/// mode back to itself.
pub proof fn lemma_rotation_closes(mode: Option<ChallengeEnum>)
    ensures
        rotated(mode, mode_count()) == mode,
{
    lemma_rotated_position(mode, 5);
    lemma_position_round_trip(rotated(mode, 5), 0);
    lemma_position_round_trip(mode, 0);
}

/// Every mode is reached from every other by fewer rotations than there are
/// modes.
pub proof fn lemma_every_mode_reachable(from: Option<ChallengeEnum>, to: Option<ChallengeEnum>)
    ensures
        exists|steps: nat| steps < mode_count() && rotated(from, steps) == to,
{
    let steps: nat = ((position(to) + 5 - position(from)) % 5) as nat;
    lemma_rotated_position(from, steps);
    lemma_position_round_trip(rotated(from, steps), 0);
    lemma_position_round_trip(to, 0);
    assert(steps < mode_count() && rotated(from, steps) == to);
}

} // verus!
