use town_links::challenge::{Challenge, ChallengeEnum};

fn mode(challenge: Challenge) -> Option<ChallengeEnum> {
    challenge.into()
}

fn all_modes() -> Vec<Option<ChallengeEnum>> {
    vec![
        None,
        Some(ChallengeEnum::First),
        Some(ChallengeEnum::Second),
        Some(ChallengeEnum::Third),
        Some(ChallengeEnum::Fourth),
    ]
}

#[test]
fn default_is_the_default_scene() {
    assert_eq!(mode(Challenge::default()), None);
}

#[test]
fn rotate_once_from_each_state_matches_the_table() {
    assert_eq!(mode(Challenge::from(None).rotate()), Some(ChallengeEnum::First));
    assert_eq!(
        mode(Challenge::from(Some(ChallengeEnum::First)).rotate()),
        Some(ChallengeEnum::Second)
    );
    assert_eq!(
        mode(Challenge::from(Some(ChallengeEnum::Second)).rotate()),
        Some(ChallengeEnum::Third)
    );
    assert_eq!(
        mode(Challenge::from(Some(ChallengeEnum::Third)).rotate()),
        Some(ChallengeEnum::Fourth)
    );
    assert_eq!(mode(Challenge::from(Some(ChallengeEnum::Fourth)).rotate()), None);
}

#[test]
fn rotate_five_times_from_off_returns_to_off() {
    let mut challenge = Challenge::default();
    let mut seen = Vec::new();
    for _ in 0..5 {
        challenge = challenge.rotate();
        seen.push(mode(challenge));
    }
    assert_eq!(
        seen,
        vec![
            Some(ChallengeEnum::First),
            Some(ChallengeEnum::Second),
            Some(ChallengeEnum::Third),
            Some(ChallengeEnum::Fourth),
            None,
        ]
    );
}

#[test]
fn rotate_five_times_returns_to_every_state() {
    for start in all_modes() {
        let mut challenge = Challenge::from(start);
        for step in 1..=5 {
            challenge = challenge.rotate();
            if step < 5 {
                assert_ne!(mode(challenge), start);
            }
        }
        assert_eq!(mode(challenge), start);
    }
}

#[test]
fn rotate_never_stays_and_never_merges() {
    let modes = all_modes();
    for a in &modes {
        assert_ne!(mode(Challenge::from(*a).rotate()), *a);
        for b in &modes {
            if a != b {
                assert_ne!(
                    mode(Challenge::from(*a).rotate()),
                    mode(Challenge::from(*b).rotate())
                );
            }
        }
    }
}

#[test]
fn conversions_round_trip() {
    for m in all_modes() {
        let challenge: Challenge = m.into();
        let back: Option<ChallengeEnum> = challenge.into();
        assert_eq!(back, m);
    }
}
