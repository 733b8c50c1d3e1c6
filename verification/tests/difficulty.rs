use sabotage::difficulty::{Difficulty, MAX_DECK_COUNT, MIN_DECK_COUNT};

#[test]
fn defaults_to_medium() {
    assert_eq!(Difficulty::default(), Difficulty::Medium);
}

#[test]
fn deck_counts_rise_with_each_tier() {
    let counts: Vec<usize> = Difficulty::ALL
        .iter()
        .map(|tier| tier.deck_count())
        .collect();
    let mut sorted = counts.clone();
    sorted.sort_unstable();

    assert_eq!(counts, sorted, "the tiers are not in ascending order");
    assert_eq!(
        counts
            .iter()
            .collect::<std::collections::HashSet<_>>()
            .len(),
        counts.len(),
        "two tiers share a deck count"
    );
    assert_eq!(*counts.last().unwrap(), MAX_DECK_COUNT);
    assert_eq!(*counts.first().unwrap(), MIN_DECK_COUNT);
}

#[test]
fn stepping_clamps_at_either_end() {
    assert_eq!(Difficulty::VeryEasy.step(-1), Difficulty::VeryEasy);
    assert_eq!(Difficulty::VeryHard.step(1), Difficulty::VeryHard);
    assert_eq!(Difficulty::Medium.step(1), Difficulty::Hard);
    assert_eq!(Difficulty::Medium.step(-1), Difficulty::Easy);
}

#[test]
fn stepping_past_either_end_still_lands_on_it() {
    assert_eq!(Difficulty::VeryEasy.step(-99), Difficulty::VeryEasy);
    assert_eq!(Difficulty::VeryEasy.step(99), Difficulty::VeryHard);
}

#[test]
fn stepping_by_extreme_amounts_does_not_overflow() {
    assert_eq!(Difficulty::VeryHard.step(isize::MAX), Difficulty::VeryHard);
    assert_eq!(Difficulty::VeryEasy.step(isize::MIN), Difficulty::VeryEasy);
    assert_eq!(Difficulty::Medium.step(0), Difficulty::Medium);
}

#[test]
fn every_tier_has_its_label_and_index() {
    let labels: Vec<&str> = Difficulty::ALL.iter().map(|d| d.label()).collect();
    assert_eq!(labels, vec!["Very Easy", "Easy", "Medium", "Hard", "Very Hard"]);
    for (i, d) in Difficulty::ALL.iter().enumerate() {
        assert_eq!(d.index(), i);
    }
}
