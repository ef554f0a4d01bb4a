use presence_dimmer::light::LightHistory;

fn history_of(capacity: usize, threshold: u32, samples: &[u32]) -> LightHistory {
    let mut history = LightHistory::new(capacity, threshold);
    for sample in samples {
        history.record(*sample);
    }
    history
}

#[test]
fn empty_history_has_no_level_and_is_not_dark() {
    let history = LightHistory::new(8, 30);
    assert_eq!(history.lux_level(), None);
    assert!(!history.is_dark_enough());
}

#[test]
fn empty_history_is_not_dark_even_at_the_highest_threshold() {
    let history = LightHistory::new(8, u32::MAX);
    assert!(!history.is_dark_enough());
}

#[test]
fn median_of_five_samples_ignores_the_spike() {
    let history = history_of(8, 30, &[10, 12, 11, 40, 9]);
    assert_eq!(history.lux_level(), Some(11));
    assert!(history.is_dark_enough());
}

#[test]
fn median_is_read_from_the_sorted_samples() {
    let history = history_of(8, 30, &[40, 9, 10, 12, 11]);
    assert_eq!(history.lux_level(), Some(11));
    let descending = history_of(8, 30, &[50, 40, 30, 20, 10]);
    assert_eq!(descending.lux_level(), Some(30));
}

#[test]
fn median_of_an_even_count_is_the_lower_middle() {
    let history = history_of(8, 30, &[4, 1, 3, 2]);
    assert_eq!(history.lux_level(), Some(2));
    let pair = history_of(8, 30, &[70, 20]);
    assert_eq!(pair.lux_level(), Some(20));
}

#[test]
fn median_of_one_sample_is_that_sample() {
    let history = history_of(8, 30, &[17]);
    assert_eq!(history.lux_level(), Some(17));
}

#[test]
fn median_with_repeated_samples() {
    let history = history_of(8, 30, &[5, 5, 90, 5, 90, 90, 90]);
    assert_eq!(history.lux_level(), Some(90));
}

#[test]
fn dark_up_to_and_including_the_threshold() {
    assert!(history_of(8, 30, &[30]).is_dark_enough());
    assert!(history_of(8, 30, &[29]).is_dark_enough());
    assert!(!history_of(8, 30, &[31]).is_dark_enough());
    assert!(history_of(8, 0, &[0]).is_dark_enough());
    assert!(!history_of(8, 0, &[1]).is_dark_enough());
}

#[test]
fn dark_judgement_follows_the_median_not_the_mean() {
    // mean 1_000_008, median 10
    let history = history_of(8, 30, &[10, 10, 5_000_000, 10, 10]);
    assert!(history.is_dark_enough());
    // mean 24, median 40
    let bright = history_of(8, 30, &[40, 0, 40, 0, 40]);
    assert!(!bright.is_dark_enough());
}

#[test]
fn full_history_gives_up_its_oldest_sample() {
    let history = history_of(2, 30, &[100, 1, 2]);
    // holds 1, 2
    assert_eq!(history.lux_level(), Some(1));
    let longer = history_of(3, 30, &[1, 2, 3, 4, 5]);
    // holds 3, 4, 5
    assert_eq!(longer.lux_level(), Some(4));
}

#[test]
fn history_of_one_keeps_the_newest_sample() {
    let mut history = LightHistory::new(1, 30);
    history.record(7);
    assert_eq!(history.lux_level(), Some(7));
    history.record(99);
    assert_eq!(history.lux_level(), Some(99));
    assert!(!history.is_dark_enough());
    history.record(3);
    assert_eq!(history.lux_level(), Some(3));
    assert!(history.is_dark_enough());
}

#[test]
fn history_that_is_not_a_power_of_two_wraps_many_times() {
    let mut history = LightHistory::new(5, 30);
    for sample in 0..1003u32 {
        history.record(sample);
    }
    // holds 998 ..= 1002
    assert_eq!(history.lux_level(), Some(1000));
}

#[test]
fn eight_samples_fill_the_history_and_the_ninth_evicts() {
    let mut history = LightHistory::new(8, 30);
    for sample in [80, 10, 20, 30, 40, 50, 60, 70] {
        history.record(sample);
    }
    // sorted 10 20 30 40 50 60 70 80, lower middle 40
    assert_eq!(history.lux_level(), Some(40));
    history.record(5);
    // 80 left: 5 10 20 30 40 50 60 70, lower middle 30
    assert_eq!(history.lux_level(), Some(30));
    assert!(history.is_dark_enough());
}

#[test]
fn median_of_a_vector() {
    assert_eq!(presence_dimmer::median::median_of(&vec![10, 12, 11, 40, 9]), 11);
    assert_eq!(presence_dimmer::median::median_of(&vec![3]), 3);
    assert_eq!(presence_dimmer::median::median_of(&vec![8, 2]), 2);
    assert_eq!(presence_dimmer::median::median_of(&vec![u32::MAX, 0, u32::MAX]), u32::MAX);
    assert_eq!(presence_dimmer::median::median_of(&vec![6, 5, 4, 3, 2, 1]), 3);
}
