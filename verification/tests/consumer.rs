use block_template::{consumer, StalenessFilter, TemplateSnapshot};

fn accepted_heights(heights: &[u64]) -> Vec<u64> {
    let mut filter = StalenessFilter::new();
    let mut accepted = Vec::new();
    for &height in heights {
        if let Some(snapshot) = consumer(&mut filter, TemplateSnapshot::new(height, ())) {
            accepted.push(snapshot.height);
        }
    }
    accepted
}

#[test]
fn fresh_consumer_has_accepted_nothing() {
    assert_eq!(StalenessFilter::new().last_accepted_height(), 0);
}

#[test]
fn stale_and_repeated_heights_are_dropped() {
    assert_eq!(accepted_heights(&[5, 3, 7, 7, 10]), vec![5, 7, 10]);
}

#[test]
fn accepted_snapshot_comes_back_unchanged() {
    let mut filter = StalenessFilter::new();
    let snapshot = TemplateSnapshot::new(812_345, String::from("coinbase and transactions"));
    assert_eq!(consumer(&mut filter, snapshot.clone()), Some(snapshot));
    assert_eq!(filter.last_accepted_height(), 812_345);
}

#[test]
fn dropped_snapshot_leaves_the_state_alone() {
    let mut filter = StalenessFilter::new();
    assert!(consumer(&mut filter, TemplateSnapshot::new(9, "new")).is_some());
    assert_eq!(consumer(&mut filter, TemplateSnapshot::new(8, "old")), None);
    assert_eq!(filter.last_accepted_height(), 9);
    assert_eq!(consumer(&mut filter, TemplateSnapshot::new(9, "same")), None);
    assert_eq!(filter.last_accepted_height(), 9);
}

#[test]
fn height_zero_is_never_accepted() {
    let mut filter = StalenessFilter::new();
    assert_eq!(consumer(&mut filter, TemplateSnapshot::new(0, ())), None);
    assert_eq!(filter.last_accepted_height(), 0);
    assert!(consumer(&mut filter, TemplateSnapshot::new(1, ())).is_some());
}

#[test]
fn last_accepted_height_never_decreases() {
    let heights = [12u64, 4, 12, 13, 1, 0, 40, 39, 41, u64::MAX, 5, u64::MAX];
    let mut filter = StalenessFilter::new();
    let mut highest = 0;
    for height in heights {
        let before = filter.last_accepted_height();
        let accepted = consumer(&mut filter, TemplateSnapshot::new(height, ()));
        assert_eq!(accepted.is_some(), height > before);
        assert!(filter.last_accepted_height() >= before);
        highest = highest.max(height);
        assert_eq!(filter.last_accepted_height(), highest);
    }
}

#[test]
fn increasing_heights_are_all_accepted() {
    assert_eq!(accepted_heights(&[1, 2, 3, 4]), vec![1, 2, 3, 4]);
}

#[test]
fn decreasing_heights_accept_only_the_first() {
    assert_eq!(accepted_heights(&[9, 8, 7, 1]), vec![9]);
}

#[test]
fn nothing_received_nothing_accepted() {
    assert_eq!(accepted_heights(&[]), Vec::<u64>::new());
}
