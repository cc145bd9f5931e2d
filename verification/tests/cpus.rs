use iggy_core::cpus::allowed_cpus_from;

#[test]
fn allowed_cpus_is_non_empty_and_ascending() {
    for (mask, parallelism) in [
        (Some(vec![false, true, false, true, true]), Some(8)),
        (Some(vec![false, false]), Some(3)),
        (None, None),
        (None, Some(4)),
    ] {
        let allowed = allowed_cpus_from(mask.as_ref(), parallelism);
        assert!(!allowed.is_empty());
        assert!(allowed.windows(2).all(|pair| pair[0] < pair[1]));
    }
}

#[test]
fn mask_wins_over_parallelism() {
    let mask = vec![false, true, false, true];
    assert_eq!(allowed_cpus_from(Some(&mask), Some(16)), vec![1, 3]);
    assert_eq!(allowed_cpus_from(Some(&vec![false; 4]), Some(2)), vec![0, 1]);
    assert_eq!(allowed_cpus_from(None, None), vec![0]);
}
