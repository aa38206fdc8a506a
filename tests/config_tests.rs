use mc_tools::config::Config;

#[test]
fn missing_file_gives_default_and_is_persisted() {
    let (c, persist) = Config::restore(None);
    assert_eq!(c, Config { min_key: 1, max_key: 9 });
    assert!(persist);
}

#[test]
fn stored_range_is_kept() {
    for min_key in 0u8..=9 {
        for max_key in 0u8..=9 {
            let stored = Config { min_key, max_key };
            assert_eq!(Config::restore(Some(stored)), (stored, false));
        }
    }
}

#[test]
fn out_of_range_bound_counts_as_malformed() {
    let (c, persist) = Config::restore(Some(Config { min_key: 3, max_key: 12 }));
    assert_eq!(c, Config { min_key: 1, max_key: 9 });
    assert!(persist);
    let (c, persist) = Config::restore(Some(Config { min_key: 255, max_key: 4 }));
    assert_eq!(c, Config::default_range());
    assert!(persist);
}

#[test]
fn validity_and_order() {
    assert!(Config { min_key: 0, max_key: 9 }.is_valid());
    assert!(!Config { min_key: 10, max_key: 9 }.is_valid());
    assert!(Config { min_key: 4, max_key: 4 }.is_ordered());
    assert!(!Config { min_key: 5, max_key: 4 }.is_ordered());
}
