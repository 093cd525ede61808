use mnist_net::batch::{mini_batch_ranges, validate_config, ConfigError};

#[test]
fn partition_drops_short_remainder() {
    let r = mini_batch_ranges(23, 5);
    assert_eq!(r, vec![(0, 5), (5, 10), (10, 15), (15, 20)]);
}

#[test]
fn partition_exact_multiple() {
    let r = mini_batch_ranges(30, 6);
    assert_eq!(r, vec![(0, 6), (6, 12), (12, 18), (18, 24), (24, 30)]);
}

#[test]
fn partition_batch_larger_than_dataset() {
    let r = mini_batch_ranges(4, 10);
    assert_eq!(r, Vec::<(usize, usize)>::new());
}

#[test]
fn partition_batch_size_one() {
    let r = mini_batch_ranges(3, 1);
    assert_eq!(r, vec![(0, 1), (1, 2), (2, 3)]);
}

#[test]
fn config_rejects_zero_batch_size() {
    assert_eq!(validate_config(10, 0), Err(ConfigError::ZeroBatchSize));
    assert_eq!(validate_config(0, 0), Err(ConfigError::ZeroBatchSize));
}

#[test]
fn config_rejects_empty_dataset() {
    assert_eq!(validate_config(0, 5), Err(ConfigError::EmptyDataset));
}

#[test]
fn config_accepts_positive_sizes() {
    assert_eq!(validate_config(23, 5), Ok(()));
}
