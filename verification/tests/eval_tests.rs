use mnist_net::eval::{argmax, evaluate};

fn keys(xs: &[f64]) -> Vec<u64> {
    // Sigmoid outputs and one-hot targets are nonnegative, and the IEEE 754
    // bit patterns of nonnegative doubles order exactly as the doubles do.
    xs.iter().map(|x| x.to_bits()).collect()
}

#[test]
fn argmax_picks_maximum() {
    assert_eq!(argmax(&keys(&[0.1, 0.9, 0.05])), 1);
    assert_eq!(argmax(&keys(&[0.9, 0.1, 0.05])), 0);
    assert_eq!(argmax(&keys(&[0.1, 0.2, 0.7])), 2);
}

#[test]
fn argmax_tie_takes_lowest_index() {
    assert_eq!(argmax(&keys(&[0.5, 0.7, 0.7, 0.3])), 1);
    assert_eq!(argmax(&keys(&[0.7, 0.7, 0.7])), 0);
}

#[test]
fn argmax_single_entry() {
    assert_eq!(argmax(&keys(&[0.4])), 0);
}

#[test]
fn one_hot_target_reads_back_to_its_class() {
    for c in 0..10 {
        let hot = mnist_net::loader::one_hot(c, 10);
        let target: Vec<u64> = hot.iter().map(|x| f64::from(*x).to_bits()).collect();
        assert_eq!(argmax(&target), c);
    }
}

#[test]
fn evaluate_counts_matching_prediction() {
    let outputs = vec![keys(&[0.1, 0.9, 0.05])];
    let targets = vec![keys(&[0.0, 1.0, 0.0])];
    assert_eq!(evaluate(&outputs, &targets), 1);
}

#[test]
fn evaluate_counts_mismatch_as_incorrect() {
    let outputs = vec![keys(&[0.9, 0.1, 0.05])];
    let targets = vec![keys(&[0.0, 1.0, 0.0])];
    assert_eq!(evaluate(&outputs, &targets), 0);
}

#[test]
fn evaluate_sums_over_samples() {
    let outputs = vec![
        keys(&[0.8, 0.1, 0.1]),
        keys(&[0.2, 0.6, 0.2]),
        keys(&[0.3, 0.3, 0.4]),
        keys(&[0.5, 0.4, 0.1]),
    ];
    let targets = vec![
        keys(&[1.0, 0.0, 0.0]),
        keys(&[0.0, 0.0, 1.0]),
        keys(&[0.0, 0.0, 1.0]),
        keys(&[0.0, 1.0, 0.0]),
    ];
    assert_eq!(evaluate(&outputs, &targets), 2);
}
