use vai_cells::net::VaiNet;
use vai_cells::{A_BOUND, INIT_STRENGTH, REPRO_STRENGTH, SCALE, W_BOUND};

/// A fresh network's forward pass returns a non-empty ordered sequence of
/// layer outputs whose final layer has exactly `output_width` elements,
/// for any input vector of the declared width.
#[test]
fn predict_returns_all_layers_with_output_width_last() {
    for (i, h, o) in [(1, 1, 4), (3, 5, 4), (8, 2, 7)] {
        let net = VaiNet::new(i, h, o);
        let inputs: Vec<i64> = vec![0; i];
        let acts = net.predict(&inputs);
        assert!(!acts.is_empty());
        assert_eq!(acts.len(), 2);
        assert_eq!(acts[0].len(), h);
        assert_eq!(acts[acts.len() - 1].len(), o);
    }
}

/// Exact fixed-point forward pass on a handmade network: one input
/// channel, one hidden node wired straight through, four output channels.
#[test]
fn predict_exact_values_on_handmade_network() {
    let net = VaiNet {
        input_width: 1,
        hidden_width: 1,
        output_width: 4,
        // first matrix: 1 x (1+1); second: 4 x (1+1); bias is the last column
        weights: vec![
            vec![vec![SCALE, 0]],
            vec![
                vec![SCALE, 0],
                vec![0, SCALE],
                vec![2 * SCALE, 0],
                vec![0, 0],
            ],
        ],
    };
    let acts = net.predict(&vec![512]);
    assert_eq!(acts[0], vec![512]);
    assert_eq!(acts[1], vec![512, SCALE, 1024, 0]);
}

/// Inputs are saturated to the activation range, so the pass is total.
#[test]
fn predict_saturates_wild_inputs() {
    let net = VaiNet {
        input_width: 1,
        hidden_width: 1,
        output_width: 4,
        weights: vec![
            vec![vec![SCALE, 0]],
            vec![vec![SCALE, 0], vec![0, 0], vec![0, 0], vec![0, 0]],
        ],
    };
    let acts = net.predict(&vec![i64::MAX / 4]);
    assert_eq!(acts[0], vec![A_BOUND]);
}

/// Freshly initialized weights lie within the wide initial spread.
#[test]
fn new_network_weights_within_initial_spread() {
    let net = VaiNet::new(3, 5, 4);
    assert_eq!(net.weights.len(), 2);
    assert_eq!(net.weights[0].len(), 5);
    assert_eq!(net.weights[1].len(), 4);
    for matrix in &net.weights {
        for row in matrix {
            for &w in row {
                assert!(-INIT_STRENGTH <= w && w <= INIT_STRENGTH);
            }
        }
    }
    assert_eq!(net.weights[0][0].len(), 3 + 1);
    assert_eq!(net.weights[1][0].len(), 5 + 1);
}

/// Mutation is observable: it changes every weight (so certainly at least
/// one) and never changes the declared shape.
#[test]
fn mutate_changes_weights_and_keeps_shape() {
    let mut net = VaiNet::new(3, 5, 4);
    let before = net.duplicate();
    net.mutate(REPRO_STRENGTH);
    assert_eq!(net.input_width, before.input_width);
    assert_eq!(net.hidden_width, before.hidden_width);
    assert_eq!(net.output_width, before.output_width);
    assert_eq!(net.weights.len(), before.weights.len());
    let mut changed = 0usize;
    for t in 0..net.weights.len() {
        assert_eq!(net.weights[t].len(), before.weights[t].len());
        for r in 0..net.weights[t].len() {
            assert_eq!(net.weights[t][r].len(), before.weights[t][r].len());
            for c in 0..net.weights[t][r].len() {
                let diff = net.weights[t][r][c] - before.weights[t][r][c];
                if diff != 0 {
                    changed += 1;
                }
                // each weight moves by at most the mutation strength,
                // or wraps around the end of the weight range
                assert!(
                    diff.abs() <= REPRO_STRENGTH
                        || diff.abs() >= 2 * W_BOUND + 1 - REPRO_STRENGTH
                );
            }
        }
    }
    assert!(changed > 0);
}

/// Cloning law: a clone predicts exactly as its parent on identical
/// inputs, before any mutation is applied to the clone.
#[test]
fn clone_predicts_exactly_like_parent() {
    let net = VaiNet::new(4, 6, 5);
    let copy = net.duplicate();
    let inputs = vec![100, -3000, SCALE, 77];
    assert_eq!(net.predict(&inputs), copy.predict(&inputs));
}

/// A mutated clone is an independent parameter set: mutating the clone
/// leaves the parent's weights untouched.
#[test]
fn mutating_clone_leaves_parent_alone() {
    let net = VaiNet::new(2, 3, 4);
    let snapshot = net.duplicate();
    let mut clone = net.duplicate();
    clone.mutate(REPRO_STRENGTH);
    assert_eq!(net.weights, snapshot.weights);
}
