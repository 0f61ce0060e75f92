use retouch_lab::clusters::{count_assignments, dominant_cluster, initial_center_indices};
use retouch_lab::order::{first_min_index, last_max_index, total_order_key};

#[test]
fn initial_center_indices_spread_over_samples() {
    assert_eq!(initial_center_indices(10, 3), vec![0, 3, 6]);
    assert_eq!(initial_center_indices(2, 3), vec![0, 1]);
    assert_eq!(initial_center_indices(0, 3), Vec::<usize>::new());
    assert_eq!(initial_center_indices(5, 0), Vec::<usize>::new());
    assert_eq!(initial_center_indices(100, 7), vec![0, 14, 28, 42, 57, 71, 85]);
}

#[test]
fn count_assignments_counts_each_cluster() {
    let counts = count_assignments(&vec![0, 2, 2, 1, 2], 3);
    assert_eq!(counts, vec![1, 1, 3]);
    assert_eq!(counts.iter().sum::<u32>(), 5);
    assert_eq!(count_assignments(&vec![], 2), vec![0, 0]);
}

#[test]
fn dominant_cluster_takes_last_of_ties() {
    assert_eq!(dominant_cluster(&vec![3, 5, 5, 1]), Some(2));
    assert_eq!(dominant_cluster(&vec![4]), Some(0));
    assert_eq!(dominant_cluster(&vec![]), None);
}

#[test]
fn first_and_last_extremes() {
    assert_eq!(last_max_index(&vec![1, 9, 3, 9, 2]), Some(3));
    assert_eq!(first_min_index(&vec![4, 1, 3, 1, 2]), Some(1));
    assert_eq!(last_max_index(&vec![]), None);
    assert_eq!(first_min_index(&vec![]), None);
}

#[test]
fn total_order_key_orders_like_total_cmp() {
    let values = [
        f32::NEG_INFINITY,
        -3.5,
        -1.0e-40,
        -0.0,
        0.0,
        1.0e-40,
        0.25,
        1.0,
        f32::MAX,
        f32::INFINITY,
        f32::NAN,
        -f32::NAN,
    ];
    for a in values {
        for b in values {
            let ka = total_order_key(a.to_bits());
            let kb = total_order_key(b.to_bits());
            assert_eq!(ka.cmp(&kb), a.total_cmp(&b), "{a} {b}");
        }
    }
    assert_eq!(total_order_key(0.0f32.to_bits()), 0);
    assert_eq!(total_order_key((-0.0f32).to_bits()), -1);
}

#[test]
fn nearest_by_keys_matches_float_minimum() {
    let distances = [4.5f32, 0.25, 9.0, 0.25];
    let keys: Vec<i64> = distances.iter().map(|d| total_order_key(d.to_bits())).collect();
    assert_eq!(first_min_index(&keys), Some(1));
}
