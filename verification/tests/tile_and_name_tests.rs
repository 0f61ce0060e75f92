use retouch_lab::naming::{decimal_string, output_file_name, replace_hyphens};
use retouch_lab::order::total_order_key;
use retouch_lab::tiles::{
    round_to_single_precision, strongest_tile, subject_tile_size, tile_extent, tile_index,
};

#[test]
fn round_to_single_precision_matches_conversion() {
    let mut v: u32 = 1;
    for _ in 0..200_000 {
        assert_eq!(round_to_single_precision(v), v as f32 as u64, "{v}");
        v = v.wrapping_mul(2_654_435_761).wrapping_add(12_345);
    }
    for v in [0u32, 16_777_215, 16_777_216, 16_777_217, 16_777_219, 33_554_433, 33_554_435, u32::MAX, u32::MAX - 127, u32::MAX - 128] {
        assert_eq!(round_to_single_precision(v), v as f32 as u64, "{v}");
    }
    assert_eq!(round_to_single_precision(u32::MAX), 4_294_967_296);
    assert_eq!(round_to_single_precision(16_777_217), 16_777_216);
    assert_eq!(round_to_single_precision(16_777_219), 16_777_220);
}

#[test]
fn tile_extent_matches_single_precision_ceiling() {
    for v in [0u32, 1, 3, 7, 8, 9, 640, 641, 1919, 4000, 16_777_217, 16_777_300, 123_456_789, u32::MAX] {
        let expected = ((v as f32) / (8 as f32)).ceil() as u32;
        assert_eq!(tile_extent(v), expected, "{v}");
    }
    assert_eq!(tile_extent(641), 81);
}

#[test]
fn subject_tile_size_skips_small_images() {
    assert_eq!(subject_tile_size(2, 100), None);
    assert_eq!(subject_tile_size(100, 2), None);
    assert_eq!(subject_tile_size(3, 3), Some((1, 1)));
    assert_eq!(subject_tile_size(640, 481), Some((80, 61)));
}

#[test]
fn tile_index_clamps_to_last_tile() {
    assert_eq!(tile_index(0, 0, 10, 10), 0);
    assert_eq!(tile_index(25, 13, 10, 10), 10);
    assert_eq!(tile_index(1000, 1000, 10, 10), 63);
    assert_eq!(tile_index(79, 5, 10, 10), 7);
}

#[test]
fn strongest_tile_last_of_equal_energies() {
    let mut energy = vec![0.0f32; 64];
    energy[10] = 5.5;
    energy[42] = 5.5;
    energy[3] = 2.0;
    let keys: Vec<i64> = energy.iter().map(|e| total_order_key(e.to_bits())).collect();
    assert_eq!(strongest_tile(&keys), (42, 2, 5));
    let (best, _) = energy.iter().enumerate().max_by(|a, b| a.1.total_cmp(b.1)).unwrap();
    assert_eq!(best, 42);
}

#[test]
fn decimal_string_values() {
    assert_eq!(decimal_string(0), "0");
    assert_eq!(decimal_string(7), "7");
    assert_eq!(decimal_string(1_700_000_000_123), "1700000000123");
    assert_eq!(decimal_string(u128::MAX), u128::MAX.to_string());
}

#[test]
fn replace_hyphens_in_strategy_id() {
    assert_eq!(replace_hyphens("hybrid-skin-aware-tone"), "hybrid_skin_aware_tone");
    assert_eq!(replace_hyphens("ünï-cödé"), "ünï_cödé");
    assert_eq!(replace_hyphens(""), "");
}

#[test]
fn output_file_name_parts_and_defaults() {
    assert_eq!(
        output_file_name(Some("photo"), "classic-auto-balance", 1_700_000_000_123, Some("jpg")),
        "photo_classic_auto_balance_1700000000123.jpg"
    );
    assert_eq!(output_file_name(None, "classic-gamma-lift", 0, None), "image_classic_gamma_lift_0.png");
}
