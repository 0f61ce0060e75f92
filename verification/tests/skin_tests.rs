use retouch_lab::skin::is_skin_like;

/// The YCbCr skin test evaluated in single precision, term by term.
fn skin_like_in_single_precision(r: u8, g: u8, b: u8) -> bool {
    let rf = r as f32;
    let gf = g as f32;
    let bf = b as f32;
    let cb = 128.0 - 0.168736 * rf - 0.331264 * gf + 0.5 * bf;
    let cr = 128.0 + 0.5 * rf - 0.418688 * gf - 0.081312 * bf;
    (77.0..=127.0).contains(&cb) && (133.0..=173.0).contains(&cr)
}

#[test]
fn is_skin_like_agrees_with_single_precision_on_every_colour() {
    let mut skin = 0u64;
    for r in 0..=255u8 {
        for g in 0..=255u8 {
            for b in 0..=255u8 {
                let expected = skin_like_in_single_precision(r, g, b);
                assert_eq!(is_skin_like(r, g, b), expected, "colour ({r}, {g}, {b})");
                if expected {
                    skin += 1;
                }
            }
        }
    }
    assert_eq!(skin, 1_467_322);
}

#[test]
fn is_skin_like_typical_colours() {
    assert!(is_skin_like(224, 172, 105));
    assert!(is_skin_like(198, 134, 66));
    assert!(!is_skin_like(0, 0, 0));
    assert!(!is_skin_like(255, 255, 255));
    assert!(!is_skin_like(0, 0, 255));
    assert!(!is_skin_like(0, 255, 0));
}

#[test]
fn is_skin_like_threshold_edges() {
    // Red-difference chroma exactly 133: single precision lands inside here ...
    assert!(is_skin_like(10, 0, 0));
    // ... and just outside here.
    assert!(!is_skin_like(50, 40, 40));
    // Red-difference chroma exactly 173, evaluated just above it.
    assert!(!is_skin_like(101, 11, 11));
}
