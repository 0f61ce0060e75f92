use retouch_lab::pixels::{Rgb, RgbBuffer};

fn image(width: u32, height: u32) -> RgbBuffer {
    let mut data = Vec::new();
    for p in 0..(width * height) {
        data.push((p % 256) as u8);
        data.push(((p * 7) % 256) as u8);
        data.push(((p * 13) % 256) as u8);
    }
    RgbBuffer::from_raw(width, height, data).unwrap()
}

#[test]
fn from_raw_checks_length() {
    assert!(RgbBuffer::from_raw(2, 2, vec![0; 12]).is_some());
    assert!(RgbBuffer::from_raw(2, 2, vec![0; 11]).is_none());
    assert!(RgbBuffer::from_raw(0, 5, vec![]).is_some());
    let img = RgbBuffer::from_raw(3, 1, vec![1, 2, 3, 4, 5, 6, 7, 8, 9]).unwrap();
    assert_eq!((img.width(), img.height()), (3, 1));
    let p = img.pixel(1, 0);
    assert_eq!((p.r, p.g, p.b), (4, 5, 6));
    assert_eq!(img.into_raw(), vec![1, 2, 3, 4, 5, 6, 7, 8, 9]);
}

#[test]
fn map_channels_sees_channel_and_value() {
    let img = RgbBuffer::from_raw(2, 1, vec![10, 20, 30, 40, 50, 60]).unwrap();
    let out = img.map_channels(|c, v| if c == 1 { 255 - v } else { v / 2 });
    assert_eq!(out.into_raw(), vec![5, 235, 15, 20, 205, 30]);
}

#[test]
fn map_pixels_swaps_red_and_blue() {
    let img = RgbBuffer::from_raw(1, 2, vec![1, 2, 3, 4, 5, 6]).unwrap();
    let out = img.map_pixels(|q| Rgb { r: q.b, g: q.g, b: q.r });
    assert_eq!(out.into_raw(), vec![3, 2, 1, 6, 5, 4]);
}

#[test]
fn map_pixels_at_passes_column_and_row() {
    let img = image(3, 2);
    let out = img.map_pixels_at(|x, y, _q| Rgb { r: x as u8, g: y as u8, b: 9 });
    assert_eq!(out.into_raw(), vec![0, 0, 9, 1, 0, 9, 2, 0, 9, 0, 1, 9, 1, 1, 9, 2, 1, 9]);
}

#[test]
fn map_pixels_with_pairs_pixels() {
    let a = RgbBuffer::from_raw(2, 1, vec![10, 10, 10, 20, 20, 20]).unwrap();
    let b = RgbBuffer::from_raw(2, 1, vec![1, 2, 3, 4, 5, 6]).unwrap();
    let out = a.map_pixels_with(&b, |p, q| Rgb { r: p.r - q.r, g: p.g - q.g, b: p.b - q.b });
    assert_eq!(out.into_raw(), vec![9, 8, 7, 16, 15, 14]);
}

#[test]
fn map_skin_pixels_counts_and_changes_only_skin() {
    let img = RgbBuffer::from_raw(3, 1, vec![224, 172, 105, 0, 0, 255, 198, 134, 66]).unwrap();
    let (out, skin) = img.map_skin_pixels(|_q| Rgb { r: 1, g: 2, b: 3 });
    assert_eq!(skin, 2);
    assert_eq!(out.into_raw(), vec![1, 2, 3, 0, 0, 255, 1, 2, 3]);
}

#[test]
fn sample_grid_every_twelfth_pixel() {
    let img = image(25, 13);
    let samples = img.sample_grid(12);
    // columns 0, 12, 24 of rows 0 and 12
    assert_eq!(samples.len(), 6);
    let expected = [(0u32, 0u32), (12, 0), (24, 0), (0, 12), (12, 12), (24, 12)];
    for (s, (x, y)) in samples.iter().zip(expected.iter()) {
        let q = img.pixel(*x, *y);
        assert_eq!((s.r, s.g, s.b), (q.r, q.g, q.b));
    }
    assert_eq!(image(12, 12).sample_grid(12).len(), 1);
    assert_eq!(image(0, 3).sample_grid(12).len(), 0);
}
