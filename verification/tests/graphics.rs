use vinyl_viz::atlas::{atlas_chars, glyph_choice, GlyphAtlas, GlyphChoice, ATLAS_CHAR_COUNT};
use vinyl_viz::audio::{bin_range, next_device_index, ring_schedule, BIN_COUNT};
use vinyl_viz::disc::{disc_indices, INDEX_COUNT, VERTEX_COUNT};

#[test]
fn atlas_starts_empty() {
    let a = GlyphAtlas::new();
    assert_eq!(a.height(), 256);
    assert_eq!(a.pixels().len(), 1024 * 256);
    assert!(a.pixels().iter().all(|&p| p == 0));
}

#[test]
fn atlas_places_glyphs_in_rows() {
    let mut a = GlyphAtlas::new();
    assert_eq!(a.place(10, 12), (1, 1));
    assert_eq!(a.place(5, 20), (12, 1));
    assert_eq!(a.place(1000, 3), (18, 1));
    assert_eq!(a.place(10, 4), (1, 22));
}

#[test]
fn atlas_grows_by_doubling_keeping_pixels() {
    let mut a = GlyphAtlas::new();
    a.place(3, 3);
    a.put_pixel(1, 1, 2, 1, 200);
    let mut last = (0, 0);
    for _ in 0..40 {
        last = a.place(1020, 10);
    }
    assert!(a.height() > 256);
    assert_eq!(a.height() % 256, 0);
    assert!((a.height() / 256).is_power_of_two());
    assert!(last.1 + 10 + 1 < a.height());
    assert_eq!(a.pixels().len() as u32, 1024 * a.height());
    assert_eq!(a.pixels()[2 * 1024 + 3], 200);
}

#[test]
fn atlas_boxes_never_overlap() {
    let mut a = GlyphAtlas::new();
    let mut boxes = Vec::new();
    for i in 0..300u32 {
        let (w, h) = (3 + (i * 7) % 13, 2 + (i * 5) % 17);
        let (x, y) = a.place(w, h);
        boxes.push((x, y, w, h));
    }
    for (i, &(x1, y1, w1, h1)) in boxes.iter().enumerate() {
        assert!(x1 >= 1 && x1 + w1 < 1024 && y1 >= 1 && y1 + h1 < a.height());
        for &(x2, y2, w2, h2) in &boxes[i + 1..] {
            let apart = x1 + w1 <= x2 || x2 + w2 <= x1 || y1 + h1 <= y2 || y2 + h2 <= y1;
            assert!(apart);
        }
    }
}

#[test]
fn atlas_put_pixel_writes_row_major() {
    let mut a = GlyphAtlas::new();
    a.put_pixel(5, 7, 1, 2, 9);
    assert_eq!(a.pixels()[9 * 1024 + 6], 9);
    assert_eq!(a.pixels().iter().filter(|&&p| p != 0).count(), 1);
}

#[test]
fn atlas_chars_cover_the_baked_ranges() {
    let cs = atlas_chars();
    assert_eq!(cs.len(), ATLAS_CHAR_COUNT);
    assert_eq!(cs[0], '!');
    assert_eq!(cs[93], '~');
    assert_eq!(cs[94], '\u{a0}');
    assert_eq!(cs[317], '\u{17f}');
    assert_eq!(cs[318], '\u{2010}');
    assert_eq!(*cs.last().unwrap(), '\u{201f}');
    let expected: Vec<char> = (33u32..127)
        .chain(160..384)
        .chain(0x2010..0x2020)
        .filter_map(char::from_u32)
        .collect();
    assert_eq!(cs, expected);
}

#[test]
fn glyph_choice_falls_back_to_question_mark() {
    assert!(matches!(glyph_choice(' ', true, true), GlyphChoice::Space));
    assert!(matches!(glyph_choice('a', true, true), GlyphChoice::Own));
    assert!(matches!(glyph_choice('\u{4e2d}', false, true), GlyphChoice::Fallback));
    assert!(matches!(glyph_choice('\u{4e2d}', false, false), GlyphChoice::Missing));
}

#[test]
fn disc_indices_form_two_triangles_per_cell() {
    let idx = disc_indices();
    assert_eq!(idx.len(), INDEX_COUNT);
    assert_eq!(&idx[0..6], &[0, 1, 256, 1, 257, 256]);
    let last_in_ring = 6 * 255;
    assert_eq!(&idx[last_in_ring..last_in_ring + 6], &[255, 0, 511, 0, 256, 511]);
    let last = INDEX_COUNT - 6;
    assert_eq!(&idx[last..], &[32511, 32256, 32767, 32256, 32512, 32767]);
    assert!(idx.iter().all(|&i| (i as usize) < VERTEX_COUNT));
    assert_eq!(idx.len() / 3, 65024);
}

#[test]
fn bin_ranges_match_the_squared_float_mapping() {
    let spec_len = 1024usize;
    for i in 0..BIN_COUNT {
        let t0 = i as f64 / BIN_COUNT as f64;
        let t1 = (i as f64 + 1.0) / BIN_COUNT as f64;
        let mut from = (t0.powf(2.0) * spec_len as f64) as usize;
        let mut to = (t1.powf(2.0) * spec_len as f64) as usize;
        if to <= from { to = from + 1; }
        if to > spec_len { to = spec_len; }
        if from >= spec_len { from = spec_len - 1; to = spec_len; }
        assert_eq!(bin_range(i, spec_len), (from, to), "bin {}", i);
    }
    assert_eq!(bin_range(0, 1024), (0, 1));
    assert_eq!(bin_range(1, 1024), (0, 1));
    assert_eq!(bin_range(63, 1024), (992, 1024));
    assert_eq!(bin_range(63, 1), (0, 1));
}

#[test]
fn ring_schedule_counts_windows() {
    let p = ring_schedule(5000);
    assert_eq!((p.windows, p.trim), (3, 0));
    let p = ring_schedule(2047);
    assert_eq!((p.windows, p.trim), (0, 0));
    let p = ring_schedule(2048);
    assert_eq!((p.windows, p.trim), (1, 0));
    let p = ring_schedule(100_000);
    assert_eq!(p.windows, 96);
    assert_eq!(p.trim, 0);
}

#[test]
fn next_device_wraps_around() {
    assert_eq!(next_device_index(0, 0), None);
    assert_eq!(next_device_index(0, 3), Some(1));
    assert_eq!(next_device_index(2, 3), Some(0));
    assert_eq!(next_device_index(0, 1), Some(0));
}
