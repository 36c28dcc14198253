use outliner::{color_distance, dominant_color, Color, Filter, Gallery, Image, OutlineError, Picture, Process};

fn image(width: u32, height: u32, pixels: Vec<Color>) -> Image {
    Image::new(width, height, pixels).expect("pixel count matches the size")
}

fn sample_filter() -> Filter {
    Filter { sensitivity: 50, outline: [0, 0, 0, 255], background: [255, 255, 255, 0] }
}

#[test]
fn two_pixel_scenario() {
    let source = image(2, 1, vec![[10, 10, 10, 255], [200, 200, 200, 255]]);
    let picture = Picture::new(source, &sample_filter()).unwrap();
    assert_eq!(picture.background(), [10, 10, 10, 255]);
    assert_eq!(color_distance([10, 10, 10, 255], [200, 200, 200, 255]) / 4, 142);
    let filtered = picture.filtered();
    assert_eq!(filtered.width(), 2);
    assert_eq!(filtered.height(), 1);
    assert_eq!(filtered.pixels(), &vec![[255, 255, 255, 0], [0, 0, 0, 255]]);
}

#[test]
fn strict_majority_is_dominant() {
    let a = [1, 2, 3, 255];
    let b = [9, 9, 9, 9];
    let c = [0, 0, 0, 0];
    let img = image(3, 2, vec![b, a, c, a, b, a]);
    assert_eq!(dominant_color(&img), Some(a));
}

#[test]
fn tie_goes_to_first_color_reaching_maximum() {
    let a = [10, 10, 10, 255];
    let b = [20, 20, 20, 255];
    assert_eq!(dominant_color(&image(2, 1, vec![a, b])), Some(a));
    // Both occur twice; b reaches two at index 2, a only at index 3.
    assert_eq!(dominant_color(&image(4, 1, vec![a, b, b, a])), Some(b));
}

#[test]
fn dominant_of_empty_image_is_none() {
    assert_eq!(dominant_color(&image(0, 0, vec![])), None);
    assert_eq!(dominant_color(&image(5, 0, vec![])), None);
}

#[test]
fn distance_to_itself_is_zero() {
    for c in [[0, 0, 0, 0], [1, 2, 3, 4], [255, 255, 255, 255], [7, 0, 200, 0]] {
        assert_eq!(color_distance(c, c), 0);
    }
}

#[test]
fn distance_is_symmetric() {
    let colors: [Color; 4] = [[0, 0, 0, 0], [1, 2, 3, 4], [255, 0, 255, 0], [9, 200, 30, 255]];
    for a in colors {
        for b in colors {
            assert_eq!(color_distance(a, b), color_distance(b, a));
        }
    }
}

#[test]
fn distance_values() {
    assert_eq!(color_distance([0, 0, 0, 0], [255, 255, 255, 255]), 1020);
    assert_eq!(color_distance([10, 20, 30, 40], [13, 16, 30, 50]), 17);
    // Both fully transparent: zero whatever the other channels are.
    assert_eq!(color_distance([255, 0, 255, 0], [0, 255, 0, 0]), 0);
    // Only one transparent: the alpha difference counts.
    assert_eq!(color_distance([0, 0, 0, 0], [0, 0, 0, 8]), 8);
}

#[test]
fn reference_pixel_becomes_background_unless_sensitivity_is_zero() {
    let reference = [40, 50, 60, 255];
    for s in [1u8, 2, 128, 255] {
        let f = Filter { sensitivity: s, outline: [1, 1, 1, 255], background: [2, 2, 2, 2] };
        assert_eq!(f.make_pixel(reference, reference), [2, 2, 2, 2]);
    }
    let f = Filter { sensitivity: 0, outline: [1, 1, 1, 255], background: [2, 2, 2, 2] };
    assert_eq!(f.make_pixel(reference, reference), [1, 1, 1, 255]);
}

#[test]
fn threshold_is_strict() {
    let f = Filter { sensitivity: 2, outline: [1, 1, 1, 1], background: [2, 2, 2, 2] };
    // distance 7 / 4 == 1 < 2: background
    assert_eq!(f.make_pixel([7, 0, 0, 255], [0, 0, 0, 255]), [2, 2, 2, 2]);
    // distance 8 / 4 == 2, not below 2: outline
    assert_eq!(f.make_pixel([8, 0, 0, 255], [0, 0, 0, 255]), [1, 1, 1, 1]);
}

#[test]
fn record_round_trip() {
    for s in [0u8, 128, 255] {
        let f = Filter { sensitivity: s, outline: [3, 1, 4, 1], background: [5, 9, 2, 6] };
        let (sensitivity, outline, background) = f.to_record();
        assert_eq!(sensitivity, s as u64);
        assert_eq!(outline, vec![3, 1, 4, 1]);
        assert_eq!(background, vec![5, 9, 2, 6]);
        assert_eq!(Filter::new(sensitivity, &outline, &background), Ok(f));
    }
}

#[test]
fn record_round_trip_through_json() {
    let f = Filter { sensitivity: 77, outline: [0, 10, 20, 255], background: [255, 254, 253, 0] };
    let (sensitivity, outline, background) = f.to_record();
    let text = format!(
        "{{\"sensitivity\": {}, \"outline\": {:?}, \"background\": {:?}}}",
        sensitivity, outline, background
    );
    let value: serde_json::Value = serde_json::from_str(&text).unwrap();
    let channels = |key: &str| -> Vec<u64> {
        value[key].as_array().unwrap().iter().map(|v| v.as_u64().unwrap()).collect()
    };
    let back = Filter::new(value["sensitivity"].as_u64().unwrap(), &channels("outline"), &channels("background"));
    assert_eq!(back, Ok(f));
}

#[test]
fn malformed_records_are_refused() {
    let ok = vec![0, 0, 0, 255];
    assert_eq!(Filter::new(256, &ok, &ok), Err(OutlineError::ConfigParseError));
    assert_eq!(Filter::new(1, &vec![0, 0, 256, 0], &ok), Err(OutlineError::ConfigParseError));
    assert_eq!(Filter::new(1, &ok, &vec![0, 0, 0]), Err(OutlineError::ConfigParseError));
    assert_eq!(Filter::new(1, &vec![0, 0, 0, 0, 0], &ok), Err(OutlineError::ConfigParseError));
    assert_eq!(
        Filter::new(255, &vec![255, 255, 255, 255], &ok),
        Ok(Filter { sensitivity: 255, outline: [255, 255, 255, 255], background: [0, 0, 0, 255] })
    );
}

#[test]
fn malformed_config_leaves_filter_unchanged() {
    let mut gallery = Gallery::new();
    gallery.apply_filter(sample_filter());
    gallery.add_image(image(2, 1, vec![[10, 10, 10, 255], [200, 200, 200, 255]])).unwrap();
    let before: Vec<Color> = gallery.pictures()[0].filtered().pixels().clone();
    let r = gallery.load_config(10, &vec![1, 2, 3], &vec![0, 0, 0, 0]);
    assert_eq!(r, Err(OutlineError::ConfigParseError));
    assert_eq!(gallery.filter(), sample_filter());
    assert_eq!(gallery.pictures()[0].filtered().pixels(), &before);
}

#[test]
fn loaded_config_renders_again() {
    let mut gallery = Gallery::new();
    gallery.add_image(image(2, 1, vec![[10, 10, 10, 255], [200, 200, 200, 255]])).unwrap();
    // Default filter: sensitivity 128, so distance 142 is outline.
    assert_eq!(gallery.pictures()[0].filtered().pixels(), &vec![[0, 0, 0, 0], [0, 0, 0, 255]]);
    gallery.load_config(200, &vec![9, 9, 9, 9], &vec![1, 1, 1, 1]).unwrap();
    assert_eq!(gallery.filter(), Filter { sensitivity: 200, outline: [9, 9, 9, 9], background: [1, 1, 1, 1] });
    assert_eq!(gallery.pictures()[0].filtered().pixels(), &vec![[1, 1, 1, 1], [1, 1, 1, 1]]);
}

#[test]
fn empty_image_is_refused() {
    let r = Picture::new(image(0, 0, vec![]), &Filter::default());
    assert!(matches!(r, Err(OutlineError::EmptyImage)));
    let mut gallery = Gallery::new();
    assert_eq!(gallery.add_image(image(0, 3, vec![])), Err(OutlineError::EmptyImage));
    assert_eq!(gallery.pictures().len(), 0);
}

#[test]
fn rerender_is_idempotent() {
    let source = image(2, 2, vec![[1, 1, 1, 255], [1, 1, 1, 255], [90, 1, 1, 255], [1, 1, 1, 0]]);
    let f = Filter { sensitivity: 10, outline: [0, 0, 0, 255], background: [0, 0, 0, 0] };
    let mut picture = Picture::new(source, &f).unwrap();
    let first = picture.filtered().to_raw();
    picture.update(&f);
    let second = picture.filtered().to_raw();
    picture.update(&f);
    assert_eq!(first, second);
    assert_eq!(second, picture.filtered().to_raw());
    assert_eq!(first, vec![0, 0, 0, 0, 0, 0, 0, 0, 0, 0, 0, 255, 0, 0, 0, 255]);
}

#[test]
fn filtered_keeps_dimensions() {
    for (w, h) in [(1u32, 1u32), (3, 1), (1, 4), (5, 3)] {
        let pixels: Vec<Color> = (0..w * h).map(|i| [i as u8, 0, 0, 255]).collect();
        let picture = Picture::new(image(w, h, pixels), &Filter::default()).unwrap();
        assert_eq!(picture.filtered().width(), w);
        assert_eq!(picture.filtered().height(), h);
        assert_eq!(picture.filtered().len(), (w * h) as usize);
    }
}

#[test]
fn default_filter() {
    let f = Filter::default();
    assert_eq!(f.sensitivity, 128);
    assert_eq!(f.outline, [0, 0, 0, 255]);
    assert_eq!(f.background, [0, 0, 0, 0]);
    let g = Gallery::new();
    assert_eq!(g.filter(), f);
}

#[test]
fn raw_bytes_round_trip() {
    let bytes: Vec<u8> = (0..24).collect();
    let img = Image::from_raw(3, 2, bytes.clone()).unwrap();
    assert_eq!(img.len(), 6);
    assert_eq!(img.get_pixel(0, 0), [0, 1, 2, 3]);
    assert_eq!(img.get_pixel(2, 1), [20, 21, 22, 23]);
    assert_eq!(img.get_pixel(0, 1), [12, 13, 14, 15]);
    assert_eq!(img.to_raw(), bytes);
    assert!(Image::from_raw(3, 2, vec![0; 23]).is_none());
    assert!(Image::from_raw(3, 2, vec![0; 28]).is_none());
    assert!(Image::new(2, 2, vec![[0; 4]; 3]).is_none());
}

#[test]
fn picture_keeps_source() {
    let source = image(1, 2, vec![[5, 5, 5, 5], [6, 6, 6, 6]]);
    let picture = Picture::new(source.clone(), &Filter::default()).unwrap();
    assert_eq!(picture.source().pixels(), source.pixels());
    assert_eq!(picture.background(), [5, 5, 5, 5]);
}

#[test]
fn gallery_clear_and_apply() {
    let mut gallery = Gallery::new();
    gallery.add_image(image(1, 1, vec![[3, 3, 3, 255]])).unwrap();
    gallery.add_image(image(1, 2, vec![[4, 4, 4, 255], [250, 4, 4, 255]])).unwrap();
    assert_eq!(gallery.pictures().len(), 2);
    let f = Filter { sensitivity: 0, outline: [7, 7, 7, 7], background: [8, 8, 8, 8] };
    gallery.apply_filter(f);
    assert_eq!(gallery.pictures()[0].filtered().pixels(), &vec![[7, 7, 7, 7]]);
    assert_eq!(gallery.pictures()[1].filtered().pixels(), &vec![[7, 7, 7, 7], [7, 7, 7, 7]]);
    gallery.clear();
    assert_eq!(gallery.pictures().len(), 0);
    assert_eq!(gallery.filter(), f);
}

#[test]
fn process_returns_copy() {
    let img = image(2, 1, vec![[1, 2, 3, 4], [5, 6, 7, 8]]);
    let p = Process::new(img.clone()).unwrap();
    let out = p.process();
    assert_eq!(out.width(), 2);
    assert_eq!(out.height(), 1);
    assert_eq!(out.pixels(), img.pixels());
}
