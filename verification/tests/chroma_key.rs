use aviutl_output::chroma_key::{
    apply_chroma_key, tone_matches, ChromaKeySettings, KeyColor, TargetColor, Tone, DEGREE,
    FULL_TURN, PERCENT, WHOLE,
};
use aviutl_output::config::ConfigError;
use aviutl_output::error::PipelineError;
use palette::{Hsl, IntoColor, Srgb};

fn key(rgb: [u8; 3], hue_degrees: u32, tolerance_degrees: u32, saturation_percent: u32) -> KeyColor {
    KeyColor::new(rgb, hue_degrees * DEGREE, tolerance_degrees, saturation_percent).unwrap()
}

fn tone(hue_degrees: u32, saturation_percent: u32) -> Tone {
    Tone { hue: hue_degrees * DEGREE, saturation: saturation_percent * PERCENT }
}

/// Measures a colour the way the plugin does, with `palette`.
fn measured(rgb: [u8; 3]) -> Tone {
    let colour = Srgb::new(
        rgb[0] as f32 / 255.0,
        rgb[1] as f32 / 255.0,
        rgb[2] as f32 / 255.0,
    );
    let hsl: Hsl = colour.into_color();
    let hue = (hsl.hue.into_positive_degrees() as f64 * 1_000_000.0).round() as u64;
    let saturation = (hsl.saturation as f64 * 1_000_000.0).round() as u64;
    Tone {
        hue: (hue % FULL_TURN as u64) as u32,
        saturation: saturation.min(WHOLE as u64) as u32,
    }
}

fn measured_image(image: &[u8]) -> Vec<Tone> {
    image.chunks_exact(4).map(|p| measured([p[0], p[1], p[2]])).collect()
}

#[test]
fn units_fit_together() {
    assert_eq!(360 * DEGREE, FULL_TURN);
    assert_eq!(100 * PERCENT, WHOLE);
}

#[test]
fn exact_match_is_keyed_with_no_tolerance() {
    // a grey key: no saturation at all, and still keyed
    let k = key([128, 128, 128], 0, 0, 0);
    let mut image = vec![128, 128, 128, 255, 128, 128, 129, 255];
    let tones = vec![tone(0, 0), tone(240, 1)];
    assert_eq!(apply_chroma_key(&mut image, &k, &tones), Ok(()));
    assert_eq!(image, vec![128, 128, 128, 0, 128, 128, 129, 255]);
}

#[test]
fn exact_match_is_keyed_whatever_its_tone() {
    let k = key([0, 0, 255], 240, 0, 0);
    let mut image = vec![0, 0, 255, 200];
    // a tone far from the key's, as a faulty measurement might give
    let tones = vec![tone(60, 0)];
    assert_eq!(apply_chroma_key(&mut image, &k, &tones), Ok(()));
    assert_eq!(image, vec![0, 0, 255, 0]);
}

#[test]
fn pixel_out_of_hue_range_keeps_its_alpha() {
    // key hue 120, window 40 wide: 100 to 140
    let k = key([0, 255, 0], 120, 40, 100);
    let mut image = vec![1, 1, 1, 201, 2, 2, 2, 202, 3, 3, 3, 203, 4, 4, 4, 204];
    let tones = vec![
        tone(99, 100),
        tone(100, 100),
        tone(140, 100),
        tone(141, 100),
    ];
    assert_eq!(apply_chroma_key(&mut image, &k, &tones), Ok(()));
    assert_eq!(image, vec![1, 1, 1, 201, 2, 2, 2, 0, 3, 3, 3, 0, 4, 4, 4, 204]);
}

#[test]
fn hue_range_is_judged_to_the_millionth() {
    let k = key([0, 255, 0], 120, 40, 100);
    let inside = Tone { hue: 140 * DEGREE, saturation: WHOLE };
    let outside = Tone { hue: 140 * DEGREE + 1, saturation: WHOLE };
    assert!(tone_matches(inside, &k));
    assert!(!tone_matches(outside, &k));
    // an odd tolerance: half of 41 degrees is 20.5
    let odd = key([0, 255, 0], 120, 41, 100);
    assert!(tone_matches(Tone { hue: 140 * DEGREE + 500_000, saturation: WHOLE }, &odd));
    assert!(!tone_matches(Tone { hue: 140 * DEGREE + 500_001, saturation: WHOLE }, &odd));
}

#[test]
fn pixel_below_saturation_floor_keeps_its_alpha() {
    // tolerance 25 percent: saturation must reach 75 percent
    let k = key([0, 255, 0], 120, 360, 25);
    let mut image = vec![1, 1, 1, 201, 2, 2, 2, 202, 3, 3, 3, 203];
    let tones = vec![tone(120, 74), tone(120, 75), tone(120, 100)];
    assert_eq!(apply_chroma_key(&mut image, &k, &tones), Ok(()));
    assert_eq!(image, vec![1, 1, 1, 201, 2, 2, 2, 0, 3, 3, 3, 0]);
    assert!(!tone_matches(Tone { hue: 120 * DEGREE, saturation: 749_999 }, &k));
    assert!(tone_matches(Tone { hue: 120 * DEGREE, saturation: 750_000 }, &k));
}

#[test]
fn no_saturation_tolerance_asks_for_full_saturation() {
    let k = key([0, 255, 0], 120, 360, 0);
    assert!(tone_matches(tone(120, 100), &k));
    assert!(!tone_matches(Tone { hue: 120 * DEGREE, saturation: WHOLE - 1 }, &k));
    let all = key([0, 255, 0], 120, 360, 100);
    assert!(tone_matches(tone(300, 0), &all));
}

#[test]
fn saturation_tolerance_above_one_counts_as_one() {
    let k = KeyColor {
        rgb: [0, 255, 0],
        hue: 120 * DEGREE,
        hue_tolerance: FULL_TURN,
        saturation_tolerance: 3 * WHOLE,
    };
    assert!(tone_matches(tone(0, 0), &k));
}

#[test]
fn hue_window_wraps_around_the_circle() {
    // key hue 350, window 40 wide: 330 to 10
    let k = key([255, 0, 42], 350, 40, 100);
    assert!(tone_matches(tone(5, 100), &k));
    assert!(tone_matches(tone(10, 100), &k));
    assert!(!tone_matches(tone(11, 100), &k));
    assert!(tone_matches(tone(330, 100), &k));
    assert!(!tone_matches(tone(329, 100), &k));
    // and the other way round
    let low = key([255, 42, 0], 5, 40, 100);
    assert!(tone_matches(tone(350, 100), &low));
    assert!(!tone_matches(tone(344, 100), &low));
}

#[test]
fn opposite_hues_match_only_a_full_window() {
    let narrow = key([255, 0, 0], 0, 359, 100);
    assert!(!tone_matches(tone(180, 100), &narrow));
    let full = key([255, 0, 0], 0, 360, 100);
    assert!(tone_matches(tone(180, 100), &full));
}

#[test]
fn keying_twice_is_keying_once() {
    let k = key([0, 255, 0], 120, 60, 50);
    let before = vec![
        0, 255, 0, 255, 10, 200, 30, 128, 200, 10, 30, 77, 128, 128, 128, 255, 0, 254, 0, 0,
    ];
    let tones = measured_image(&before);
    let mut once = before.clone();
    assert_eq!(apply_chroma_key(&mut once, &k, &tones), Ok(()));
    let mut twice = once.clone();
    assert_eq!(apply_chroma_key(&mut twice, &k, &measured_image(&once)), Ok(()));
    assert_eq!(twice, once);
    assert_eq!(once, vec![
        0, 255, 0, 0, 10, 200, 30, 0, 200, 10, 30, 77, 128, 128, 128, 255, 0, 254, 0, 0,
    ]);
}

#[test]
fn keying_never_raises_an_alpha_nor_touches_colour() {
    let k = key([0, 0, 255], 240, 90, 60);
    let before: Vec<u8> = (0..=255u32)
        .flat_map(|i| [(i * 7 % 256) as u8, (i * 13 % 256) as u8, (255 - i) as u8, (i * 3 % 256) as u8])
        .collect();
    let mut image = before.clone();
    assert_eq!(apply_chroma_key(&mut image, &k, &measured_image(&before)), Ok(()));
    assert_eq!(image.len(), before.len());
    let mut keyed = 0;
    for (after, before) in image.chunks_exact(4).zip(before.chunks_exact(4)) {
        assert_eq!(after[..3], before[..3]);
        assert!(after[3] == before[3] || after[3] == 0);
        if after[3] != before[3] {
            keyed += 1;
        }
    }
    assert!(keyed > 0);
    assert!(keyed < 256);
}

#[test]
fn measured_tones_follow_the_colour_wheel() {
    assert_eq!(measured([255, 0, 0]), tone(0, 100));
    assert_eq!(measured([0, 255, 0]), tone(120, 100));
    assert_eq!(measured([0, 0, 255]), tone(240, 100));
    assert_eq!(measured([255, 0, 255]), tone(300, 100));
    // a grey has no hue of its own: it is given hue 0
    assert_eq!(measured([128, 128, 128]), tone(0, 0));
    assert_eq!(measured([0, 0, 0]), tone(0, 0));
    assert_eq!(measured([255, 255, 255]), tone(0, 0));
}

#[test]
fn greys_are_keyed_only_by_a_full_saturation_tolerance() {
    let image = vec![100, 100, 100, 255];
    let tones = measured_image(&image);
    let strict = key([255, 0, 0], 0, 360, 99);
    let mut kept = image.clone();
    assert_eq!(apply_chroma_key(&mut kept, &strict, &tones), Ok(()));
    assert_eq!(kept, image);
    let loose = key([255, 0, 0], 0, 360, 100);
    let mut cleared = image.clone();
    assert_eq!(apply_chroma_key(&mut cleared, &loose, &tones), Ok(()));
    assert_eq!(cleared, vec![100, 100, 100, 0]);
}

#[test]
fn trailing_bytes_are_left_alone() {
    let k = key([1, 2, 3], 0, 0, 0);
    let mut image = vec![1, 2, 3, 255, 1, 2, 3];
    assert_eq!(apply_chroma_key(&mut image, &k, &vec![tone(0, 0)]), Ok(()));
    assert_eq!(image, vec![1, 2, 3, 0, 1, 2, 3]);
}

#[test]
fn empty_image_is_accepted() {
    let k = key([1, 2, 3], 0, 0, 0);
    let mut image: Vec<u8> = vec![];
    assert_eq!(apply_chroma_key(&mut image, &k, &vec![]), Ok(()));
    assert!(image.is_empty());
}

#[test]
fn tones_that_do_not_fit_are_refused() {
    let k = key([1, 2, 3], 0, 360, 100);
    let before = vec![1, 2, 3, 255, 9, 9, 9, 255];
    let mut image = before.clone();
    assert_eq!(
        apply_chroma_key(&mut image, &k, &vec![tone(0, 0)]),
        Err(PipelineError::DataIntegrity)
    );
    assert_eq!(image, before);
    assert_eq!(
        apply_chroma_key(&mut image, &k, &vec![tone(0, 0); 3]),
        Err(PipelineError::DataIntegrity)
    );
    assert_eq!(image, before);
    let bad_hue = Tone { hue: FULL_TURN, saturation: 0 };
    assert!(!bad_hue.is_valid());
    assert_eq!(
        apply_chroma_key(&mut image, &k, &vec![tone(0, 0), bad_hue]),
        Err(PipelineError::DataIntegrity)
    );
    assert_eq!(image, before);
    let bad_saturation = Tone { hue: 0, saturation: WHOLE + 1 };
    assert!(!bad_saturation.is_valid());
    assert_eq!(
        apply_chroma_key(&mut image, &k, &vec![bad_saturation, tone(0, 0)]),
        Err(PipelineError::DataIntegrity)
    );
    assert_eq!(image, before);
    let bad_key = KeyColor { rgb: [1, 2, 3], hue: FULL_TURN, hue_tolerance: 0, saturation_tolerance: 0 };
    assert_eq!(
        apply_chroma_key(&mut image, &bad_key, &vec![tone(0, 0); 2]),
        Err(PipelineError::DataIntegrity)
    );
    assert_eq!(image, before);
    assert!(Tone { hue: FULL_TURN - 1, saturation: WHOLE }.is_valid());
}

#[test]
fn key_colour_takes_settings_in_range() {
    let k = KeyColor::new([1, 2, 3], 7, 360, 100).unwrap();
    assert_eq!(k.rgb, [1, 2, 3]);
    assert_eq!(k.hue, 7);
    assert_eq!(k.hue_tolerance, FULL_TURN);
    assert_eq!(k.saturation_tolerance, WHOLE);
    let k = KeyColor::new([1, 2, 3], FULL_TURN - 1, 0, 0).unwrap();
    assert_eq!(k.hue_tolerance, 0);
    assert_eq!(k.saturation_tolerance, 0);
    assert_eq!(
        KeyColor::new([1, 2, 3], 0, 361, 0).err(),
        Some(PipelineError::InvalidConfiguration)
    );
    assert_eq!(
        KeyColor::new([1, 2, 3], 0, 0, 101).err(),
        Some(PipelineError::InvalidConfiguration)
    );
    assert_eq!(
        KeyColor::new([1, 2, 3], FULL_TURN, 0, 0).err(),
        Some(PipelineError::InvalidConfiguration)
    );
    assert_eq!(
        KeyColor::new([1, 2, 3], 0, u32::MAX, u32::MAX).err(),
        Some(PipelineError::InvalidConfiguration)
    );
}

#[test]
fn target_colour_is_read_from_hex() {
    assert_eq!(TargetColor::parse("#0000FF"), Ok(TargetColor { r: 0, g: 0, b: 255 }));
    assert_eq!(TargetColor::parse("#12aBcD"), Ok(TargetColor { r: 0x12, g: 0xab, b: 0xcd }));
    assert_eq!(TargetColor::parse("#ffffff"), Ok(TargetColor { r: 255, g: 255, b: 255 }));
    for bad in [
        "", "#", "0000FF", "#0000F", "#0000FFF", "#0000FG", "#0000F ", " #0000FF", "##000FF",
        "#00 0FF", "#００００FF", "#-000FF", "0x0000FF",
    ] {
        assert_eq!(TargetColor::parse(bad), Err(ConfigError::KeyColor), "{}", bad);
    }
}

#[test]
fn target_colour_is_written_as_upper_case_hex() {
    let c = TargetColor { r: 0x12, g: 0xab, b: 0x0f };
    assert_eq!(c.to_text(), "#12AB0F");
    assert_eq!(c.to_array(), [0x12, 0xab, 0x0f]);
    assert_eq!(TargetColor { r: 0, g: 0, b: 0 }.to_text(), "#000000");
    for v in [0u8, 1, 9, 10, 15, 16, 127, 128, 254, 255] {
        let c = TargetColor { r: v, g: 255 - v, b: v / 2 };
        assert_eq!(TargetColor::parse(&c.to_text()), Ok(c));
    }
}

#[test]
fn chroma_key_settings_are_checked_on_entry() {
    let ok = ChromaKeySettings::from_dialog(true, "#00FF00", "40", "25").unwrap();
    assert_eq!(ok, ChromaKeySettings {
        enabled: true,
        target_color: TargetColor { r: 0, g: 255, b: 0 },
        hue_range: 40,
        saturation_range: 25,
    });
    assert_eq!(
        ChromaKeySettings::from_dialog(false, "#00FF00", "360", "100").map(|s| (s.enabled, s.hue_range, s.saturation_range)),
        Ok((false, 360, 100))
    );
    assert_eq!(
        ChromaKeySettings::from_dialog(true, "green", "x", "y"),
        Err(ConfigError::KeyColor)
    );
    assert_eq!(
        ChromaKeySettings::from_dialog(true, "#00FF00", "361", "101"),
        Err(ConfigError::HueRange)
    );
    assert_eq!(
        ChromaKeySettings::from_dialog(true, "#00FF00", "", "10"),
        Err(ConfigError::HueRange)
    );
    assert_eq!(
        ChromaKeySettings::from_dialog(true, "#00FF00", "70000", "10"),
        Err(ConfigError::HueRange)
    );
    assert_eq!(
        ChromaKeySettings::from_dialog(true, "#00FF00", "360", "101"),
        Err(ConfigError::SaturationRange)
    );
    assert_eq!(
        ChromaKeySettings::from_dialog(true, "#00FF00", "360", "-1"),
        Err(ConfigError::SaturationRange)
    );
    assert_eq!(
        ChromaKeySettings::from_dialog(true, "#00FF00", "360", "256"),
        Err(ConfigError::SaturationRange)
    );
}

#[test]
fn chroma_key_settings_give_the_key() {
    let settings = ChromaKeySettings::from_dialog(true, "#0000FF", "40", "25").unwrap();
    let k = settings.key_color(240 * DEGREE).unwrap();
    assert_eq!(k.rgb, [0, 0, 255]);
    assert_eq!(k.hue, 240 * DEGREE);
    assert_eq!(k.hue_tolerance, 40 * DEGREE);
    assert_eq!(k.saturation_tolerance, 250_000);
    assert_eq!(settings.key_color(FULL_TURN).err(), Some(PipelineError::InvalidConfiguration));
    let wide = ChromaKeySettings { hue_range: 361, ..settings };
    assert_eq!(wide.key_color(0).err(), Some(PipelineError::InvalidConfiguration));
    let deep = ChromaKeySettings { saturation_range: 101, ..settings };
    assert_eq!(deep.key_color(0).err(), Some(PipelineError::InvalidConfiguration));
}

#[test]
fn tones_out_of_range_are_judged_by_the_same_rule() {
    // a hue of more than a turn lies a negative distance away, the short way round
    let k = KeyColor { rgb: [0, 0, 0], hue: 0, hue_tolerance: 0, saturation_tolerance: WHOLE };
    assert!(tone_matches(Tone { hue: FULL_TURN + 1, saturation: 0 }, &k));
    assert!(tone_matches(Tone { hue: u32::MAX, saturation: 0 }, &k));
    assert!(!tone_matches(Tone { hue: FULL_TURN / 2, saturation: 0 }, &k));
}
