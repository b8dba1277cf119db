use aviutl_output::gif::{frame_size, gif_frame_delay};
use aviutl_output::webp::{
    frame_duration_ms, frame_timestamp, pack_bgcolor, AnimFrame, PixelLayout,
};

#[test]
fn gif_delay_is_rounded_to_hundredths() {
    // 30 frames per second: 3.33 hundredths
    assert_eq!(gif_frame_delay(1, 30), 3);
    // 29.97 frames per second
    assert_eq!(gif_frame_delay(1001, 30000), 3);
    // 24 frames per second: 4.17
    assert_eq!(gif_frame_delay(1, 24), 4);
    // 8 frames per second: 12.5 rounds up
    assert_eq!(gif_frame_delay(1, 8), 13);
    // 40 frames per second: 2.5 rounds up
    assert_eq!(gif_frame_delay(1, 40), 3);
    assert_eq!(gif_frame_delay(1, 1), 100);
    assert_eq!(gif_frame_delay(10, 1), 1000);
}

#[test]
fn gif_delay_is_at_least_one_and_fits_sixteen_bits() {
    assert_eq!(gif_frame_delay(1, 1000), 1);
    assert_eq!(gif_frame_delay(1, 201), 1);
    assert_eq!(gif_frame_delay(1, 200), 1);
    assert_eq!(gif_frame_delay(1, i32::MAX), 1);
    assert_eq!(gif_frame_delay(0, 30), 1);
    assert_eq!(gif_frame_delay(-1, 30), 1);
    assert_eq!(gif_frame_delay(1, -30), 1);
    assert_eq!(gif_frame_delay(-1, -30), 3);
    assert_eq!(gif_frame_delay(1000, 1), 65535);
    assert_eq!(gif_frame_delay(i32::MAX, 1), 65535);
    assert_eq!(gif_frame_delay(i32::MIN, i32::MIN), 100);
    assert_eq!(gif_frame_delay(1, 0), 65535);
    assert_eq!(gif_frame_delay(0, 0), 1);
    assert_eq!(gif_frame_delay(-1, 0), 1);
}

#[test]
fn gif_delay_agrees_with_floating_point() {
    let samples = [
        i32::MIN, -30000, -1001, -30, -2, -1, 0, 1, 2, 3, 7, 8, 24, 25, 30, 40, 60, 199, 200, 201,
        655, 656, 1000, 1001, 30000, 65535, 65536, 1 << 20, i32::MAX - 1, i32::MAX,
    ];
    for &scale in &samples {
        for &rate in &samples {
            let expected = ((100.0 * scale as f64 / rate as f64).round() as u16).max(1);
            assert_eq!(gif_frame_delay(scale, rate), expected, "{} / {}", scale, rate);
        }
    }
}

#[test]
fn webp_duration_is_whole_milliseconds() {
    assert_eq!(frame_duration_ms(1, 30), 33);
    assert_eq!(frame_duration_ms(1001, 30000), 33);
    assert_eq!(frame_duration_ms(1, 24), 41);
    assert_eq!(frame_duration_ms(1, 60), 16);
    assert_eq!(frame_duration_ms(1, 1), 1000);
    assert_eq!(frame_duration_ms(1, 1000), 1);
    assert_eq!(frame_duration_ms(1, 1001), 1);
    assert_eq!(frame_duration_ms(1, i32::MAX), 1);
    assert_eq!(frame_duration_ms(0, 30), 1);
    assert_eq!(frame_duration_ms(-1, 30), 1);
    assert_eq!(frame_duration_ms(-1, -30), 33);
    assert_eq!(frame_duration_ms(i32::MAX, 1), i32::MAX);
    assert_eq!(frame_duration_ms(1, 0), i32::MAX);
    assert_eq!(frame_duration_ms(0, 0), 1);
    assert_eq!(frame_duration_ms(-1, 0), 1);
}

#[test]
fn webp_duration_agrees_with_floating_point() {
    let samples = [
        i32::MIN, -30000, -1001, -30, -2, -1, 0, 1, 2, 3, 7, 8, 24, 25, 30, 40, 60, 999, 1000,
        1001, 30000, 2147483, 2147484, 1 << 22, i32::MAX - 1, i32::MAX,
    ];
    for &scale in &samples {
        for &rate in &samples {
            let expected = (1000.0 * scale as f64 / rate as f64).max(1.0) as i32;
            assert_eq!(frame_duration_ms(scale, rate), expected, "{} / {}", scale, rate);
        }
    }
}

#[test]
fn pixel_layouts() {
    assert!(!PixelLayout::Rgb.is_alpha());
    assert!(PixelLayout::Rgba.is_alpha());
    assert_eq!(PixelLayout::Rgb.bytes_per_pixel(), 3);
    assert_eq!(PixelLayout::Rgba.bytes_per_pixel(), 4);
}

#[test]
fn frame_holds_a_copy_of_the_image() {
    let mut image = vec![1u8, 2, 3, 4, 5, 6];
    let frame = AnimFrame::from_rgb(&image, 2, 1, 40);
    image[0] = 99;
    assert_eq!(frame.get_image(), &[1, 2, 3, 4, 5, 6]);
    assert_eq!(frame.get_layout(), PixelLayout::Rgb);
    assert_eq!(frame.get_time_ms(), 40);
    assert_eq!((frame.width(), frame.height()), (2, 1));
    assert_eq!(frame.stride(), 6);
    assert!(frame.is_complete());

    let frame = AnimFrame::from_rgba(&[0u8; 8], 2, 1, -1);
    assert_eq!(frame.get_layout(), PixelLayout::Rgba);
    assert_eq!(frame.get_time_ms(), -1);
    assert_eq!(frame.stride(), 8);
    assert!(frame.is_complete());

    let frame = AnimFrame::new(&[7u8; 5], PixelLayout::Rgba, 1, 1, 0);
    assert_eq!(frame.get_image(), &[7u8; 5]);
    assert!(frame.is_complete());
}

#[test]
fn frame_that_is_too_short_is_not_complete() {
    assert!(!AnimFrame::from_rgb(&[0u8; 5], 2, 1, 0).is_complete());
    assert!(!AnimFrame::from_rgba(&[0u8; 15], 2, 2, 0).is_complete());
    assert!(AnimFrame::from_rgba(&[0u8; 16], 2, 2, 0).is_complete());
    assert!(AnimFrame::from_rgb(&[], 0, 5, 0).is_complete());
    assert!(AnimFrame::from_rgb(&[], 5, 0, 0).is_complete());
    let huge = AnimFrame::from_rgba(&[0u8; 16], u32::MAX, u32::MAX, 0);
    assert_eq!(huge.stride(), 4 * u32::MAX as u64);
    assert!(!huge.is_complete());
}

#[test]
fn background_colour_is_packed_alpha_first() {
    assert_eq!(pack_bgcolor([0x11, 0x22, 0x33, 0x44]), 0x4433_2211);
    assert_eq!(pack_bgcolor([0, 0, 0, 0]), 0);
    assert_eq!(pack_bgcolor([255, 255, 255, 255]), u32::MAX);
    assert_eq!(pack_bgcolor([255, 0, 0, 0]), 0xff);
    assert_eq!(pack_bgcolor([0, 0, 0, 255]), 0xff00_0000);
}

#[test]
fn timestamps_count_every_frame() {
    assert_eq!(frame_timestamp(0, 33), 0);
    assert_eq!(frame_timestamp(1, 33), 33);
    assert_eq!(frame_timestamp(100, 33), 3300);
    assert_eq!(frame_timestamp(65075262, 33), 2147483646);
    assert_eq!(frame_timestamp(65075263, 33), i32::MAX);
    assert_eq!(frame_timestamp(u32::MAX, i32::MAX), i32::MAX);
    assert_eq!(frame_timestamp(u32::MAX, 0), 0);
    assert_eq!(frame_timestamp(2, -5), -10);
    assert_eq!(frame_timestamp(u32::MAX, -1), i32::MIN);
    // the sum of the durations of the frames before
    let mut sum = 0;
    for frame in 0..1000 {
        assert_eq!(frame_timestamp(frame, 41), sum);
        sum += 41;
    }
}

#[test]
fn gif_frames_fit_sixteen_bits() {
    assert_eq!(frame_size(640, 480), Some((640, 480)));
    assert_eq!(frame_size(0, 0), Some((0, 0)));
    assert_eq!(frame_size(65535, 65535), Some((65535, 65535)));
    assert_eq!(frame_size(65536, 1), None);
    assert_eq!(frame_size(1, 65536), None);
    assert_eq!(frame_size(-1, 1), None);
    assert_eq!(frame_size(1, i32::MIN), None);
}
