use ws2812_esp32_rmt_driver::driver::color::{
    scale_channel, LedPixelColor, LedPixelColorGrb24, LedPixelColorGrbw32, LedPixelColorImpl,
    LedPixelColorRgbw32,
};

#[test]
fn test_led_pixel_color_impl() {
    let color = LedPixelColorImpl::<3, 1, 0, 2, 255>::new_with_rgb(1, 2, 3);
    assert_eq!(color.0, [2, 1, 3]);
    assert_eq!(color.as_ref(), &color.0);
    assert_eq!((color.r(), color.g(), color.b(), color.w()), (1, 2, 3, 0));

    let color = LedPixelColorImpl::<3, 1, 0, 2, 255>::new_with_rgbw(1, 2, 3, 4);
    assert_eq!(color.0, [2, 1, 3]);
    assert_eq!(color.as_ref(), &color.0);
    assert_eq!((color.r(), color.g(), color.b(), color.w()), (1, 2, 3, 0));

    let color = LedPixelColorImpl::<4, 0, 1, 2, 3>::new_with_rgb(1, 2, 3);
    assert_eq!(color.0, [1, 2, 3, 0]);
    assert_eq!(color.as_ref(), &color.0);
    assert_eq!((color.r(), color.g(), color.b(), color.w()), (1, 2, 3, 0));

    let color = LedPixelColorImpl::<4, 0, 1, 2, 3>::new_with_rgbw(1, 2, 3, 4);
    assert_eq!(color.0, [1, 2, 3, 4]);
    assert_eq!(color.as_ref(), &color.0);
    assert_eq!((color.r(), color.g(), color.b(), color.w()), (1, 2, 3, 4));
}

#[test]
fn test_led_pixel_color_brightness() {
    let color = LedPixelColorImpl::<4, 0, 1, 2, 3>::new_with_rgbw(255, 128, 64, 32).brightness(128);
    assert_eq!(
        (color.r(), color.g(), color.b(), color.w()),
        (128, 64, 32, 16)
    );
}

#[test]
fn test_named_layouts() {
    assert_eq!(LedPixelColorGrb24::BPP, 3);
    assert_eq!(LedPixelColorRgbw32::BPP, 4);
    assert_eq!(LedPixelColorGrbw32::BPP, 4);
    assert_eq!(LedPixelColorGrb24::new_with_rgb(30, 0, 0).0, [0, 30, 0]);
    assert_eq!(LedPixelColorRgbw32::new_with_rgbw(1, 2, 3, 4).0, [1, 2, 3, 4]);
    assert_eq!(LedPixelColorGrbw32::new_with_rgbw(1, 2, 3, 4).0, [2, 1, 3, 4]);
}

#[test]
fn test_channel_round_trip() {
    for &(r, g, b, w) in [(0u8, 0u8, 0u8, 0u8), (1, 2, 3, 4), (255, 254, 253, 252), (9, 0, 200, 17)].iter() {
        let c = LedPixelColorGrbw32::new_with_rgbw(r, g, b, w);
        assert_eq!((c.r(), c.g(), c.b(), c.w()), (r, g, b, w));
        let c = LedPixelColorImpl::<4, 3, 2, 1, 0>::new_with_rgbw(r, g, b, w);
        assert_eq!(c.0, [w, b, g, r]);
        assert_eq!((c.r(), c.g(), c.b(), c.w()), (r, g, b, w));
        let c = LedPixelColorGrb24::new_with_rgb(r, g, b);
        assert_eq!((c.r(), c.g(), c.b()), (r, g, b));
    }
}

#[test]
fn test_absent_channel_reads_zero() {
    let c = LedPixelColorGrb24::new_with_rgbw(1, 2, 3, 200);
    assert_eq!(c.w(), 0);
    let c = LedPixelColorImpl::<2, 7, 0, 1, 9>::new_with_rgbw(100, 2, 3, 200);
    assert_eq!(c.0, [2, 3]);
    assert_eq!((c.r(), c.g(), c.b(), c.w()), (0, 2, 3, 0));
    let mut raw = LedPixelColorGrb24::default();
    raw.0 = [9, 9, 9];
    assert_eq!(raw.w(), 0);
}

#[test]
fn test_shared_offset_keeps_later_channel() {
    let c = LedPixelColorImpl::<3, 0, 0, 1, 2>::new_with_rgbw(10, 20, 30, 40);
    assert_eq!(c.0, [20, 30, 40]);
    assert_eq!((c.r(), c.g()), (20, 20));
}

#[test]
fn test_default_is_black() {
    let c = LedPixelColorRgbw32::default();
    assert_eq!(c.0, [0, 0, 0, 0]);
    assert_eq!((c.r(), c.g(), c.b(), c.w()), (0, 0, 0, 0));
}

#[test]
fn test_as_mut_writes_raw_bytes() {
    let mut c = LedPixelColorGrb24::new_with_rgb(1, 2, 3);
    c.as_mut()[0] = 77;
    assert_eq!(c.0, [77, 1, 3]);
    assert_eq!(c.g(), 77);
}

#[test]
fn test_brightness_identity() {
    for v in 0..=255u8 {
        assert_eq!(scale_channel(v, 255), v);
        let c = LedPixelColorGrbw32::new_with_rgbw(v, 255 - v, v / 2, 7);
        assert_eq!(c.brightness(255), c);
    }
    let c = LedPixelColorGrb24::new_with_rgb(1, 2, 3);
    assert_eq!(c.brightness(255).0, [2, 1, 3]);
}

#[test]
fn test_brightness_identity_needs_zero_unused_bytes() {
    let c = LedPixelColorImpl::<4, 0, 1, 2, 255>([1, 2, 3, 7]);
    let d = c.brightness(255);
    assert_eq!(d.0, [1, 2, 3, 0]);
    assert_eq!((d.r(), d.g(), d.b(), d.w()), (c.r(), c.g(), c.b(), c.w()));
}

#[test]
fn test_brightness_zeroing() {
    for v in 0..=255u8 {
        assert_eq!(scale_channel(v, 0), 0);
    }
    let c = LedPixelColorRgbw32::new_with_rgbw(255, 128, 64, 32).brightness(0);
    assert_eq!(c.0, [0, 0, 0, 0]);
    assert_eq!((c.r(), c.g(), c.b(), c.w()), (0, 0, 0, 0));
}

#[test]
fn test_brightness_formula() {
    assert_eq!(scale_channel(200, 99), 78);
    assert_eq!(scale_channel(255, 1), 1);
    assert_eq!(scale_channel(127, 1), 0);
    assert_eq!(scale_channel(255, 254), 254);
    assert_eq!(scale_channel(1, 254), 0);
    assert_eq!(scale_channel(255, 40), 40);
    let c = LedPixelColorGrb24::new_with_rgb(200, 100, 50).brightness(99);
    assert_eq!(c.0, [39, 78, 19]);
}

#[test]
fn test_equality_and_order_follow_raw_bytes() {
    let a = LedPixelColorGrb24::new_with_rgb(1, 2, 3);
    let b = LedPixelColorGrb24::new_with_rgbw(1, 2, 3, 99);
    assert_eq!(a, b);
    assert_eq!(a.clone(), a);
    let low = LedPixelColorGrb24::new_with_rgb(200, 1, 0);
    let high = LedPixelColorGrb24::new_with_rgb(0, 2, 0);
    assert!(low < high);
    assert_ne!(low, high);
}
