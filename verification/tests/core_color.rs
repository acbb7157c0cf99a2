use ws2812_esp32_rmt_driver::driver::core_color::{
    LedPixelColor, Sk6812Rgbw32Color, Ws2812Grb24Color,
};

#[test]
fn test_ws2812grb24color() {
    let color = Ws2812Grb24Color::new_with_rgb(1, 2, 3);
    assert_eq!(color.0, [2, 1, 3]);
    assert_eq!(color.as_ref(), &color.0);

    let color = Ws2812Grb24Color::new_with_rgbw(1, 2, 3, 4);
    assert_eq!(color.0, [2, 1, 3]);
    assert_eq!(color.as_ref(), &color.0);
}

#[test]
fn test_sk6812rgb32color() {
    let color = Sk6812Rgbw32Color::new_with_rgb(1, 2, 3);
    assert_eq!(color.0, [1, 2, 3, 0]);
    assert_eq!(color.as_ref(), &color.0);

    let color = Sk6812Rgbw32Color::new_with_rgbw(1, 2, 3, 4);
    assert_eq!(color.0, [1, 2, 3, 4]);
    assert_eq!(color.as_ref(), &color.0);
}

#[test]
fn test_fixed_order_bytes_per_pixel() {
    assert_eq!(Ws2812Grb24Color::BPP, 3);
    assert_eq!(Sk6812Rgbw32Color::BPP, 4);
    assert_eq!(Ws2812Grb24Color::default().0, [0, 0, 0]);
    assert_eq!(Sk6812Rgbw32Color::default().0, [0, 0, 0, 0]);
}

#[test]
fn test_fixed_order_as_mut() {
    let mut color = Ws2812Grb24Color::new_with_rgb(1, 2, 3);
    color.as_mut()[2] = 9;
    assert_eq!(color.0, [2, 1, 9]);
    let mut color = Sk6812Rgbw32Color::new_with_rgbw(1, 2, 3, 4);
    color.as_mut()[3] = 8;
    assert_eq!(color.0, [1, 2, 3, 8]);
}
