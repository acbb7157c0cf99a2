use ws2812_esp32_rmt_driver::driver::color::{LedPixelColorGrb24, LedPixelColorGrbw32};
use ws2812_esp32_rmt_driver::lib_smart_leds::{collect_pixel_bytes, White};
use ws2812_esp32_rmt_driver::mock::esp_idf_hal::peripherals::Peripherals;
use ws2812_esp32_rmt_driver::mock::esp_idf_hal::rmt::config::TransmitConfig;
use ws2812_esp32_rmt_driver::mock::esp_idf_hal::rmt::TxRmtDriver;
use ws2812_esp32_rmt_driver::{LedPixelEsp32Rmt, Ws2812Esp32Rmt, RGB8, RGBW8};

#[test]
fn test_ws2812_esp32_rmt_smart_leds() {
    let sample_data = [RGB8::new(0x00, 0x01, 0x02), RGB8::new(0x03, 0x04, 0x05)];
    let expected_values: [u8; 6] = [0x01, 0x00, 0x02, 0x04, 0x03, 0x05];

    let peripherals = Peripherals::take().unwrap();
    let led_pin = peripherals.pins.gpio0;
    let channel = peripherals.rmt.channel0;

    let mut ws2812 = Ws2812Esp32Rmt::new(channel, led_pin).unwrap();
    ws2812.write(&sample_data).unwrap();
    assert_eq!(ws2812.driver.pixel_data.unwrap(), &expected_values);
}

#[test]
fn test_write_nocopy() {
    let sample_data = [RGB8::new(0x00, 0x01, 0x02), RGB8::new(0x03, 0x04, 0x05)];
    let peripherals = Peripherals::take().unwrap();
    let mut ws2812 =
        Ws2812Esp32Rmt::new(peripherals.rmt.channel1, peripherals.pins.gpio26).unwrap();
    ws2812.write_nocopy(&sample_data).unwrap();
    assert_eq!(ws2812.driver.pixel_data, Some(vec![0x01, 0x00, 0x02, 0x04, 0x03, 0x05]));
    ws2812.write_nocopy(&[]).unwrap();
    assert_eq!(ws2812.driver.pixel_data, Some(vec![]));
}

#[test]
fn test_rgbw_strip() {
    let peripherals = Peripherals::take().unwrap();
    let mut leds = LedPixelEsp32Rmt::<RGBW8, LedPixelColorGrbw32>::new(
        peripherals.rmt.channel0,
        peripherals.pins.gpio26,
    )
    .unwrap();
    assert_eq!(leds.driver.pixel_data, None);
    let pixels = [
        RGBW8 { r: 0, g: 0, b: 0, a: White(30) },
        RGBW8 { r: 1, g: 2, b: 3, a: White(4) },
    ];
    leds.write(&pixels).unwrap();
    assert_eq!(leds.driver.pixel_data, Some(vec![0, 0, 0, 30, 2, 1, 3, 4]));
    leds.write_nocopy(&pixels[1..]).unwrap();
    assert_eq!(leds.driver.pixel_data, Some(vec![2, 1, 3, 4]));
}

#[test]
fn test_rgbw_color_on_three_channel_strip_drops_white() {
    let bytes = collect_pixel_bytes::<RGBW8, LedPixelColorGrb24>(&[RGBW8 {
        r: 1,
        g: 2,
        b: 3,
        a: White(200),
    }]);
    assert_eq!(bytes, vec![2, 1, 3]);
    let bytes = collect_pixel_bytes::<RGB8, LedPixelColorGrbw32>(&[RGB8::new(1, 2, 3)]);
    assert_eq!(bytes, vec![2, 1, 3, 0]);
    let bytes = collect_pixel_bytes::<RGB8, LedPixelColorGrb24>(&[]);
    assert_eq!(bytes, Vec::<u8>::new());
}

#[test]
fn test_new_with_rmt_driver() {
    let peripherals = Peripherals::take().unwrap();
    let driver_config = TransmitConfig::new().clock_divider(1);
    let driver =
        TxRmtDriver::new(peripherals.rmt.channel0, peripherals.pins.gpio27, &driver_config)
            .unwrap();
    let mut ws2812 = Ws2812Esp32Rmt::new_with_rmt_driver(driver).unwrap();
    assert_eq!(ws2812.driver.pixel_data, None);
    let pixels = [RGB8::new(30, 0, 0); 25];
    ws2812.write(&pixels).unwrap();
    let sent = ws2812.driver.pixel_data.unwrap();
    assert_eq!(sent.len(), 75);
    assert!(sent.chunks(3).all(|run| run == [0, 30, 0]));
}

#[test]
fn test_ws2812_only_writer() {
    let mut leds = ws2812_esp32_rmt_driver::smart_leds::Ws2812Esp32Rmt::new(0, 27).unwrap();
    assert_eq!(leds.driver.pixel_data, None);
    leds.write(&[RGB8::new(1, 2, 3), RGB8::new(4, 5, 6)]).unwrap();
    assert_eq!(leds.driver.pixel_data, Some(vec![2, 1, 3, 5, 4, 6]));
    leds.write(&[]).unwrap();
    assert_eq!(leds.driver.pixel_data, Some(vec![]));
}

#[test]
fn test_strip_write_failure() {
    let peripherals = Peripherals::take().unwrap();
    let mut ws2812 =
        Ws2812Esp32Rmt::new(peripherals.rmt.channel0, peripherals.pins.gpio0).unwrap();
    ws2812.write(&[RGB8::new(1, 2, 3)]).unwrap();
    ws2812.driver.tx.fault = true;
    assert!(ws2812.write(&[RGB8::new(4, 5, 6)]).is_err());
    assert!(ws2812.write_nocopy(&[RGB8::new(4, 5, 6)]).is_err());
    assert_eq!(ws2812.driver.pixel_data, Some(vec![2, 1, 3]));
    ws2812.driver.tx.fault = false;
    ws2812.write_nocopy(&[RGB8::new(4, 5, 6)]).unwrap();
    assert_eq!(ws2812.driver.pixel_data, Some(vec![5, 4, 6]));
}
