use ws2812_esp32_rmt_driver::driver::esp32_rmt::{
    Ws2812Esp32RmtDriver as BoundDriver, Ws2812Esp32RmtDriverError as BoundDriverError,
    Ws2812Esp32RmtItemEncoder, WS2812_T0H_NS, WS2812_T0L_NS, WS2812_T1H_NS, WS2812_T1L_NS,
};
use ws2812_esp32_rmt_driver::driver::mock::{Ws2812Esp32RmtDriver, Ws2812Esp32RmtDriverError};
use ws2812_esp32_rmt_driver::mock::esp_idf_hal::peripherals::Peripherals;
use ws2812_esp32_rmt_driver::mock::esp_idf_hal::rmt::config::TransmitConfig;
use ws2812_esp32_rmt_driver::mock::esp_idf_hal::rmt::{
    duration_to_ticks, PinState, Pulse, Symbol, TxRmtDriver, COUNTER_CLOCK_HZ, PULSE_TICKS_MAX,
    RMT,
};
use ws2812_esp32_rmt_driver::mock::esp_idf_hal::units::Hertz;
use ws2812_esp32_rmt_driver::mock::esp_idf_sys::EspError;

#[test]
fn test_ws2812_esp32_rmt_driver_mock() {
    let sample_data: [u8; 6] = [0x00, 0x01, 0x02, 0x03, 0x04, 0x05];

    let mut driver = Ws2812Esp32RmtDriver::new().unwrap();
    assert_eq!(driver.pixel_data, None);
    driver.write_blocking(&sample_data).unwrap();
    assert_eq!(driver.pixel_data.unwrap(), &sample_data);
}

#[test]
fn test_recording_driver_write_takes_the_frame() {
    let mut driver = Ws2812Esp32RmtDriver::new().unwrap();
    driver.write(vec![9, 8, 7]).unwrap();
    assert_eq!(driver.pixel_data, Some(vec![9, 8, 7]));
    driver.write_blocking(&[]).unwrap();
    assert_eq!(driver.pixel_data, Some(vec![]));
    assert_eq!(Ws2812Esp32RmtDriverError.to_string(), "mock Ws2812Esp32RmtDriverError");
}

#[test]
fn test_bound_driver_records_the_last_frame() {
    let peripherals = Peripherals::take().unwrap();
    let mut driver = BoundDriver::new(peripherals.rmt.channel3, peripherals.pins.gpio27).unwrap();
    assert_eq!(driver.pixel_data, None);
    driver.write_blocking(&[0, 30, 0]).unwrap();
    assert_eq!(driver.pixel_data, Some(vec![0, 30, 0]));
    driver.write(vec![1, 2, 3, 4]).unwrap();
    assert_eq!(driver.pixel_data, Some(vec![1, 2, 3, 4]));
}

#[test]
fn test_bound_driver_with_rmt_driver() {
    let peripherals = Peripherals::new();
    let config = TransmitConfig::new().clock_divider(1);
    let tx = TxRmtDriver::new(peripherals.rmt.channel0, peripherals.pins.gpio48, &config).unwrap();
    let mut driver = BoundDriver::new_with_rmt_driver(tx).unwrap();
    assert_eq!(driver.pixel_data, None);
    driver.write_blocking(&[5]).unwrap();
    assert_eq!(driver.pixel_data, Some(vec![5]));
    let _ = RMT::new();
}

#[test]
fn test_driver_error_wraps_its_source() {
    let error = BoundDriverError::from(EspError());
    assert_eq!(error.source(), Some(&EspError()));
    assert_eq!(error.source, EspError());
    assert_eq!(error.to_string(), "EspError");
    assert_eq!(EspError().to_string(), "EspError");
}

#[test]
fn test_protocol_durations() {
    assert_eq!(
        (WS2812_T0H_NS, WS2812_T0L_NS, WS2812_T1H_NS, WS2812_T1L_NS),
        (400, 850, 800, 450)
    );
}

#[test]
fn test_duration_to_ticks() {
    assert_eq!(duration_to_ticks(Hertz(80_000_000), 400), Ok(32));
    assert_eq!(duration_to_ticks(Hertz(80_000_000), 850), Ok(68));
    assert_eq!(duration_to_ticks(Hertz(10_000_000), 850), Ok(8));
    assert_eq!(duration_to_ticks(Hertz(10_000_000), 450), Ok(4));
    assert_eq!(duration_to_ticks(Hertz(1), 999_999_999), Ok(0));
    assert_eq!(duration_to_ticks(Hertz(0), u64::MAX), Ok(0));
    assert_eq!(duration_to_ticks(Hertz(1_000_000_000), 32767), Ok(PULSE_TICKS_MAX));
    assert_eq!(duration_to_ticks(Hertz(1_000_000_000), 32768), Err(EspError()));
    assert_eq!(duration_to_ticks(Hertz(80_000_000), 1_000_000_000), Err(EspError()));
    assert_eq!(duration_to_ticks(Hertz(u32::MAX), u64::MAX), Err(EspError()));
}

#[test]
fn test_pulse_new_with_duration() {
    assert_eq!(
        Pulse::new_with_duration(Hertz(40_000_000), PinState::High, 800),
        Ok(Pulse { ticks: 32, pin_state: PinState::High })
    );
    assert_eq!(
        Pulse::new_with_duration(Hertz(40_000_000), PinState::Low, 1_000_000),
        Err(EspError())
    );
    assert_eq!(Pulse::new(PinState::Low, 7), Pulse { ticks: 7, pin_state: PinState::Low });
}

#[test]
fn test_encoder_symbols() {
    let encoder = Ws2812Esp32RmtItemEncoder::new(Hertz(80_000_000)).unwrap();
    assert_eq!(
        encoder.bit0,
        Symbol::new(Pulse::new(PinState::High, 32), Pulse::new(PinState::Low, 68))
    );
    assert_eq!(
        encoder.bit1,
        Symbol::new(Pulse::new(PinState::High, 64), Pulse::new(PinState::Low, 36))
    );
    let encoder = Ws2812Esp32RmtItemEncoder::new(Hertz(10_000_000)).unwrap();
    assert_eq!(
        encoder.bit0,
        Symbol(Pulse { ticks: 4, pin_state: PinState::High }, Pulse { ticks: 8, pin_state: PinState::Low })
    );
    assert_eq!(
        encoder.bit1,
        Symbol(Pulse { ticks: 8, pin_state: PinState::High }, Pulse { ticks: 4, pin_state: PinState::Low })
    );
    let encoder = Ws2812Esp32RmtItemEncoder::new(Hertz(u32::MAX)).unwrap();
    assert_eq!(encoder.bit0.1.ticks, 3650);
}

#[test]
fn test_encoder_length() {
    let encoder = Ws2812Esp32RmtItemEncoder::new(Hertz(80_000_000)).unwrap();
    assert_eq!(encoder.encode_iter(&[]).len(), 0);
    assert_eq!(encoder.encode_iter(&[0]).len(), 8);
    assert_eq!(encoder.encode_iter(&[1, 2, 3]).len(), 24);
    let frame = [0xA5u8; 150];
    assert_eq!(encoder.encode_iter(&frame).len(), 8 * frame.len());
}

#[test]
fn test_encoder_bit_mapping() {
    let encoder = Ws2812Esp32RmtItemEncoder::new(Hertz(80_000_000)).unwrap();
    let (bit0, bit1) = (encoder.bit0, encoder.bit1);
    assert_ne!(bit0, bit1);
    assert_eq!(
        encoder.encode_iter(&[0b10110000]),
        vec![bit1, bit0, bit1, bit1, bit0, bit0, bit0, bit0]
    );
    assert_eq!(
        encoder.encode_iter(&[0x00, 0xFF, 0x01]),
        vec![
            bit0, bit0, bit0, bit0, bit0, bit0, bit0, bit0, bit1, bit1, bit1, bit1, bit1, bit1, bit1,
            bit1, bit0, bit0, bit0, bit0, bit0, bit0, bit0, bit1,
        ]
    );
}

#[test]
fn test_encoder_symbol_lookup() {
    let encoder = Ws2812Esp32RmtItemEncoder::new(Hertz(80_000_000)).unwrap();
    assert_eq!(encoder.symbol(0b1000_0000, 0), encoder.bit1);
    assert_eq!(encoder.symbol(0b1000_0000, 1), encoder.bit0);
    assert_eq!(encoder.symbol(0b0000_0001, 7), encoder.bit1);
    assert_eq!(encoder.symbol(0b0000_0001, 6), encoder.bit0);
    let src = [0x5Au8, 0xC3];
    let signal = encoder.encode_iter(&src);
    for k in 0..signal.len() {
        assert_eq!(signal[k], encoder.symbol(src[k / 8], (k % 8) as u8));
    }
}

#[test]
fn test_channel_model() {
    let peripherals = Peripherals::take().unwrap();
    let config = TransmitConfig::new();
    let mut tx =
        TxRmtDriver::new(peripherals.rmt.channel5, peripherals.pins.gpio13, &config).unwrap();
    assert_eq!(tx.signal, None);
    assert_eq!(tx.counter_clock(), Ok(Hertz(COUNTER_CLOCK_HZ)));
    assert_eq!(COUNTER_CLOCK_HZ, 80_000_000);
    let one = Symbol::new(Pulse::new(PinState::High, 1), Pulse::new(PinState::Low, 2));
    let two = Symbol::new(Pulse::new(PinState::High, 3), Pulse::new(PinState::Low, 4));
    tx.start_iter_blocking(vec![one, two]).unwrap();
    assert_eq!(tx.signal, Some(vec![one, two]));
    tx.start_iter(vec![two]).unwrap();
    assert_eq!(tx.signal, Some(vec![two]));
}

#[test]
fn test_driver_transmits_the_encoded_frame() {
    let peripherals = Peripherals::take().unwrap();
    let mut driver = BoundDriver::new(peripherals.rmt.channel0, peripherals.pins.gpio0).unwrap();
    let encoder = Ws2812Esp32RmtItemEncoder::new(Hertz(80_000_000)).unwrap();
    assert_eq!(driver.encoder, encoder);
    assert_eq!(driver.tx.signal, None);
    let (bit0, bit1) = (encoder.bit0, encoder.bit1);

    driver.write_blocking(&[0b10110000]).unwrap();
    assert_eq!(
        driver.tx.signal,
        Some(vec![bit1, bit0, bit1, bit1, bit0, bit0, bit0, bit0])
    );
    assert_eq!(driver.encoder, encoder);

    driver.write(vec![0x0F, 0x80]).unwrap();
    assert_eq!(
        driver.tx.signal,
        Some(vec![
            bit0, bit0, bit0, bit0, bit1, bit1, bit1, bit1, bit1, bit0, bit0, bit0, bit0, bit0,
            bit0, bit0,
        ])
    );
    assert_eq!(driver.pixel_data, Some(vec![0x0F, 0x80]));
    assert_eq!(driver.encoder, encoder);

    driver.write_blocking(&[]).unwrap();
    assert_eq!(driver.tx.signal, Some(vec![]));
}

#[test]
fn test_channel_fault_refuses_transmission() {
    let peripherals = Peripherals::take().unwrap();
    let config = TransmitConfig::new();
    let mut tx =
        TxRmtDriver::new(peripherals.rmt.channel0, peripherals.pins.gpio0, &config).unwrap();
    assert!(!tx.fault);
    let one = Symbol::new(Pulse::new(PinState::High, 1), Pulse::new(PinState::Low, 2));
    tx.start_iter_blocking(vec![one]).unwrap();
    tx.fault = true;
    assert_eq!(tx.start_iter_blocking(vec![one, one]), Err(EspError()));
    assert_eq!(tx.start_iter(vec![]), Err(EspError()));
    assert_eq!(tx.signal, Some(vec![one]));
    assert!(tx.fault);
}

#[test]
fn test_driver_write_failure_keeps_the_driver() {
    let peripherals = Peripherals::take().unwrap();
    let mut driver = BoundDriver::new(peripherals.rmt.channel0, peripherals.pins.gpio0).unwrap();
    driver.write_blocking(&[1, 2, 3]).unwrap();
    let signal = driver.tx.signal.clone();
    let encoder = driver.encoder;

    driver.tx.fault = true;
    let error = driver.write_blocking(&[4, 5, 6]).unwrap_err();
    assert_eq!(error.source(), Some(&EspError()));
    assert_eq!(driver.pixel_data, Some(vec![1, 2, 3]));
    assert_eq!(driver.tx.signal, signal);
    assert_eq!(driver.encoder, encoder);
    assert!(driver.write(vec![7]).is_err());
    assert_eq!(driver.pixel_data, Some(vec![1, 2, 3]));

    driver.tx.fault = false;
    driver.write_blocking(&[4, 5, 6]).unwrap();
    assert_eq!(driver.pixel_data, Some(vec![4, 5, 6]));
    assert_eq!(driver.tx.signal, Some(encoder.encode_iter(&[4, 5, 6])));
}
