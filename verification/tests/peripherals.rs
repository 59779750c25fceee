use f4::buffer::{CommandBuffer, CAPACITY};
use f4::frequency::{
    ahb, ahb_prescaler, apb1, apb2, apb_prescaler, ClockSetup, Pll, HSE_FREQUENCY, PLLCFGR_RESERVED,
    VOLTAGE_SCALE_1,
};
use f4::led::{init, leds, Led, Port, LED_COUNT};
use f4::serial::{NotReady, Serial};
use f4::time::{Hertz, IHertz, Microseconds, Milliseconds, Seconds};

#[test]
fn user_leds_sit_on_lines_13_and_14() {
    assert_eq!(LED_COUNT, 2);
    let all = leds();
    assert_eq!(all[0].line(), 13);
    assert_eq!(all[1].line(), 14);
    assert_eq!(Led::user(0).map(|l| l.line()), Some(13));
    assert_eq!(Led::user(1).map(|l| l.line()), Some(14));
    assert!(Led::user(2).is_none());
    assert!(Led::user(255).is_none());
}

#[test]
fn led_words_address_the_set_and_reset_halves() {
    let all = leds();
    assert_eq!(all[0].set_word(), 0x0000_2000);
    assert_eq!(all[0].reset_word(), 0x2000_0000);
    assert_eq!(all[1].set_word(), 0x0000_4000);
    assert_eq!(all[1].reset_word(), 0x4000_0000);
}

#[test]
fn led_on_and_off_move_one_line_only() {
    let all = leds();
    let mut port = Port::new();
    assert_eq!(port.lines(), 0);
    all[0].on(&mut port);
    assert_eq!(port.lines(), 0x2000);
    assert!(port.is_high(13));
    assert!(!port.is_high(14));
    all[1].on(&mut port);
    assert_eq!(port.lines(), 0x6000);
    all[0].off(&mut port);
    assert_eq!(port.lines(), 0x4000);
    assert!(!port.is_high(13));
    assert!(port.is_high(14));
    all[0].off(&mut port);
    assert_eq!(port.lines(), 0x4000);
    all[1].off(&mut port);
    assert_eq!(port.lines(), 0);
}

#[test]
fn bsrr_write_sets_clears_and_lets_set_win() {
    let mut port = Port::new();
    port.write_bsrr(0x0000_8001);
    assert_eq!(port.lines(), 0x8001);
    port.write_bsrr(0x8000_0002);
    assert_eq!(port.lines(), 0x0003);
    port.write_bsrr(0x0001_0001);
    assert_eq!(port.lines(), 0x0003);
    port.write_bsrr(0xffff_0000);
    assert_eq!(port.lines(), 0);
    port.write_bsrr(0);
    assert_eq!(port.lines(), 0);
    assert!(!port.is_high(0));
    port.write_bsrr(0x0000_ffff);
    assert_eq!(port.lines(), 0xffff);
    assert!(port.is_high(15));
}

#[test]
fn led_init_makes_both_lines_outputs() {
    assert_eq!(init(0), 0x1400_0000);
    assert_eq!(init(0xffff_ffff), 0xd7ff_ffff);
    assert_eq!(init(0x2800_0003), 0x1400_0003);
    for moder in [0u32, 0xffff_ffff, 0x2800_0003, 0x1234_5678] {
        let once = init(moder);
        assert_eq!(init(once), once);
        assert_eq!((once >> 26) & 3, 1);
        assert_eq!((once >> 28) & 3, 1);
        assert_eq!(once & !0x3c00_0000, moder & !0x3c00_0000);
    }
}

#[test]
fn serial_read_takes_the_byte_or_reports_empty() {
    let mut serial = Serial::new();
    assert_eq!(serial.rx, None);
    assert_eq!(serial.tx, None);
    assert_eq!(serial.read(), Err(NotReady::Empty));
    assert!(serial.deliver(0x41));
    assert_eq!(serial.rx, Some(0x41));
    assert!(!serial.deliver(0x42));
    assert_eq!(serial.rx, Some(0x41));
    assert_eq!(serial.read(), Ok(0x41));
    assert_eq!(serial.rx, None);
    assert_eq!(serial.read(), Err(NotReady::Empty));
}

#[test]
fn serial_write_hands_over_or_reports_busy() {
    let mut serial = Serial::new();
    assert_eq!(serial.transmit(), None);
    assert_eq!(serial.write(0x10), Ok(()));
    assert_eq!(serial.tx, Some(0x10));
    assert_eq!(serial.write(0x11), Err(NotReady::Busy));
    assert_eq!(serial.tx, Some(0x10));
    assert_eq!(serial.transmit(), Some(0x10));
    assert_eq!(serial.tx, None);
    assert_eq!(serial.write(0x11), Ok(()));
    assert_eq!(serial.transmit(), Some(0x11));
}

#[test]
fn command_buffer_keeps_bytes_in_order() {
    let mut buffer = CommandBuffer::new();
    assert_eq!(buffer.as_slice(), &[] as &[u8]);
    assert_eq!(buffer.push(7), Ok(()));
    assert_eq!(buffer.push(9), Ok(()));
    assert_eq!(buffer.push(7), Ok(()));
    assert_eq!(buffer.as_slice(), &[7, 9, 7]);
    buffer.clear();
    assert_eq!(buffer.as_slice(), &[] as &[u8]);
    assert_eq!(buffer.push(1), Ok(()));
    assert_eq!(buffer.as_slice(), &[1]);
}

#[test]
fn command_buffer_hands_back_the_byte_that_does_not_fit() {
    assert_eq!(CAPACITY, 16);
    let mut buffer = CommandBuffer::new();
    for i in 0..16u8 {
        assert_eq!(buffer.push(i), Ok(()));
    }
    assert_eq!(buffer.as_slice().len(), 16);
    assert_eq!(buffer.push(99), Err(99));
    assert_eq!(buffer.push(100), Err(100));
    let expected: Vec<u8> = (0..16u8).collect();
    assert_eq!(buffer.as_slice(), &expected[..]);
    buffer.clear();
    assert_eq!(buffer.push(99), Ok(()));
    assert_eq!(buffer.as_slice(), &[99]);
}

#[test]
fn bus_frequencies() {
    assert_eq!(ahb::FREQUENCY, 168_000_000);
    assert_eq!(apb1::FREQUENCY, 42_000_000);
    assert_eq!(apb2::FREQUENCY, 84_000_000);
    assert_eq!(ahb::PER_MICROSECOND, 168);
    assert_eq!(apb1::PER_MICROSECOND, 42);
    assert_eq!(apb2::PER_MICROSECOND, 84);
    assert_eq!(ahb::PER_MILLISECOND, 168_000);
    assert_eq!(apb1::PER_MILLISECOND, 42_000);
    assert_eq!(apb2::PER_MILLISECOND, 84_000);
}

#[test]
fn ticks_from_a_frequency() {
    assert_eq!(ahb::Ticks::from_ihertz(Hertz(16).invert()), ahb::Ticks(10_500_000));
    assert_eq!(ahb::Ticks::from_ihertz(IHertz(1)), ahb::Ticks(168_000_000));
    assert_eq!(apb1::Ticks::from_ihertz(IHertz(115_200)), apb1::Ticks(364));
    assert_eq!(apb2::Ticks::from_ihertz(IHertz(115_200)), apb2::Ticks(729));
    assert_eq!(apb2::Ticks::from_ihertz(IHertz(u32::MAX)), apb2::Ticks(0));
}

#[test]
fn ticks_from_spans_of_time() {
    assert_eq!(ahb::Ticks::from_microseconds(Microseconds(3)), ahb::Ticks(504));
    assert_eq!(ahb::Ticks::from_milliseconds(Milliseconds(2)), ahb::Ticks(336_000));
    assert_eq!(ahb::Ticks::from_seconds(Seconds(25)), ahb::Ticks(4_200_000_000));
    assert_eq!(apb1::Ticks::from_microseconds(Microseconds(3)), apb1::Ticks(126));
    assert_eq!(apb1::Ticks::from_milliseconds(Milliseconds(2)), apb1::Ticks(84_000));
    assert_eq!(apb1::Ticks::from_seconds(Seconds(102)), apb1::Ticks(4_284_000_000));
    assert_eq!(apb2::Ticks::from_microseconds(Microseconds(3)), apb2::Ticks(252));
    assert_eq!(apb2::Ticks::from_milliseconds(Milliseconds(2)), apb2::Ticks(168_000));
    assert_eq!(apb2::Ticks::from_seconds(Seconds(0)), apb2::Ticks(0));
}

#[test]
fn spans_of_time_from_ticks() {
    assert_eq!(Microseconds::from(ahb::Ticks(504)), Microseconds(3));
    assert_eq!(Microseconds::from(ahb::Ticks(503)), Microseconds(2));
    assert_eq!(Milliseconds::from(ahb::Ticks(336_000)), Milliseconds(2));
    assert_eq!(Seconds::from(ahb::Ticks(335_999_999)), Seconds(1));
    assert_eq!(Microseconds::from(apb1::Ticks(84)), Microseconds(2));
    assert_eq!(Milliseconds::from(apb1::Ticks(41_999)), Milliseconds(0));
    assert_eq!(Seconds::from(apb1::Ticks(u32::MAX)), Seconds(102));
    assert_eq!(Microseconds::from(apb2::Ticks(84)), Microseconds(1));
    assert_eq!(Milliseconds::from(apb2::Ticks(84_000)), Milliseconds(1));
    assert_eq!(Seconds::from(apb2::Ticks(168_000_000)), Seconds(2));
    assert_eq!(u32::from(ahb::Ticks(5)), 5);
    assert_eq!(u32::from(apb1::Ticks(6)), 6);
    let count: u32 = apb2::Ticks(7).into();
    assert_eq!(count, 7);
}

#[test]
fn ticks_map_applies_the_function() {
    assert_eq!(ahb::Ticks(10).map(|t| t * 2 + 1), ahb::Ticks(21));
    assert_eq!(apb1::Ticks(10).map(|t| t / 3), apb1::Ticks(3));
    assert_eq!(apb2::Ticks(10).map(|_| 0), apb2::Ticks(0));
    assert!(ahb::Ticks(1) < ahb::Ticks(2));
}

#[test]
fn frequency_inverts_both_ways() {
    assert_eq!(Hertz(115_200).invert(), IHertz(115_200));
    assert_eq!(IHertz(16).invert(), Hertz(16));
}

#[test]
fn clock_setup_gives_the_bus_frequencies() {
    let setup = f4::frequency::init();
    assert_eq!(
        setup,
        ClockSetup {
            pll: Pll { m: 4, n: 168, p: 2, q: 7 },
            ahb_divider: 1,
            apb1_divider: 4,
            apb2_divider: 2,
            flash_latency: 5,
        }
    );
    assert_eq!(HSE_FREQUENCY, 8_000_000);
    assert!(setup.pll.is_valid());
    let sysclk = setup.pll.sysclk(HSE_FREQUENCY);
    assert_eq!(sysclk, 168_000_000);
    assert_eq!(sysclk / setup.ahb_divider as u64, ahb::FREQUENCY as u64);
    assert_eq!(sysclk / setup.apb1_divider as u64, apb1::FREQUENCY as u64);
    assert_eq!(sysclk / setup.apb2_divider as u64, apb2::FREQUENCY as u64);
}

#[test]
fn pll_register_word() {
    let setup = f4::frequency::init();
    assert_eq!(PLLCFGR_RESERVED, 0x2000_0000);
    assert_eq!(setup.pll.pllcfgr(), 0x2740_2a04);
    let other = Pll { m: 63, n: 511, p: 8, q: 15 };
    assert!(other.is_valid());
    assert_eq!(other.pllcfgr(), 0x2f43_7fff);
    assert_eq!(other.sysclk(u32::MAX), (u32::MAX as u64 / 63) * 511 / 8);
    let least = Pll { m: 1, n: 0, p: 2, q: 1 };
    assert!(least.is_valid());
    assert_eq!(least.pllcfgr(), 0x2140_0001);
    assert_eq!(least.sysclk(8_000_000), 0);
}

#[test]
fn pll_factors_out_of_range_are_not_valid() {
    assert!(!Pll { m: 0, n: 168, p: 2, q: 7 }.is_valid());
    assert!(!Pll { m: 64, n: 168, p: 2, q: 7 }.is_valid());
    assert!(!Pll { m: 4, n: 512, p: 2, q: 7 }.is_valid());
    assert!(!Pll { m: 4, n: 168, p: 3, q: 7 }.is_valid());
    assert!(!Pll { m: 4, n: 168, p: 0, q: 7 }.is_valid());
    assert!(!Pll { m: 4, n: 168, p: 10, q: 7 }.is_valid());
    assert!(!Pll { m: 4, n: 168, p: 2, q: 0 }.is_valid());
    assert!(!Pll { m: 4, n: 168, p: 2, q: 16 }.is_valid());
    assert!(Pll { m: 4, n: 168, p: 6, q: 7 }.is_valid());
}

#[test]
fn prescaler_fields() {
    assert_eq!(VOLTAGE_SCALE_1, 0b11);
    let offered = [(1u16, 0u8), (2, 8), (4, 9), (8, 10), (16, 11), (64, 12), (128, 13), (256, 14), (512, 15)];
    for (divider, field) in offered {
        assert_eq!(ahb_prescaler(divider), Some(field));
    }
    for divider in [0u16, 3, 32, 100, 1024, u16::MAX] {
        assert_eq!(ahb_prescaler(divider), None);
    }
    for (divider, field) in [(1u8, 0u8), (2, 4), (4, 5), (8, 6), (16, 7)] {
        assert_eq!(apb_prescaler(divider), Some(field));
    }
    for divider in [0u8, 3, 5, 32, 255] {
        assert_eq!(apb_prescaler(divider), None);
    }
    let setup = f4::frequency::init();
    assert_eq!(ahb_prescaler(setup.ahb_divider), Some(0));
    assert_eq!(apb_prescaler(setup.apb1_divider), Some(5));
    assert_eq!(apb_prescaler(setup.apb2_divider), Some(4));
}
