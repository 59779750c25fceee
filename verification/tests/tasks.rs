use f4::blinky::toggle;
use f4::buffer::CommandBuffer;
use f4::config::Config;
use f4::dispatcher::Dispatcher;
use f4::error::DispatchError;
use f4::led::Port;
use f4::loopback::loopback;
use f4::preemption::{parse, receive, Command, Direction, Mode, State, END_OF_COMMAND};
use f4::resource::Resource;
use f4::serial::Serial;
use f4::task::TaskDescriptor;
use f4::threshold::Threshold;

const LED0: u16 = 1 << 13;
const LED1: u16 = 1 << 14;

fn value<T: Copy>(r: &Resource<T>) -> T {
    let mut t = Threshold::new(0);
    r.claim(&mut t, |v, _| *v)
}

fn held(r: &Resource<CommandBuffer>) -> Vec<u8> {
    let mut t = Threshold::new(0);
    r.claim(&mut t, |b, _| b.as_slice().to_vec())
}

fn feed(
    bytes: &[u8],
    serial: &mut Serial,
    buffer: &mut Resource<CommandBuffer>,
    shared: &mut Resource<State>,
) {
    let mut t = Threshold::new(1);
    for b in bytes {
        assert!(serial.deliver(*b));
        receive(&mut t, serial, buffer, shared);
        assert_eq!(serial.transmit(), Some(*b));
        assert_eq!(t.value(), 1);
    }
}

#[test]
fn loopback_writes_back_the_byte_unchanged() {
    let mut serial = Serial::new();
    let mut t = Threshold::new(1);
    assert!(serial.deliver(0x41));
    loopback(&mut t, &mut serial);
    assert_eq!(serial.rx, None);
    assert_eq!(serial.tx, Some(0x41));
    assert_eq!(serial.transmit(), Some(0x41));
    assert_eq!(t.value(), 1);
}

#[test]
fn loopback_with_nothing_received_does_nothing() {
    let mut serial = Serial::new();
    let mut t = Threshold::new(1);
    loopback(&mut t, &mut serial);
    assert_eq!(serial.rx, None);
    assert_eq!(serial.tx, None);
    assert_eq!(serial.write(7), Ok(()));
    loopback(&mut t, &mut serial);
    assert_eq!(serial.tx, Some(7));
}

#[test]
fn loopback_drops_the_byte_when_the_transmitter_is_busy() {
    let mut serial = Serial::new();
    let mut t = Threshold::new(1);
    assert_eq!(serial.write(0x30), Ok(()));
    assert!(serial.deliver(0x41));
    loopback(&mut t, &mut serial);
    assert_eq!(serial.rx, None);
    assert_eq!(serial.tx, Some(0x30));
}

#[test]
fn loopback_is_not_preempted_at_or_below_its_priority() {
    let tasks = vec![
        TaskDescriptor::new(53, 1, vec![0], 0u8),
        TaskDescriptor::new(54, 1, vec![], 1u8),
    ];
    let mut d = Dispatcher::init(Config::new(2, tasks, 1)).ok().unwrap();
    d.arm();
    let mut serial = Serial::new();
    assert!(serial.deliver(0x41));
    let entry = d.on_interrupt(53).ok().unwrap();
    let mut t = entry.threshold;
    assert!(matches!(d.on_interrupt(54), Err(DispatchError::Masked)));
    assert!(matches!(d.on_interrupt(53), Err(DispatchError::Masked)));
    loopback(&mut t, &mut serial);
    assert!(matches!(d.on_interrupt(54), Err(DispatchError::Masked)));
    assert_eq!(d.on_return().ok().unwrap().value(), 0);
    assert_eq!(serial.transmit(), Some(0x41));
    assert!(d.on_interrupt(54).is_ok());
}

#[test]
fn roulette_moves_one_position_per_tick_and_comes_round() {
    let mut t = Threshold::new(2);
    let mut state: Resource<u8> = Resource::new(0, 2);
    let mut port = Port::new();
    port.write_bsrr(LED0 as u32);
    assert_eq!(port.lines(), LED0);
    f4::roulette::roulette(&mut t, &mut state, &mut port);
    assert_eq!(value(&state), 1);
    assert!(!port.is_high(13));
    assert!(port.is_high(14));
    assert_eq!(port.lines(), LED1);
    assert_eq!(t.value(), 2);
    f4::roulette::roulette(&mut t, &mut state, &mut port);
    assert_eq!(value(&state), 0);
    assert_eq!(port.lines(), LED0);
    assert_eq!(t.value(), 2);
}

#[test]
fn roulette_leaves_other_lines_alone() {
    let mut t = Threshold::new(1);
    let mut state: Resource<u8> = Resource::new(1, 2);
    let mut port = Port::new();
    port.write_bsrr(0x0000_8001 | LED1 as u32);
    f4::roulette::roulette(&mut t, &mut state, &mut port);
    assert_eq!(value(&state), 0);
    assert_eq!(port.lines(), 0x8001 | LED0);
    assert_eq!(t.value(), 1);
}

#[test]
fn blinky_lights_the_second_led_for_the_lower_half_of_the_count() {
    let mut t = Threshold::new(1);
    let mut counter: Resource<u32> = Resource::new(0, 1);
    let mut port = Port::new();
    for expected in 1..=15u32 {
        toggle(&mut t, &mut counter, &mut port);
        assert_eq!(value(&counter), expected);
        assert_eq!(port.lines(), LED1);
    }
    for expected in 16..=31u32 {
        toggle(&mut t, &mut counter, &mut port);
        assert_eq!(value(&counter), expected);
        assert_eq!(port.lines(), LED0);
    }
    toggle(&mut t, &mut counter, &mut port);
    assert_eq!(value(&counter), 0);
    assert_eq!(port.lines(), LED1);
    assert_eq!(t.value(), 1);
}

#[test]
fn blinky_wraps_a_counter_from_anywhere() {
    let mut t = Threshold::new(1);
    let mut counter: Resource<u32> = Resource::new(0xffff_fffe, 1);
    let mut port = Port::new();
    toggle(&mut t, &mut counter, &mut port);
    assert_eq!(value(&counter), 31);
    assert_eq!(port.lines(), LED0);
    let mut counter: Resource<u32> = Resource::new(47, 1);
    toggle(&mut t, &mut counter, &mut port);
    assert_eq!(value(&counter), 16);
    assert_eq!(port.lines(), LED0);
}

#[test]
fn parse_knows_three_commands() {
    assert_eq!(parse(b"bounce"), Some(Command::Bounce));
    assert_eq!(parse(b"continuous"), Some(Command::Continuous));
    assert_eq!(parse(b"reverse"), Some(Command::Reverse));
    assert_eq!(parse(b""), None);
    assert_eq!(parse(b"reset"), None);
    assert_eq!(parse(b"Bounce"), None);
    assert_eq!(parse(b"bounce "), None);
    assert_eq!(parse(b"bounc"), None);
    assert_eq!(parse(b"reversf"), None);
    assert_eq!(parse(b"continuouz"), None);
    assert_eq!(parse(b"bounce\r"), None);
}

#[test]
fn direction_reverses() {
    assert_eq!(Direction::Clockwise.reverse(), Direction::Counterclockwise);
    assert_eq!(Direction::Counterclockwise.reverse(), Direction::Clockwise);
    assert_eq!(
        State::new(),
        State { direction: Direction::Clockwise, mode: Mode::Continuous }
    );
    assert_eq!(END_OF_COMMAND, b'\r');
}

#[test]
fn receive_echoes_and_gathers_bytes() {
    let mut serial = Serial::new();
    let mut buffer = Resource::new(CommandBuffer::new(), 1);
    let mut shared = Resource::new(State::new(), 2);
    feed(b"rev", &mut serial, &mut buffer, &mut shared);
    assert_eq!(held(&buffer), b"rev".to_vec());
    assert_eq!(value(&shared), State::new());
    assert_eq!(buffer.ceiling(), 1);
    assert_eq!(shared.ceiling(), 2);
}

#[test]
fn receive_applies_a_command_at_its_end() {
    let mut serial = Serial::new();
    let mut buffer = Resource::new(CommandBuffer::new(), 1);
    let mut shared = Resource::new(State::new(), 2);
    feed(b"reverse\r", &mut serial, &mut buffer, &mut shared);
    assert_eq!(held(&buffer), Vec::<u8>::new());
    assert_eq!(
        value(&shared),
        State { direction: Direction::Counterclockwise, mode: Mode::Continuous }
    );
    feed(b"bounce\r", &mut serial, &mut buffer, &mut shared);
    assert_eq!(
        value(&shared),
        State { direction: Direction::Counterclockwise, mode: Mode::Bounce }
    );
    feed(b"reverse\r", &mut serial, &mut buffer, &mut shared);
    assert_eq!(value(&shared), State { direction: Direction::Clockwise, mode: Mode::Bounce });
    feed(b"continuous\r", &mut serial, &mut buffer, &mut shared);
    assert_eq!(value(&shared), State::new());
    assert_eq!(held(&buffer), Vec::<u8>::new());
}

#[test]
fn receive_ignores_what_is_no_command() {
    let mut serial = Serial::new();
    let mut buffer = Resource::new(CommandBuffer::new(), 1);
    let mut shared = Resource::new(State::new(), 2);
    feed(b"reset\r", &mut serial, &mut buffer, &mut shared);
    assert_eq!(held(&buffer), Vec::<u8>::new());
    assert_eq!(value(&shared), State::new());
    feed(b"\r", &mut serial, &mut buffer, &mut shared);
    assert_eq!(value(&shared), State::new());
    feed(b"xbounce\r", &mut serial, &mut buffer, &mut shared);
    assert_eq!(value(&shared), State::new());
}

#[test]
fn receive_clears_a_full_buffer_and_continues() {
    let mut serial = Serial::new();
    let mut buffer = Resource::new(CommandBuffer::new(), 1);
    let mut shared = Resource::new(State::new(), 2);
    feed(b"0123456789abcdef", &mut serial, &mut buffer, &mut shared);
    assert_eq!(held(&buffer), b"0123456789abcdef".to_vec());
    // the 17th byte finds no room: the buffer is cleared and the byte dropped
    feed(b"g", &mut serial, &mut buffer, &mut shared);
    assert_eq!(held(&buffer), Vec::<u8>::new());
    assert_eq!(value(&shared), State::new());
    // and the task goes on as before
    feed(b"bounce", &mut serial, &mut buffer, &mut shared);
    assert_eq!(held(&buffer), b"bounce".to_vec());
    feed(b"\r", &mut serial, &mut buffer, &mut shared);
    assert_eq!(value(&shared).mode, Mode::Bounce);
    assert_eq!(held(&buffer), Vec::<u8>::new());
}

#[test]
fn receive_ends_a_command_in_a_full_buffer() {
    let mut serial = Serial::new();
    let mut buffer = Resource::new(CommandBuffer::new(), 1);
    let mut shared = Resource::new(State::new(), 2);
    feed(b"0123456789abcdef\r", &mut serial, &mut buffer, &mut shared);
    assert_eq!(held(&buffer), Vec::<u8>::new());
    assert_eq!(value(&shared), State::new());
    feed(b"0123456789reverse\r", &mut serial, &mut buffer, &mut shared);
    assert_eq!(held(&buffer), Vec::<u8>::new());
    assert_eq!(value(&shared), State::new());
}

#[test]
fn receive_with_nothing_received_changes_nothing() {
    let mut serial = Serial::new();
    let mut buffer = Resource::new(CommandBuffer::new(), 1);
    let mut shared = Resource::new(State::new(), 2);
    feed(b"ab", &mut serial, &mut buffer, &mut shared);
    let mut t = Threshold::new(1);
    receive(&mut t, &mut serial, &mut buffer, &mut shared);
    assert_eq!(held(&buffer), b"ab".to_vec());
    assert_eq!(serial.tx, None);
    assert_eq!(serial.rx, None);
    assert_eq!(value(&shared), State::new());
}

#[test]
fn receive_drops_the_echo_when_the_transmitter_is_busy() {
    let mut serial = Serial::new();
    let mut buffer = Resource::new(CommandBuffer::new(), 1);
    let mut shared = Resource::new(State::new(), 2);
    let mut t = Threshold::new(1);
    assert_eq!(serial.write(b'z'), Ok(()));
    assert!(serial.deliver(b'a'));
    receive(&mut t, &mut serial, &mut buffer, &mut shared);
    assert_eq!(serial.tx, Some(b'z'));
    assert_eq!(held(&buffer), b"a".to_vec());
}

#[test]
fn preemption_roulette_follows_the_direction() {
    let mut t = Threshold::new(2);
    let mut state: Resource<u8> = Resource::new(0, 2);
    let mut shared = Resource::new(State::new(), 2);
    let mut port = Port::new();
    port.write_bsrr(LED0 as u32);
    f4::preemption::roulette(&mut t, &mut state, &mut shared, &mut port);
    assert_eq!(value(&state), 1);
    assert_eq!(port.lines(), LED1);
    assert_eq!(value(&shared), State::new());
    f4::preemption::roulette(&mut t, &mut state, &mut shared, &mut port);
    assert_eq!(value(&state), 0);
    assert_eq!(port.lines(), LED0);
    let mut shared = Resource::new(
        State { direction: Direction::Counterclockwise, mode: Mode::Continuous },
        2,
    );
    f4::preemption::roulette(&mut t, &mut state, &mut shared, &mut port);
    assert_eq!(value(&state), 1);
    assert_eq!(port.lines(), LED1);
    f4::preemption::roulette(&mut t, &mut state, &mut shared, &mut port);
    assert_eq!(value(&state), 0);
    assert_eq!(port.lines(), LED0);
    assert_eq!(value(&shared).direction, Direction::Counterclockwise);
    assert_eq!(t.value(), 2);
}

#[test]
fn preemption_roulette_bounces_at_the_start() {
    let mut t = Threshold::new(2);
    let mut state: Resource<u8> = Resource::new(0, 2);
    let mut shared =
        Resource::new(State { direction: Direction::Clockwise, mode: Mode::Bounce }, 2);
    let mut port = Port::new();
    f4::preemption::roulette(&mut t, &mut state, &mut shared, &mut port);
    assert_eq!(value(&shared).direction, Direction::Counterclockwise);
    assert_eq!(value(&state), 1);
    assert_eq!(port.lines(), LED1);
    f4::preemption::roulette(&mut t, &mut state, &mut shared, &mut port);
    assert_eq!(value(&shared).direction, Direction::Counterclockwise);
    assert_eq!(value(&state), 0);
    f4::preemption::roulette(&mut t, &mut state, &mut shared, &mut port);
    assert_eq!(value(&shared).direction, Direction::Clockwise);
    assert_eq!(value(&state), 1);
    assert_eq!(value(&shared).mode, Mode::Bounce);
}
