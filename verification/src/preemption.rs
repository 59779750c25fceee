//! Sharing memory using `Resource`
//!
//! The serial task echoes what it receives and gathers it into commands; the
//! tick task spins the LED roulette. Both use the roulette's settings, which
//! the commands change:
//!
//! - `bounce` - the roulette turns around each time it passes the start
//! - `continuous` - the roulette keeps its direction
//! - `reverse` - reverses the spin direction of the LED roulette

use vstd::prelude::*;
use crate::buffer::{CommandBuffer, CAPACITY};
use crate::led::{leds, Port, LED_COUNT};
use crate::resource::Resource;
use crate::roulette::spun;
use crate::serial::Serial;
use crate::threshold::Threshold;

verus! {

/// The byte that ends a command: carriage return.
pub const END_OF_COMMAND: u8 = 13;

/// The way the roulette spins.
#[derive(Clone, Copy, Debug, PartialEq, Eq, Structural)]
pub enum Direction {
    Clockwise,
    Counterclockwise,
}

impl Direction {
    /// The other direction.
    pub open spec fn reversed(self) -> Direction {
        match self {
            Direction::Clockwise => Direction::Counterclockwise,
            Direction::Counterclockwise => Direction::Clockwise,
        }
    }

    /// The other direction.
    pub fn reverse(self) -> (other: Direction)
        ensures
            other == self.reversed(),
    {
        match self {
            Direction::Clockwise => Direction::Counterclockwise,
            Direction::Counterclockwise => Direction::Clockwise,
        }
    }
}

/// What the roulette does when it passes the start.
#[derive(Clone, Copy, Debug, PartialEq, Eq, Structural)]
pub enum Mode {
    Bounce,
    Continuous,
}

/// The roulette's settings, shared by both tasks.
#[derive(Clone, Copy, Debug, PartialEq, Eq, Structural)]
pub struct State {
    pub direction: Direction,
    pub mode: Mode,
}

impl State {
    /// Clockwise and continuous.
    pub fn new() -> (state: State)
        ensures
            state == (State { direction: Direction::Clockwise, mode: Mode::Continuous }),
    {
        State { direction: Direction::Clockwise, mode: Mode::Continuous }
    }
}

/// A command the serial task understands.
#[derive(Clone, Copy, Debug, PartialEq, Eq, Structural)]
pub enum Command {
    Bounce,
    Continuous,
    Reverse,
}

/// The bytes of `bounce`.
pub open spec fn bounce_word() -> Seq<u8> {
    seq![0x62u8, 0x6fu8, 0x75u8, 0x6eu8, 0x63u8, 0x65u8]
}

/// The bytes of `continuous`.
pub open spec fn continuous_word() -> Seq<u8> {
    seq![0x63u8, 0x6fu8, 0x6eu8, 0x74u8, 0x69u8, 0x6eu8, 0x75u8, 0x6fu8, 0x75u8, 0x73u8]
}

/// The bytes of `reverse`.
pub open spec fn reverse_word() -> Seq<u8> {
    seq![0x72u8, 0x65u8, 0x76u8, 0x65u8, 0x72u8, 0x73u8, 0x65u8]
}

/// The command that `bytes` spell, if they spell one.
pub open spec fn command(bytes: Seq<u8>) -> Option<Command> {
    if bytes == bounce_word() {
        Some(Command::Bounce)
    } else if bytes == continuous_word() {
        Some(Command::Continuous)
    } else if bytes == reverse_word() {
        Some(Command::Reverse)
    } else {
        None
    }
}

/// The settings after a command; without a command they stay.
pub open spec fn applied(state: State, given: Option<Command>) -> State {
    match given {
        Some(Command::Bounce) => State { mode: Mode::Bounce, ..state },
        Some(Command::Continuous) => State { mode: Mode::Continuous, ..state },
        Some(Command::Reverse) => State { direction: state.direction.reversed(), ..state },
        None => state,
    }
}

/// The buffer after `byte` came in: the end of a command empties it, any
/// other byte is appended, and a byte that finds the buffer full empties it
/// and is dropped.
pub open spec fn accumulated(held: Seq<u8>, byte: u8) -> Seq<u8> {
    if byte != END_OF_COMMAND && held.len() < CAPACITY {
        held.push(byte)
    } else {
        Seq::empty()
    }
}

/// The settings a tick leaves when the roulette stands at `curr`: in bounce
/// mode the direction turns around at the start.
pub open spec fn bounced(shared: State, curr: u8) -> State {
    if curr == 0 && shared.mode == Mode::Bounce {
        State { direction: shared.direction.reversed(), ..shared }
    } else {
        shared
    }
}

/// The position next to `curr` in `direction`, around the ring of LEDs.
pub open spec fn turned(curr: u8, direction: Direction) -> u8 {
    match direction {
        Direction::Clockwise => ((curr + 1) % (LED_COUNT as int)) as u8,
        Direction::Counterclockwise => if curr == 0 {
            (LED_COUNT - 1) as u8
        } else {
            (curr - 1) as u8
        },
    }
}

/// Whether `bytes` are exactly the bytes of `word`.
fn spells(bytes: &[u8], word: &[u8]) -> (same: bool)
    ensures
        same == (bytes@ == word@),
{
    if bytes.len() != word.len() {
        return false;
    }
    let mut i: usize = 0;
    while i < bytes.len()
        invariant
            bytes@.len() == word@.len(),
            i <= bytes@.len(),
            forall|j: int| 0 <= j < i ==> bytes@[j] == word@[j],
        decreases bytes.len() - i,
    {
        if bytes[i] != word[i] {
            return false;
        }
        i += 1;
    }
    assert(bytes@ =~= word@);
    true
}

/// Reads a command. Only the exact lower-case words are commands.
pub fn parse(bytes: &[u8]) -> (given: Option<Command>)
    ensures
        given == command(bytes@),
{
    let bounce: [u8; 6] = [0x62, 0x6f, 0x75, 0x6e, 0x63, 0x65];
    let continuous: [u8; 10] = [0x63, 0x6f, 0x6e, 0x74, 0x69, 0x6e, 0x75, 0x6f, 0x75, 0x73];
    let reverse: [u8; 7] = [0x72, 0x65, 0x76, 0x65, 0x72, 0x73, 0x65];
    if spells(bytes, bounce.as_slice()) {
        Some(Command::Bounce)
    } else if spells(bytes, continuous.as_slice()) {
        Some(Command::Continuous)
    } else if spells(bytes, reverse.as_slice()) {
        Some(Command::Reverse)
    } else {
        None
    }
}

/// The serial task: echoes the received byte and takes it into the command
/// buffer. The end of a command applies the command that the buffer spells,
/// if it spells one, to the shared settings, under a claim. With nothing
/// received the task does nothing.
pub fn receive(
    t: &mut Threshold,
    serial: &mut Serial,
    buffer: &mut Resource<CommandBuffer>,
    shared: &mut Resource<State>,
)
    requires
        old(buffer).spec_ceiling() >= old(t)@,
        old(shared).spec_ceiling() >= old(t)@,
    ensures
        final(t)@ == old(t)@,
        final(buffer).spec_ceiling() == old(buffer).spec_ceiling(),
        final(shared).spec_ceiling() == old(shared).spec_ceiling(),
        final(serial).rx is None,
        match old(serial).rx {
            Some(byte) => {
                &&& final(serial).tx == (if old(serial).tx is None {
                    Some(byte)
                } else {
                    old(serial).tx
                })
                &&& final(buffer)@@ == accumulated(old(buffer)@@, byte)
                &&& final(shared)@ == (if byte == END_OF_COMMAND {
                    applied(old(shared)@, command(old(buffer)@@))
                } else {
                    old(shared)@
                })
            },
            None => {
                &&& final(serial).tx == old(serial).tx
                &&& final(buffer)@@ == old(buffer)@@
                &&& final(shared)@ == old(shared)@
            },
        },
{
    let byte = match serial.read() {
        Ok(byte) => byte,
        Err(_) => {
            return ;
        },
    };
    let _ = serial.write(byte);
    let intake = |held: &mut CommandBuffer, _t: &mut Threshold| -> (given: Option<Command>)
        ensures
            final(held)@ == accumulated(old(held)@, byte),
            given == (if byte == END_OF_COMMAND {
                command(old(held)@)
            } else {
                None
            }),
        {
            if byte == END_OF_COMMAND {
                let given = parse(held.as_slice());
                held.clear();
                given
            } else {
                if held.push(byte).is_err() {
                    held.clear();
                }
                None
            }
        };
    let given = buffer.claim_mut(t, intake);
    match given {
        Some(c) => {
            let apply = |s: &mut State, _t: &mut Threshold|
                ensures
                    *final(s) == applied(*old(s), Some(c)),
                {
                    match c {
                        Command::Bounce => {
                            s.mode = Mode::Bounce;
                        },
                        Command::Continuous => {
                            s.mode = Mode::Continuous;
                        },
                        Command::Reverse => {
                            s.direction = s.direction.reverse();
                        },
                    }
                };
            shared.claim_mut(t, apply);
        },
        None => {},
    }
}

/// The tick task: one step of the roulette in the direction the shared
/// settings give. In bounce mode the direction turns around first whenever
/// the roulette stands at the start.
pub fn roulette(
    t: &mut Threshold,
    state: &mut Resource<u8>,
    shared: &mut Resource<State>,
    port: &mut Port,
)
    requires
        old(state).spec_ceiling() >= old(t)@,
        old(shared).spec_ceiling() >= old(t)@,
        old(state)@ < LED_COUNT,
    ensures
        final(t)@ == old(t)@,
        final(state).spec_ceiling() == old(state).spec_ceiling(),
        final(shared).spec_ceiling() == old(shared).spec_ceiling(),
        final(shared)@ == bounced(old(shared)@, old(state)@),
        final(state)@ == turned(old(state)@, final(shared)@.direction),
        final(port)@ == spun(old(port)@, old(state)@, final(state)@),
{
    let position = |s: &u8, _t: &mut Threshold| -> (curr: u8)
        ensures
            curr == *s,
        { *s };
    let curr = state.claim(t, position);
    let steer = |s: &mut State, _t: &mut Threshold| -> (direction: Direction)
        ensures
            *final(s) == bounced(*old(s), curr),
            direction == final(s).direction,
        {
            if curr == 0 && s.mode == Mode::Bounce {
                s.direction = s.direction.reverse();
            }
            s.direction
        };
    let direction = shared.claim_mut(t, steer);
    let n = LED_COUNT;
    let next = match direction {
        Direction::Clockwise => (curr + 1) % n,
        Direction::Counterclockwise => if curr == 0 {
            n - 1
        } else {
            curr - 1
        },
    };
    let all = leds();
    all[curr as usize].off(port);
    all[next as usize].on(port);
    let park = |s: &mut u8, _t: &mut Threshold|
        ensures
            *final(s) == next,
        {
            *s = next;
        };
    state.claim_mut(t, park);
}

} // verus!
