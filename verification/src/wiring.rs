//! The task and resource tables of the roulette firmware, and the
//! dispatcher that runs its two tasks over them.
//!
//! The serial task runs at priority 1 and owns the command buffer; the tick
//! task runs at priority 2 and owns the roulette's position; both use the
//! shared settings, whose ceiling is therefore 2.

use vstd::prelude::*;
use vstd::slice::slice_to_vec;
use crate::buffer::CommandBuffer;
use crate::config::Config;
use crate::dispatcher::Dispatcher;
use crate::error::{ConfigError, DispatchError};
use crate::led::{Port, LED_COUNT};
use crate::model::{is_ceiling, Model};
use crate::preemption::{accumulated, applied, bounced, command, receive, roulette, turned, State, END_OF_COMMAND};
use crate::resource::Resource;
use crate::roulette::spun;
use crate::serial::Serial;
use crate::task::TaskDescriptor;
use crate::threshold::Threshold;

verus! {

/// Priority levels above idle that the firmware configures.
pub const LEVELS: u8 = 7;

/// Interrupt source of the system timer.
pub const SYS_TICK: u16 = 15;

/// Interrupt source of the first serial port.
pub const USART1: u16 = 53;

/// Resource identifier of the command buffer.
pub const BUFFER: usize = 0;

/// Resource identifier of the shared settings.
pub const SHARED: usize = 1;

/// Resource identifier of the roulette's position.
pub const STATE: usize = 2;

/// Resource identifier of the serial port.
pub const SERIAL: usize = 3;

/// Number of resources.
pub const RESOURCES: usize = 4;

/// The handlers of the firmware's tasks.
#[derive(Clone, Copy, Debug, PartialEq, Eq, Structural)]
pub enum Handler {
    /// The serial task.
    Receive,
    /// The tick task.
    Roulette,
}

/// The task table is the firmware's: the serial task first, then the tick
/// task.
pub open spec fn tasks_wired(tasks: Seq<TaskDescriptor<Handler>>) -> bool {
    &&& tasks.len() == 2
    &&& tasks[0].source == USART1
    &&& tasks[0].priority == 1
    &&& tasks[0].resources@ == seq![BUFFER, SHARED, SERIAL]
    &&& tasks[0].handler == Handler::Receive
    &&& tasks[1].source == SYS_TICK
    &&& tasks[1].priority == 2
    &&& tasks[1].resources@ == seq![SHARED, STATE]
    &&& tasks[1].handler == Handler::Roulette
}

/// The ceilings that the firmware's access sets give.
pub open spec fn ceilings_wired() -> Seq<u8> {
    seq![1u8, 2u8, 2u8, 1u8]
}

/// Under the firmware's task table each resource has the ceiling that
/// `ceilings_wired` lists, and no other.
pub proof fn lemma_ceilings_wired(tasks: Seq<TaskDescriptor<Handler>>, resource: usize, c: u8)
    requires
        tasks_wired(tasks),
        resource < RESOURCES,
    ensures
        is_ceiling(tasks, resource, c) <==> c == ceilings_wired()[resource as int],
{
}

/// The firmware's configuration. It passes every check.
pub fn config() -> (config: Config<Handler>)
    ensures
        config.levels == LEVELS,
        tasks_wired(config.tasks@),
        config.ceilings@ == ceilings_wired(),
        config.verdict() is None,
{
    let mut serial_set: Vec<usize> = Vec::new();
    serial_set.push(BUFFER);
    serial_set.push(SHARED);
    serial_set.push(SERIAL);
    let mut tick_set: Vec<usize> = Vec::new();
    tick_set.push(SHARED);
    tick_set.push(STATE);
    proof {
        assert(serial_set@ =~= seq![BUFFER, SHARED, SERIAL]);
        assert(tick_set@ =~= seq![SHARED, STATE]);
    }
    let mut tasks: Vec<TaskDescriptor<Handler>> = Vec::new();
    tasks.push(TaskDescriptor::new(USART1, 1, serial_set, Handler::Receive));
    tasks.push(TaskDescriptor::new(SYS_TICK, 2, tick_set, Handler::Roulette));
    let config = Config::new(LEVELS, tasks, RESOURCES);
    proof {
        assert forall|r: int| 0 <= r < 4 implies config.ceilings@[r] == ceilings_wired()[r] by {
            lemma_ceilings_wired(config.tasks@, r as usize, config.ceilings@[r]);
        }
    }
    config
}

/// The firmware: the dispatcher and the resources its tasks share.
pub struct System {
    dispatcher: Dispatcher<Handler>,
    buffer: Resource<CommandBuffer>,
    shared: Resource<State>,
    state: Resource<u8>,
}

impl System {
    /// The dispatcher's state.
    pub closed spec fn dispatcher(&self) -> Model<Handler> {
        self.dispatcher@
    }

    /// The bytes in the command buffer.
    pub closed spec fn buffer(&self) -> Seq<u8> {
        self.buffer@@
    }

    /// The shared settings.
    pub closed spec fn shared(&self) -> State {
        self.shared@
    }

    /// The roulette's position.
    pub closed spec fn state(&self) -> u8 {
        self.state@
    }

    /// The ceilings that the three resources were built with.
    pub closed spec fn ceilings(&self) -> (u8, u8, u8) {
        (self.buffer.spec_ceiling(), self.shared.spec_ceiling(), self.state.spec_ceiling())
    }

    /// The invariant: the tables are the firmware's, each resource stands
    /// behind the ceiling the tables give, and the roulette stands on an LED.
    pub open spec fn wf(&self) -> bool {
        &&& self.dispatcher().wf()
        &&& self.dispatcher().levels == LEVELS
        &&& tasks_wired(self.dispatcher().tasks)
        &&& self.dispatcher().ceilings == ceilings_wired()
        &&& self.dispatcher().frames.len() == 0
        &&& self.ceilings() == (1u8, 2u8, 2u8)
        &&& self.state() < LED_COUNT
    }

    /// The initialisation phase: builds the dispatcher from the firmware's
    /// configuration and parks every resource at its initial value behind
    /// its ceiling. Nothing is armed yet. Every run leaves this same state.
    pub fn init() -> (r: Result<System, ConfigError>)
        ensures
            r matches Ok(system) && {
                &&& system.wf()
                &&& system.dispatcher() == Model::initial(
                    LEVELS,
                    system.dispatcher().tasks,
                    ceilings_wired(),
                )
                &&& system.buffer() == Seq::<u8>::empty()
                &&& system.shared() == (State {
                    direction: crate::preemption::Direction::Clockwise,
                    mode: crate::preemption::Mode::Continuous,
                })
                &&& system.state() == 0
            },
    {
        let dispatcher = Dispatcher::init(config())?;
        Ok(
            System {
                dispatcher,
                buffer: Resource::new(CommandBuffer::new(), 1),
                shared: Resource::new(State::new(), 2),
                state: Resource::new(0, 2),
            },
        )
    }

    /// Ends initialisation.
    pub fn arm(&mut self)
        requires
            old(self).wf(),
        ensures
            final(self).wf(),
            final(self).dispatcher() == old(self).dispatcher().armed_state(),
            final(self).buffer() == old(self).buffer(),
            final(self).shared() == old(self).shared(),
            final(self).state() == old(self).state(),
    {
        self.dispatcher.arm();
    }

    /// Takes the interrupt of `source` and runs its task to completion: the
    /// serial task on `serial`, the tick task on `port`. Answers with the
    /// handler that ran. A refused interrupt runs nothing and changes
    /// nothing.
    pub fn on_interrupt(&mut self, source: u16, serial: &mut Serial, port: &mut Port) -> (r: Result<
        Handler,
        DispatchError,
    >)
        requires
            old(self).wf(),
        ensures
            final(self).wf(),
            match r {
                Ok(Handler::Receive) => {
                    &&& source == USART1
                    &&& old(self).dispatcher().armed
                    &&& final(self).dispatcher() == old(self).dispatcher().served(0)
                    &&& final(self).state() == old(self).state()
                    &&& final(port)@ == old(port)@
                    &&& final(serial).rx is None
                    &&& match old(serial).rx {
                        Some(byte) => {
                            &&& final(serial).tx == (if old(serial).tx is None {
                                Some(byte)
                            } else {
                                old(serial).tx
                            })
                            &&& final(self).buffer() == accumulated(old(self).buffer(), byte)
                            &&& final(self).shared() == (if byte == END_OF_COMMAND {
                                applied(old(self).shared(), command(old(self).buffer()))
                            } else {
                                old(self).shared()
                            })
                        },
                        None => {
                            &&& final(serial).tx == old(serial).tx
                            &&& final(self).buffer() == old(self).buffer()
                            &&& final(self).shared() == old(self).shared()
                        },
                    }
                },
                Ok(Handler::Roulette) => {
                    &&& source == SYS_TICK
                    &&& old(self).dispatcher().armed
                    &&& final(self).dispatcher() == old(self).dispatcher().served(1)
                    &&& final(self).buffer() == old(self).buffer()
                    &&& *final(serial) == *old(serial)
                    &&& final(self).shared() == bounced(old(self).shared(), old(self).state())
                    &&& final(self).state() == turned(old(self).state(), final(self).shared().direction)
                    &&& final(port)@ == spun(old(port)@, old(self).state(), final(self).state())
                },
                Err(e) => {
                    &&& final(self).dispatcher() == old(self).dispatcher()
                    &&& final(self).buffer() == old(self).buffer()
                    &&& final(self).shared() == old(self).shared()
                    &&& final(self).state() == old(self).state()
                    &&& *final(serial) == *old(serial)
                    &&& final(port)@ == old(port)@
                    &&& match e {
                        DispatchError::NotArmed => !old(self).dispatcher().armed,
                        DispatchError::UnknownSource => old(self).dispatcher().armed && source
                            != USART1 && source != SYS_TICK,
                        _ => false,
                    }
                },
            },
    {
        match self.dispatcher.on_interrupt(source) {
            Err(e) => {
                proof {
                    let m = old(self).dispatcher();
                    assert(m.bound_to(USART1, 0) && m.bound_to(SYS_TICK, 1));
                }
                Err(e)
            },
            Ok(entry) => {
                let mut t = entry.threshold;
                match entry.handler {
                    Handler::Receive => {
                        receive(&mut t, serial, &mut self.buffer, &mut self.shared);
                    },
                    Handler::Roulette => {
                        roulette(&mut t, &mut self.state, &mut self.shared, port);
                    },
                }
                let _ = self.dispatcher.on_return();
                assert(self.dispatcher@.frames =~= old(self).dispatcher@.frames);
                Ok(entry.handler)
            },
        }
    }

    /// Whether initialisation has ended.
    pub fn is_armed(&self) -> (armed: bool)
        ensures
            armed == self.dispatcher().armed,
    {
        self.dispatcher.is_armed()
    }

    /// The roulette's position.
    pub fn position(&self) -> (curr: u8)
        requires
            self.wf(),
        ensures
            curr == self.state(),
    {
        let mut t = self.dispatcher.threshold();
        let read = |s: &u8, _t: &mut Threshold| -> (curr: u8)
            ensures
                curr == *s,
            { *s };
        self.state.claim(&mut t, read)
    }

    /// The shared settings.
    pub fn settings(&self) -> (shared: State)
        requires
            self.wf(),
        ensures
            shared == self.shared(),
    {
        let mut t = self.dispatcher.threshold();
        let read = |s: &State, _t: &mut Threshold| -> (shared: State)
            ensures
                shared == *s,
            { *s };
        self.shared.claim(&mut t, read)
    }

    /// The bytes in the command buffer.
    pub fn command_bytes(&self) -> (bytes: Vec<u8>)
        requires
            self.wf(),
        ensures
            bytes@ == self.buffer(),
    {
        let mut t = self.dispatcher.threshold();
        let read = |b: &CommandBuffer, _t: &mut Threshold| -> (bytes: Vec<u8>)
            ensures
                bytes@ == b@,
            { slice_to_vec(b.as_slice()) };
        self.buffer.claim(&mut t, read)
    }
}

} // verus!
