//! Image of a serial port's two data registers. Reading and writing never
//! wait: they answer at once, with the byte or with the reason there is
//! none.

use vstd::prelude::*;

verus! {

/// Why a serial operation could not be done right now.
#[derive(Clone, Copy, Debug, PartialEq, Eq, Structural)]
pub enum NotReady {
    /// No byte has been received.
    Empty,
    /// The byte written last has not been sent yet.
    Busy,
}

/// The receive and transmit data registers.
pub struct Serial {
    /// The byte received and not read yet.
    pub rx: Option<u8>,
    /// The byte written and not sent yet.
    pub tx: Option<u8>,
}

impl Serial {
    /// A port with both registers empty.
    pub fn new() -> (serial: Serial)
        ensures
            serial.rx is None,
            serial.tx is None,
    {
        Serial { rx: None, tx: None }
    }

    /// The line side of reception: `byte` arrives. It is kept if the receive
    /// register is empty and lost to an overrun otherwise.
    pub fn deliver(&mut self, byte: u8) -> (kept: bool)
        ensures
            kept == (old(self).rx is None),
            final(self).rx == (if kept { Some(byte) } else { old(self).rx }),
            final(self).tx == old(self).tx,
    {
        if self.rx.is_none() {
            self.rx = Some(byte);
            true
        } else {
            false
        }
    }

    /// The line side of transmission: the byte waiting to be sent leaves.
    pub fn transmit(&mut self) -> (sent: Option<u8>)
        ensures
            sent == old(self).tx,
            final(self).tx is None,
            final(self).rx == old(self).rx,
    {
        let sent = self.tx;
        self.tx = None;
        sent
    }

    /// Takes the received byte, if there is one.
    pub fn read(&mut self) -> (r: Result<u8, NotReady>)
        ensures
            r == (match old(self).rx {
                Some(byte) => Ok::<u8, NotReady>(byte),
                None => Err::<u8, NotReady>(NotReady::Empty),
            }),
            final(self).rx is None,
            final(self).tx == old(self).tx,
    {
        match self.rx {
            Some(byte) => {
                self.rx = None;
                Ok(byte)
            },
            None => Err(NotReady::Empty),
        }
    }

    /// Hands `byte` over for sending, if the byte before it has left.
    pub fn write(&mut self, byte: u8) -> (r: Result<(), NotReady>)
        ensures
            r == (if old(self).tx is None {
                Ok::<(), NotReady>(())
            } else {
                Err::<(), NotReady>(NotReady::Busy)
            }),
            final(self).tx == (if old(self).tx is None { Some(byte) } else { old(self).tx }),
            final(self).rx == old(self).rx,
    {
        if self.tx.is_none() {
            self.tx = Some(byte);
            Ok(())
        } else {
            Err(NotReady::Busy)
        }
    }
}

} // verus!
