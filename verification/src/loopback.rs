//! Serial interface loopback

use vstd::prelude::*;
use crate::serial::Serial;
use crate::threshold::Threshold;

verus! {

/// Send back the received byte. With nothing received the task does
/// nothing; a byte that cannot be handed over for sending is dropped. Both
/// conditions end here: the task reports nothing to its caller.
pub fn loopback(t: &mut Threshold, serial: &mut Serial)
    ensures
        final(t)@ == old(t)@,
        final(serial).rx is None,
        final(serial).tx == (if old(serial).tx is None { old(serial).rx } else { old(serial).tx }),
{
    match serial.read() {
        Ok(byte) => {
            let _ = serial.write(byte);
        },
        Err(_) => {},
    }
}

} // verus!
