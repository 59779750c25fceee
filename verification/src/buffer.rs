//! The command buffer: a fixed-capacity byte vector that lives without a
//! heap, kept in a `heapless::Vec`.

use vstd::prelude::*;

verus! {

/// Number of bytes the command buffer holds.
pub const CAPACITY: usize = 16;

/// `heapless::Vec`: a vector of at most `N` items that lives in place.
/// Nothing inside it is visible here.
#[verifier::external_type_specification]
#[verifier::external_body]
#[verifier::reject_recursive_types(T)]
pub struct ExHeaplessVec<T, const N: usize>(heapless::Vec<T, N>);

/// The bytes that a `heapless::Vec<u8, 16>` holds, oldest first.
pub uninterp spec fn stored(v: heapless::Vec<u8, 16>) -> Seq<u8>;

/// `heapless::Vec::new`: a vector that holds nothing.
#[verifier::external_body]
fn vec_new() -> (v: heapless::Vec<u8, 16>)
    ensures
        stored(v) == Seq::<u8>::empty(),
{
    heapless::Vec::new()
}

/// `heapless::Vec::push`: below capacity the byte is appended and the call
/// succeeds; at capacity the vector is left as it is and the byte comes
/// back.
#[verifier::external_body]
fn vec_push(v: &mut heapless::Vec<u8, 16>, byte: u8) -> (r: Result<(), u8>)
    ensures
        match r {
            Ok(_) => stored(*old(v)).len() < 16 && stored(*final(v)) == stored(*old(v)).push(byte),
            Err(back) => stored(*old(v)).len() >= 16 && back == byte && stored(*final(v)) == stored(*old(v)),
        },
{
    v.push(byte)
}

/// `heapless::Vec::clear`: the vector holds nothing afterwards.
#[verifier::external_body]
fn vec_clear(v: &mut heapless::Vec<u8, 16>)
    ensures
        stored(*final(v)) == Seq::<u8>::empty(),
{
    v.clear()
}

/// `heapless::Vec::as_slice`: the bytes held, oldest first.
#[verifier::external_body]
fn vec_as_slice(v: &heapless::Vec<u8, 16>) -> (bytes: &[u8])
    ensures
        bytes@ == stored(*v),
{
    v.as_slice()
}

/// Bytes received since the last end of command.
pub struct CommandBuffer {
    bytes: heapless::Vec<u8, 16>,
}

impl CommandBuffer {
    /// The bytes held, oldest first.
    pub closed spec fn view(&self) -> Seq<u8> {
        stored(self.bytes)
    }

    /// An empty buffer.
    pub fn new() -> (buffer: CommandBuffer)
        ensures
            buffer@ == Seq::<u8>::empty(),
    {
        CommandBuffer { bytes: vec_new() }
    }

    /// Appends `byte` if there is room. A full buffer stays as it is and
    /// hands the byte back.
    pub fn push(&mut self, byte: u8) -> (r: Result<(), u8>)
        ensures
            match r {
                Ok(_) => old(self)@.len() < CAPACITY && final(self)@ == old(self)@.push(byte),
                Err(back) => old(self)@.len() >= CAPACITY && back == byte && final(self)@ == old(self)@,
            },
    {
        vec_push(&mut self.bytes, byte)
    }

    /// Empties the buffer.
    pub fn clear(&mut self)
        ensures
            final(self)@ == Seq::<u8>::empty(),
    {
        vec_clear(&mut self.bytes)
    }

    /// The bytes held, oldest first.
    pub fn as_slice(&self) -> (bytes: &[u8])
        ensures
            bytes@ == self@,
    {
        vec_as_slice(&self.bytes)
    }
}

} // verus!
