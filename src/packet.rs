//! A text message laid out in a fixed-size, zero-padded buffer.
use vstd::prelude::*;
use vstd::string::StringSliceAdditionalSpecFns;

verus! {

/// A text message to be sent in a buffer of 1024 bytes.
pub struct Packet<'a> {
    pub message: &'a str,
}

impl<'a> Packet<'a> {
    pub fn new(message: &'a str) -> (r: Self)
        ensures
            r.message == message,
    {
        Self { message }
    }

    /// The message's bytes at the start of the buffer, zeros after them.
    pub fn to_buff(self) -> (r: [u8; 1024])
        requires
            self.message.spec_bytes().len() <= 1024,
        ensures
            forall|i: int|
                0 <= i < self.message.spec_bytes().len() ==> r@[i] == self.message.spec_bytes()[i],
            forall|i: int| self.message.spec_bytes().len() <= i < 1024 ==> r@[i] == 0,
    {
        let bytes = self.message.as_bytes();
        let mut buff_to_fill: [u8; 1024] = [0u8; 1024];
        let mut i: usize = 0;
        while i < bytes.len()
            invariant
                bytes@ == self.message.spec_bytes(),
                bytes@.len() <= 1024,
                i <= bytes@.len(),
                forall|j: int| 0 <= j < i ==> buff_to_fill@[j] == bytes@[j],
                forall|j: int| bytes@.len() <= j < 1024 ==> buff_to_fill@[j] == 0,
            decreases bytes@.len() - i,
        {
            buff_to_fill[i] = bytes[i];
            i += 1;
        }
        buff_to_fill
    }
}

} // verus!
