use vstd::prelude::*;

use crate::config::{ConfigError, MAX_MESSAGE_SIZE};

verus! {

/// The fixed-capacity payload of one exchange, reused per message.
///
/// Construction is the one place the core enforces the message-size
/// ceiling: a buffer over [`MAX_MESSAGE_SIZE`] bytes is refused outright,
/// never silently truncated, so every value of this type respects the
/// bound.
pub struct MessageBuffer {
    data: Vec<u8>,
}

impl MessageBuffer {
    /// The payload bytes.
    pub closed spec fn bytes(&self) -> Seq<u8> {
        self.data@
    }

    /// The invariant every constructed buffer has: it fits the ceiling.
    pub open spec fn wf(&self) -> bool {
        self.bytes().len() <= MAX_MESSAGE_SIZE
    }

    /// Builds a payload of `size` copies of `fill`, or refuses a `size`
    /// over the ceiling.
    pub fn new(size: u64, fill: u8) -> (r: Result<MessageBuffer, ConfigError>)
        ensures
            r is Ok <==> size <= MAX_MESSAGE_SIZE,
            r matches Ok(b) ==> b.bytes() == Seq::new(size as nat, |k: int| fill) && b.wf(),
            r matches Err(e) ==> e == ConfigError::OversizedMessage,
    {
        if size > MAX_MESSAGE_SIZE {
            return Err(ConfigError::OversizedMessage);
        }
        let len: usize = size as usize;
        let mut data: Vec<u8> = Vec::new();
        let mut i: usize = 0;
        while i < len
            invariant
                i <= len,
                len == size,
                data@.len() == i,
                forall|k: int| 0 <= k < i ==> data@[k] == fill,
            decreases len - i,
        {
            data.push(fill);
            i = i + 1;
        }
        proof {
            assert(data@ =~= Seq::new(size as nat, |k: int| fill));
        }
        Ok(MessageBuffer { data })
    }

    /// How many payload bytes the buffer holds.
    pub fn len(&self) -> (n: usize)
        ensures
            n == self.bytes().len(),
    {
        self.data.len()
    }

    /// The payload, for handing to a transport's send.
    pub fn as_vec(&self) -> (v: &Vec<u8>)
        ensures
            v@ == self.bytes(),
    {
        &self.data
    }

    /// Surrenders the payload, for reuse as a receive buffer.
    pub fn into_vec(self) -> (v: Vec<u8>)
        ensures
            v@ == self.bytes(),
    {
        self.data
    }
}

} // verus!
