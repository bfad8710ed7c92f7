//! Raw protocol message type shared by the framed exchanges.

use vstd::prelude::*;

verus! {

/// A raw protocol message: its code byte, its declared length, and its body.
pub struct Message {
    pub code: u8,
    pub length: u8,
    pub body: Vec<u8>,
}

/// A message that cannot be read from its bytes.
#[derive(Debug)]
pub enum ProtocolError {
    Other,
}

impl Message {
    /// Reads a message from a raw slice: a slice shorter than the smallest
    /// frame is refused; any other slice reads as the empty message.
    pub fn from_slice(slice: &[u8]) -> (r: Result<Message, ProtocolError>)
        ensures
            r is Err <==> slice@.len() < 5,
            r matches Ok(m) ==> m.code == 0 && m.length == 0 && m.body@ == Seq::<u8>::empty(),
            r matches Err(e) ==> e is Other,
    {
        if slice.len() < 5 {
            return Err(ProtocolError::Other);
        }
        Ok(Message { code: 0, length: 0, body: Vec::new() })
    }
}

} // verus!
