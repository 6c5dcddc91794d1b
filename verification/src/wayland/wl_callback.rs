//! A one-shot callback object; the server fires it once and destroys it.

use crate::wire::{spec_message, Arg, ArgV, EncodeError};
use vstd::prelude::*;

verus! {

#[derive(Debug, Clone, PartialEq, Eq, Structural)]
pub struct WlCallback {}

/// Opcode of the `done` event.
pub const DONE_OPCODE: u16 = 0;

/// The encoded form of a `done` event fired by callback `callback_id`; the
/// payload is the current time in milliseconds, with an undefined base.
pub open spec fn done_msg(callback_id: u32, callback_data: u32) -> Seq<u8> {
    spec_message(callback_id, DONE_OPCODE, seq![ArgV::Uint(callback_data)])
}

/// Notifies the client that a frame callback has fired.
pub struct Done {
    pub sender_object_id: u32,
    pub callback_data: u32,
}

impl Done {
    /// Append the encoded event. A `done` is 12 bytes, so it always fits.
    pub fn encode(&self, dst: &mut Vec<u8>) -> (r: Result<(), EncodeError>)
        ensures
            r is Ok,
            final(dst)@ == old(dst)@ + done_msg(self.sender_object_id, self.callback_data),
    {
        let mut args: Vec<Arg> = Vec::new();
        args.push(Arg::Uint(self.callback_data));
        proof {
            let av = crate::wire::args_view(args@);
            assert(av =~= seq![ArgV::Uint(self.callback_data)]);
            crate::wire::lemma_singleton_arg(ArgV::Uint(self.callback_data));
        }
        match crate::wire::encode_event(self.sender_object_id, DONE_OPCODE, &args) {
            Ok(bytes) => {
                crate::wire::append_bytes(dst, &bytes);
                Ok(())
            },
            Err(e) => Err(e),
        }
    }
}

} // verus!
