//! The root display object (the reserved id 1) and its two server-to-client
//! events: `error` (opcode 0) and `delete_id` (opcode 1).

use crate::wire::{spec_message, Arg, ArgV, EncodeError};
use vstd::prelude::*;

verus! {

/// The id every connection reserves for its root display object.
pub const DISPLAY_ID: u32 = 1;

/// Opcode of the `error` event.
pub const ERROR_OPCODE: u16 = 0;

/// Opcode of the `delete_id` event.
pub const DELETE_ID_OPCODE: u16 = 1;

#[derive(Debug, Clone, PartialEq, Eq, Structural)]
pub struct WlDisplay {}

/// The encoded form of a `delete_id` event acknowledging id `id`.
pub open spec fn delete_id_msg(id: u32) -> Seq<u8> {
    spec_message(DISPLAY_ID, DELETE_ID_OPCODE, seq![ArgV::Uint(id)])
}

/// The encoded form of an `error` event: the offending object, a numeric
/// code, and a human-readable message.
pub open spec fn error_msg(object_id: u32, code: u32, message: Seq<u8>) -> Seq<u8> {
    spec_message(
        DISPLAY_ID,
        ERROR_OPCODE,
        seq![ArgV::Object(object_id), ArgV::Uint(code), ArgV::Str(message)],
    )
}

/// Acknowledges that the server has processed a destroy request, so the
/// client may reuse the object id.
pub struct DeleteId {
    pub sender_object_id: u32,
    pub id: u32,
}

impl DeleteId {
    /// Append the encoded event. A `delete_id` is 12 bytes, so it always
    /// fits.
    pub fn encode(&self, dst: &mut Vec<u8>) -> (r: Result<(), EncodeError>)
        ensures
            r is Ok,
            final(dst)@ == old(dst)@ + spec_message(
                self.sender_object_id,
                DELETE_ID_OPCODE,
                seq![ArgV::Uint(self.id)],
            ),
    {
        let mut args: Vec<Arg> = Vec::new();
        args.push(Arg::Uint(self.id));
        proof {
            let av = crate::wire::args_view(args@);
            assert(av =~= seq![ArgV::Uint(self.id)]);
            crate::wire::lemma_singleton_arg(ArgV::Uint(self.id));
        }
        proof {
            crate::wire::lemma_singleton_arg(ArgV::Uint(self.id));
        }
        match crate::wire::encode_event(self.sender_object_id, DELETE_ID_OPCODE, &args) {
            Ok(bytes) => {
                crate::wire::append_bytes(dst, &bytes);
                Ok(())
            },
            Err(e) => Err(e),
        }
    }
}

/// An error event whose message is empty always fits a message: its
/// arguments occupy 16 bytes.
pub proof fn lemma_empty_error_fits(object_id: u32, code: u32)
    ensures
        crate::wire::msg_fits(
            seq![ArgV::Object(object_id), ArgV::Uint(code), ArgV::Str(Seq::empty())],
        ),
{
    let args = seq![ArgV::Object(object_id), ArgV::Uint(code), ArgV::Str(Seq::<u8>::empty())];
    let tail1 = seq![ArgV::Uint(code), ArgV::Str(Seq::<u8>::empty())];
    let tail2 = seq![ArgV::Str(Seq::<u8>::empty())];
    assert(args.skip(1) =~= tail1);
    assert(tail1.skip(1) =~= tail2);
    assert(tail2.skip(1) =~= Seq::<ArgV>::empty());
    assert(crate::wire::pad4(1) == 4);
    assert(crate::wire::args_wire_size(Seq::<ArgV>::empty()) == 0);
    assert(crate::wire::arg_wire_size(ArgV::Str(Seq::<u8>::empty())) == 8);
    assert(crate::wire::args_wire_size(tail2) == 8);
    assert(crate::wire::args_wire_size(tail1) == 12);
    assert(crate::wire::args_wire_size(args) == 16);
}

/// Reports a protocol violation: the object where the error occurred, an
/// interface-defined code, and a human-readable description.
pub struct Error {
    pub sender_object_id: u32,
    pub object_id: u32,
    pub code: u32,
    pub message: Vec<u8>,
}

impl Error {
    /// Append the encoded event. Fails with `MessageTooLarge` when the
    /// message text would push the event past the 0xFFFF-byte limit.
    pub fn encode(&self, dst: &mut Vec<u8>) -> (r: Result<(), EncodeError>)
        ensures
            match r {
                Ok(()) => final(dst)@ == old(dst)@ + spec_message(
                    self.sender_object_id,
                    ERROR_OPCODE,
                    seq![
                        ArgV::Object(self.object_id),
                        ArgV::Uint(self.code),
                        ArgV::Str(self.message@),
                    ],
                ),
                Err(e) => {
                    &&& e == EncodeError::MessageTooLarge
                    &&& final(dst)@ == old(dst)@
                    &&& !crate::wire::msg_fits(
                        seq![
                            ArgV::Object(self.object_id),
                            ArgV::Uint(self.code),
                            ArgV::Str(self.message@),
                        ],
                    )
                },
            },
    {
        let mut args: Vec<Arg> = Vec::new();
        args.push(Arg::Object(self.object_id));
        args.push(Arg::Uint(self.code));
        let mut text: Vec<u8> = Vec::new();
        let mut j: usize = 0;
        let n = self.message.len();
        while j < n
            invariant
                j <= n,
                n == self.message@.len(),
                text@ == self.message@.take(j as int),
            decreases n - j,
        {
            text.push(self.message[j]);
            assert(text@ =~= self.message@.take(j as int + 1));
            j = j + 1;
        }
        assert(text@ =~= self.message@);
        args.push(Arg::Str(text));
        proof {
            let av = crate::wire::args_view(args@);
            assert(av =~= seq![
                ArgV::Object(self.object_id),
                ArgV::Uint(self.code),
                ArgV::Str(self.message@),
            ]);
        }
        match crate::wire::encode_event(self.sender_object_id, ERROR_OPCODE, &args) {
            Ok(bytes) => {
                crate::wire::append_bytes(dst, &bytes);
                Ok(())
            },
            Err(e) => Err(e),
        }
    }
}

} // verus!
