//! The wire-envelope codec and the known payload shapes.
//!
//! Every message on the control channel is an [`Envelope`]: a short UTF-8
//! type tag plus an opaque, independently serialized payload.  The envelope
//! is the only self-describing part of the wire format, which keeps it
//! forward-compatible: a receiver can always recover the tag and skip an
//! envelope it does not recognize, without being able to parse its payload.
//!
//! The byte layout is a four-byte little-endian length of the tag's UTF-8
//! form, the tag bytes, then the payload as the remainder.  Decoding an
//! envelope whose payload does not match the shape expected for its tag is
//! a serialization error; an unrecognized tag is not — tag recognition
//! belongs to the dispatch loop.

use vstd::prelude::*;

use vstd::bytes::lemma_auto_spec_u32_to_from_le_bytes;
use vstd::bytes::spec_u32_from_le_bytes;
use vstd::bytes::spec_u32_to_le_bytes;
use vstd::bytes::u32_from_le_bytes;
use vstd::bytes::u32_to_le_bytes;
use vstd::slice::slice_subrange;
use vstd::slice::slice_to_vec;
use vstd::utf8::decode_utf8;
use vstd::utf8::decode_utf8_encode_utf8;
use vstd::utf8::encode_utf8;
use vstd::utf8::encode_utf8_decode_utf8;
use vstd::utf8::encode_utf8_valid_utf8;
use vstd::utf8::valid_utf8;

use crate::error::Error;

verus! {

/// The wire wrapper: a type tag and an opaque serialized payload.
#[derive(Clone, Debug, PartialEq, Eq)]
pub struct Envelope {
    pub message_id: String,
    pub payload: Vec<u8>,
}

impl Envelope {
    /// Encodable: the tag's UTF-8 form must fit the length prefix.
    pub open spec fn wf(&self) -> bool {
        encode_utf8(self.message_id@).len() <= u32::MAX
    }
}

/// The byte form of an envelope: length of the encoded tag, the encoded
/// tag, then the payload.
pub open spec fn encode_envelope_spec(id: Seq<char>, payload: Seq<u8>) -> Seq<u8> {
    spec_u32_to_le_bytes(encode_utf8(id).len() as u32) + encode_utf8(id) + payload
}

/// What decoding a byte block yields: the tag and the payload, or nothing
/// when the block is truncated or its tag bytes are not UTF-8.
pub open spec fn decode_envelope_spec(bytes: Seq<u8>) -> Option<(Seq<char>, Seq<u8>)> {
    if bytes.len() < 4 {
        Option::None
    } else {
        let n = spec_u32_from_le_bytes(bytes.subrange(0, 4)) as int;
        if bytes.len() < 4 + n {
            Option::None
        } else {
            let idb = bytes.subrange(4, 4 + n);
            if valid_utf8(idb) {
                Option::Some((decode_utf8(idb), bytes.subrange(4 + n, bytes.len() as int)))
            } else {
                Option::None
            }
        }
    }
}

/// Relies on `String::from_utf8`: it returns the string whose characters
/// are the UTF-8 decoding of the bytes exactly when the bytes are valid
/// UTF-8, and rejects them otherwise.
#[verifier::external_body]
pub(crate) fn string_from_utf8(bytes: Vec<u8>) -> (r: Result<String, Error>)
    ensures
        match r {
            Result::Ok(s) => valid_utf8(bytes@) && s@ == decode_utf8(bytes@),
            Result::Err(e) => !valid_utf8(bytes@) && e == Error::Serialization,
        },
{
    match String::from_utf8(bytes) {
        Ok(s) => Ok(s),
        Err(_) => Err(Error::Serialization),
    }
}

/// Encodes an envelope whose tag is known to fit the length prefix.
pub fn encode_envelope(e: &Envelope) -> (r: Vec<u8>)
    requires
        e.wf(),
    ensures
        r@ == encode_envelope_spec(e.message_id@, e.payload@),
{
    let id_bytes: &[u8] = e.message_id.as_str().as_bytes();
    let mut out = u32_to_le_bytes(id_bytes.len() as u32);
    out.extend_from_slice(id_bytes);
    out.extend_from_slice(e.payload.as_slice());
    proof {
        assert(out@ =~= encode_envelope_spec(e.message_id@, e.payload@));
    }
    out
}

/// Encodes any envelope; a tag too large for the length prefix is a
/// serialization error.
pub fn try_encode_envelope(e: &Envelope) -> (r: Result<Vec<u8>, Error>)
    ensures
        match r {
            Result::Ok(v) => e.wf() && v@ == encode_envelope_spec(e.message_id@, e.payload@),
            Result::Err(err) => !e.wf() && err == Error::Serialization,
        },
{
    let id_bytes: &[u8] = e.message_id.as_str().as_bytes();
    if id_bytes.len() <= u32::MAX as usize {
        Result::Ok(encode_envelope(e))
    } else {
        Result::Err(Error::Serialization)
    }
}

/// Decodes a byte block into an envelope.  Succeeds exactly when the block
/// carries a complete length prefix, that many UTF-8 tag bytes, and the
/// payload as the remainder.
pub fn decode_envelope(bytes: &[u8]) -> (r: Result<Envelope, Error>)
    ensures
        match r {
            Result::Ok(env) => decode_envelope_spec(bytes@) == Option::Some(
                (env.message_id@, env.payload@),
            ) && env.wf(),
            Result::Err(err) => decode_envelope_spec(bytes@) is None && err
                == Error::Serialization,
        },
{
    if bytes.len() < 4 {
        return Result::Err(Error::Serialization);
    }
    let len_field = slice_subrange(bytes, 0, 4);
    let n32 = u32_from_le_bytes(len_field);
    let n = n32 as usize;
    if bytes.len() - 4 < n {
        return Result::Err(Error::Serialization);
    }
    let idb = slice_subrange(bytes, 4, 4 + n);
    let payload = slice_to_vec(slice_subrange(bytes, 4 + n, bytes.len()));
    match string_from_utf8(slice_to_vec(idb)) {
        Result::Ok(id) => {
            proof {
                broadcast use decode_utf8_encode_utf8;

                assert(encode_utf8(id@) == bytes@.subrange(4, 4 + n as int));
            }
            Result::Ok(Envelope { message_id: id, payload })
        },
        Result::Err(_) => Result::Err(Error::Serialization),
    }
}

/// The outer envelope round-trips: encoding a tag and payload and decoding
/// the bytes yields the tag and payload back, for every tag that fits the
/// length prefix.
pub proof fn lemma_envelope_round_trip(id: Seq<char>, payload: Seq<u8>)
    requires
        encode_utf8(id).len() <= u32::MAX,
    ensures
        decode_envelope_spec(encode_envelope_spec(id, payload)) == Option::Some((id, payload)),
{
    broadcast use encode_utf8_valid_utf8, encode_utf8_decode_utf8;

    lemma_auto_spec_u32_to_from_le_bytes();
    let idb = encode_utf8(id);
    let enc = encode_envelope_spec(id, payload);
    assert(enc.subrange(0, 4) =~= spec_u32_to_le_bytes(idb.len() as u32));
    assert(spec_u32_from_le_bytes(enc.subrange(0, 4)) == idb.len());
    assert(enc.subrange(4, 4 + idb.len() as int) =~= idb);
    assert(enc.subrange(4 + idb.len() as int, enc.len() as int) =~= payload);
}

/// The child's first message after spawn: the address of the channel it
/// listens on for future commands.
#[derive(Clone, Debug, PartialEq, Eq)]
pub struct Register {
    pub reply_address: String,
}

/// A registration payload is the UTF-8 form of the reply address.
pub open spec fn encode_register_spec(addr: Seq<char>) -> Seq<u8> {
    encode_utf8(addr)
}

/// Decoding a registration payload: the reply address, when the bytes are
/// valid UTF-8.
pub open spec fn decode_register_spec(bytes: Seq<u8>) -> Option<Seq<char>> {
    if valid_utf8(bytes) {
        Option::Some(decode_utf8(bytes))
    } else {
        Option::None
    }
}

/// Serializes a registration.
pub fn encode_register(r: &Register) -> (out: Vec<u8>)
    ensures
        out@ == encode_register_spec(r.reply_address@),
{
    slice_to_vec(r.reply_address.as_str().as_bytes())
}

/// Deserializes a registration; non-UTF-8 bytes are a serialization error.
pub fn decode_register(bytes: &[u8]) -> (r: Result<Register, Error>)
    ensures
        match r {
            Result::Ok(reg) => decode_register_spec(bytes@) == Option::Some(reg.reply_address@),
            Result::Err(err) => decode_register_spec(bytes@) is None && err
                == Error::Serialization,
        },
{
    match string_from_utf8(slice_to_vec(bytes)) {
        Result::Ok(addr) => Result::Ok(Register { reply_address: addr }),
        Result::Err(_) => Result::Err(Error::Serialization),
    }
}

/// Registrations round-trip through their byte form.
pub proof fn lemma_register_round_trip(addr: Seq<char>)
    ensures
        decode_register_spec(encode_register_spec(addr)) == Option::Some(addr),
{
    broadcast use encode_utf8_valid_utf8, encode_utf8_decode_utf8;

}

/// The empty acknowledgement, sent after successfully processing a message.
#[derive(Clone, Debug, PartialEq, Eq)]
pub struct Ack {}

/// Serializes an acknowledgement: the empty payload.
pub fn encode_ack() -> (out: Vec<u8>)
    ensures
        out@ =~= Seq::<u8>::empty(),
{
    Vec::new()
}

/// Deserializes an acknowledgement; anything but the empty payload does
/// not match the shape and is a serialization error.
pub fn decode_ack(bytes: &[u8]) -> (r: Result<Ack, Error>)
    ensures
        match r {
            Result::Ok(_) => bytes@.len() == 0,
            Result::Err(err) => bytes@.len() != 0 && err == Error::Serialization,
        },
{
    if bytes.len() == 0 {
        Result::Ok(Ack {  })
    } else {
        Result::Err(Error::Serialization)
    }
}

/// A workload-start request.  Its field list is an extension point not
/// fixed here, so the payload is carried opaquely.
#[derive(Clone, Debug, PartialEq, Eq)]
pub struct Spawn {
    pub body: Vec<u8>,
}

/// Serializes a workload-start request: its opaque body.
pub fn encode_spawn(s: &Spawn) -> (out: Vec<u8>)
    ensures
        out@ == s.body@,
{
    slice_to_vec(s.body.as_slice())
}

/// Deserializes a workload-start request: every payload matches, opaquely.
pub fn decode_spawn(bytes: &[u8]) -> (s: Spawn)
    ensures
        s.body@ == bytes@,
{
    Spawn { body: slice_to_vec(bytes) }
}

} // verus!
