//! The message spoken over the socket between the unprivileged client and
//! its root helper: one tag byte (`0` asks to open a device, anything else
//! ends the session), followed by the UTF-8 bytes of a path.

use vstd::prelude::*;
use vstd::string::StringSliceAdditionalSpecFns;
use vstd::utf8::{decode_utf8, encode_utf8, valid_utf8};

verus! {

broadcast use {vstd::utf8::encode_utf8_valid_utf8, vstd::utf8::encode_utf8_decode_utf8};

/// What a message asks for.
#[derive(PartialEq, Eq, Clone, Copy, Debug, Structural)]
pub enum MsgType {
    /// Open a device node (client to helper), or the answer to such a request.
    Open,
    /// End the session.
    End,
}

/// A message between the client and the root helper. The descriptor travels
/// beside the bytes, as ancillary data, and is never part of the encoding.
pub struct Msg {
    pub msg_type: MsgType,
    pub fd: Option<i32>,
    pub path: String,
}

/// The tag byte that stands for a message type.
pub open spec fn type_byte(t: MsgType) -> u8 {
    match t {
        MsgType::Open => 0,
        MsgType::End => 1,
    }
}

/// The message type that a tag byte is read as: `0` opens, any other byte ends.
pub open spec fn type_of_byte(b: u8) -> MsgType {
    if b == 0 {
        MsgType::Open
    } else {
        MsgType::End
    }
}

/// The bytes that carry a message of type `t` with path `path`.
pub open spec fn wire_bytes(t: MsgType, path: Seq<char>) -> Seq<u8> {
    seq![type_byte(t)] + encode_utf8(path)
}

/// The bytes can be read as a message: a tag byte, then valid UTF-8.
pub open spec fn is_wire_message(bytes: Seq<u8>) -> bool {
    bytes.len() >= 1 && valid_utf8(bytes.drop_first())
}

/// The type that a received message is read as.
pub open spec fn wire_type(bytes: Seq<u8>) -> MsgType {
    type_of_byte(bytes[0])
}

/// The path that a received message is read as.
pub open spec fn wire_path(bytes: Seq<u8>) -> Seq<char> {
    decode_utf8(bytes.drop_first())
}

/// `std::string::String::from_utf8`: the bytes are turned into a string
/// exactly when they are valid UTF-8, and the string then holds the
/// characters that the bytes encode.
#[verifier::external_body]
fn string_from_utf8(bytes: Vec<u8>) -> (r: Option<String>)
    ensures
        r is Some <==> valid_utf8(bytes@),
        r matches Some(s) ==> s@ == decode_utf8(bytes@),
{
    String::from_utf8(bytes).ok()
}

impl MsgType {
    /// The tag byte of this type.
    pub fn to_byte(&self) -> (b: u8)
        ensures
            b == type_byte(*self),
    {
        match self {
            MsgType::Open => 0,
            MsgType::End => 1,
        }
    }

    /// The type that a tag byte is read as.
    pub fn from_byte(b: u8) -> (t: MsgType)
        ensures
            t == type_of_byte(b),
    {
        if b == 0 {
            MsgType::Open
        } else {
            MsgType::End
        }
    }
}

impl Msg {
    /// Encodes the message: its tag byte, then the UTF-8 bytes of its path.
    /// The descriptor is not encoded.
    pub fn to_bytes(&self) -> (r: Vec<u8>)
        ensures
            r@ == wire_bytes(self.msg_type, self.path@),
    {
        let mut out: Vec<u8> = Vec::new();
        out.push(self.msg_type.to_byte());
        let path = self.path.as_str().as_bytes();
        let n = path.len();
        let mut i: usize = 0;
        while i < n
            invariant
                n == path@.len(),
                path@ == encode_utf8(self.path@),
                i <= n,
                out@ == seq![type_byte(self.msg_type)] + path@.take(i as int),
            decreases n - i,
        {
            out.push(path[i]);
            assert(path@.take(i + 1) =~= path@.take(i as int).push(path@[i as int]));
            i = i + 1;
        }
        assert(path@.take(n as int) =~= path@);
        out
    }

    /// Reads a message from the bytes of a well-formed packet. The
    /// descriptor is left empty: it arrives beside the bytes.
    pub fn from_bytes(bytes: &Vec<u8>) -> (m: Msg)
        requires
            is_wire_message(bytes@),
        ensures
            m.msg_type == wire_type(bytes@),
            m.fd is None,
            m.path@ == wire_path(bytes@),
    {
        match Msg::decode(bytes) {
            Some(m) => m,
            None => {
                assert(false);
                Msg { msg_type: MsgType::End, fd: None, path: String::new() }
            },
        }
    }

    /// Reads a message from received bytes, or `None` when they are empty or
    /// what follows the tag byte is not valid UTF-8.
    pub fn decode(bytes: &Vec<u8>) -> (r: Option<Msg>)
        ensures
            r is Some <==> is_wire_message(bytes@),
            r matches Some(m) ==> {
                &&& m.msg_type == wire_type(bytes@)
                &&& m.fd is None
                &&& m.path@ == wire_path(bytes@)
            },
    {
        if bytes.len() == 0 {
            return None;
        }
        let mut rest: Vec<u8> = Vec::new();
        let n = bytes.len();
        let mut i: usize = 1;
        while i < n
            invariant
                n == bytes@.len(),
                1 <= i <= n,
                rest@ == bytes@.subrange(1, i as int),
            decreases n - i,
        {
            rest.push(bytes[i]);
            assert(bytes@.subrange(1, i + 1) =~= bytes@.subrange(1, i as int).push(bytes@[i as int]));
            i = i + 1;
        }
        assert(rest@ =~= bytes@.drop_first());
        match string_from_utf8(rest) {
            Some(path) => Some(Msg { msg_type: MsgType::from_byte(bytes[0]), fd: None, path }),
            None => None,
        }
    }
}

/// Decoding what was encoded gives the message back: the bytes of any
/// message are well formed, and are read as the same type and path.
pub proof fn lemma_decode_encode(t: MsgType, path: Seq<char>)
    ensures
        is_wire_message(wire_bytes(t, path)),
        wire_type(wire_bytes(t, path)) == t,
        wire_path(wire_bytes(t, path)) == path,
{
    let b = wire_bytes(t, path);
    assert(b.drop_first() =~= encode_utf8(path));
}

/// The layout of a packet: one tag byte, `0` for an open request and `1`
/// for the end of the session, then exactly the UTF-8 bytes of the path.
/// On reading, `0` opens and every other tag byte ends.
pub proof fn lemma_wire_layout(t: MsgType, path: Seq<char>, b: u8)
    ensures
        wire_bytes(t, path).len() == 1 + encode_utf8(path).len(),
        wire_bytes(t, path)[0] == (if t == MsgType::Open { 0u8 } else { 1u8 }),
        wire_bytes(t, path).drop_first() == encode_utf8(path),
        type_of_byte(b) == MsgType::Open <==> b == 0,
{
    assert(wire_bytes(t, path).drop_first() =~= encode_utf8(path));
}

/// Encoding what was decoded gives the bytes back, for every well-formed
/// packet whose tag byte is one that encoding writes (`0` or `1`).
pub proof fn lemma_encode_decode(bytes: Seq<u8>)
    requires
        is_wire_message(bytes),
        bytes[0] <= 1,
    ensures
        wire_bytes(wire_type(bytes), wire_path(bytes)) == bytes,
{
    vstd::utf8::decode_utf8_encode_utf8(bytes.drop_first());
    assert(wire_bytes(wire_type(bytes), wire_path(bytes)) =~= bytes);
}

} // verus!
