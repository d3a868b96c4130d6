//! The packages exchanged with the live-room server: a 16-byte big-endian
//! header (total length, version, action, parameter) followed by a UTF-8
//! body.
use crate::utils::bytes::{be_u32_bytes, be_u32_value, read_be_u32, utf8_str, write_be_u32};
use crate::utils::text::{decimal, push_decimal};
use vstd::prelude::*;
use vstd::string::StringExecFns;
use vstd::utf8::{decode_utf8, encode_utf8, valid_utf8};

verus! {

broadcast use vstd::utf8::group_utf8_lib;

/// Length of the header that precedes every body.
pub const HEADER_LEN: usize = 16;

/// Header version sent with every client package.
pub const CLIENT_VERSION: u32 = 0x0010_0001;

/// A package of the live-room protocol.
#[derive(Debug)]
pub struct Package {
    /// Total length in bytes: header and body.
    pub length: usize,
    pub version: u32,
    /// Actions:
    /// * 2 - heartbeat package sent by the client
    /// * 3 - popularity
    /// * 5 - notification
    /// * 7 - auth / joining room
    /// * 8 - heartbeat package sent by the server
    pub action: u32,
    pub param: u32,
    pub body: Option<String>,
}

/// The characters of an optional body.
pub open spec fn body_view(body: Option<String>) -> Option<Seq<char>> {
    match body {
        Some(s) => Some(s@),
        None => None,
    }
}

/// The bytes of an optional body on the wire.
pub open spec fn body_bytes(body: Option<Seq<char>>) -> Seq<u8> {
    match body {
        Some(s) => encode_utf8(s),
        None => Seq::empty(),
    }
}

/// The body of the package that joins room `room_id` as user `user_id`.
pub open spec fn join_body(room_id: u32, user_id: u32) -> Seq<char> {
    "{\"roomid\":"@ + decimal(room_id as nat) + ",\"uid\":"@ + decimal(user_id as nat) + "}"@
}

/// The header field at `index` (0: length, 1: version, 2: action, 3: param)
/// of the header bytes `h`.
pub open spec fn header_field(h: Seq<u8>, index: int) -> int {
    be_u32_value(h.subrange(4 * index, 4 * index + 4))
}

/// The text that a received body of bytes `b` is read as: the decoded
/// characters when `b` is valid UTF-8, otherwise a fixed error text.
pub open spec fn received_text(b: Seq<u8>) -> Seq<char> {
    if valid_utf8(b) {
        decode_utf8(b)
    } else {
        "error decoding utf8"@
    }
}

/// The body that a package of total length `length` carries once the bytes
/// `b` that follow its header have been read: a body only when the length
/// exceeds the header.
pub open spec fn received_body(length: int, b: Seq<u8>) -> Option<Seq<char>> {
    if length > 16 {
        Some(received_text(b))
    } else {
        None
    }
}

impl Package {
    /// The length covers the header and the body's bytes.
    pub open spec fn well_formed(&self) -> bool {
        self.length == HEADER_LEN + body_bytes(body_view(self.body)).len()
    }

    /// The bytes sent for this package: the four header fields in
    /// big-endian order (the length cut to 32 bits), then the body.
    pub open spec fn wire(&self) -> Seq<u8> {
        be_u32_bytes(self.length as u32) + be_u32_bytes(self.version) + be_u32_bytes(self.action)
            + be_u32_bytes(self.param) + body_bytes(body_view(self.body))
    }

    /// An empty client package with action 0.
    pub fn new() -> (p: Self)
        ensures
            p.length == 16,
            p.version == CLIENT_VERSION,
            p.action == 0,
            p.param == 1,
            p.body is None,
            p.well_formed(),
    {
        Package { length: 0x0000_0010, version: 0x0010_0001, action: 0x0000_0000, param: 0x0000_0001, body: None }
    }

    /// Replaces the body and sets the length to cover it.
    pub fn set_body(&mut self, body: Option<String>)
        requires
            body_bytes(body_view(body)).len() + 16 <= usize::MAX,
        ensures
            body_view(final(self).body) == body_view(body),
            final(self).length == 16 + body_bytes(body_view(body)).len(),
            final(self).version == old(self).version,
            final(self).action == old(self).action,
            final(self).param == old(self).param,
            final(self).well_formed(),
    {
        match body {
            Some(body) => {
                self.length = body.as_str().len() + 16;
                self.body = Some(body);
            },
            None => {
                self.length = 0x0000_0010;
                self.body = None;
            },
        }
    }

    /// The package that asks to join room `room_id` as user `user_id`.
    pub fn join_room(user_id: u32, room_id: u32) -> (p: Self)
        ensures
            p.version == CLIENT_VERSION,
            p.action == 7,
            p.param == 1,
            body_view(p.body) == Some(join_body(room_id, user_id)),
            p.well_formed(),
    {
        let mut package = Package::new();
        package.action = 7;
        let mut body = String::from_str("{\"roomid\":");
        push_decimal(&mut body, room_id as u64);
        body.append(",\"uid\":");
        push_decimal(&mut body, user_id as u64);
        body.append("}");
        proof {
            lemma_join_body_ascii(room_id, user_id);
        }
        package.set_body(Some(body));
        package
    }

    /// The heartbeat package that the client sends.
    pub fn heartbeat() -> (p: Self)
        ensures
            p.length == 16,
            p.version == CLIENT_VERSION,
            p.action == 2,
            p.param == 1,
            p.body is None,
            p.well_formed(),
    {
        Package { length: 0x0000_0010, version: 0x0010_0001, action: 0x0000_0002, param: 0x0000_0001, body: None }
    }

    /// The bytes to send for this package.
    pub fn encode(&self) -> (r: Vec<u8>)
        ensures
            r@ == self.wire(),
    {
        let mut out: Vec<u8> = Vec::with_capacity(self.length);
        push_array(&mut out, &write_be_u32(self.length as u32));
        push_array(&mut out, &write_be_u32(self.version));
        push_array(&mut out, &write_be_u32(self.action));
        push_array(&mut out, &write_be_u32(self.param));
        match &self.body {
            Some(body) => push_slice(&mut out, body.as_str().as_bytes()),
            None => {},
        }
        out
    }

    /// The package whose header is the first 16 bytes of `header`, without a
    /// body yet.
    pub fn decode_header(header: &[u8]) -> (p: Self)
        requires
            header@.len() >= 16,
        ensures
            p.length == header_field(header@, 0),
            p.version == header_field(header@, 1),
            p.action == header_field(header@, 2),
            p.param == header_field(header@, 3),
            p.body is None,
    {
        let length = read_be_u32(&header[0..4]);
        let version = read_be_u32(&header[4..8]);
        let action = read_be_u32(&header[8..12]);
        let param = read_be_u32(&header[12..16]);
        Package { length: length as usize, version, action, param, body: None }
    }

    /// The number of body bytes that follow the header; a length shorter
    /// than the header is left out.
    pub fn body_length(&self) -> (r: usize)
        requires
            self.length >= 16,
        ensures
            r == self.length - 16,
    {
        self.length - HEADER_LEN
    }

    /// Takes the bytes that followed the header as the body: read as UTF-8
    /// text when the length exceeds the header, ignored otherwise.
    pub fn set_received_body(&mut self, bytes: &[u8])
        ensures
            old(self).length > 16 ==> body_view(final(self).body) == received_body(
                old(self).length as int,
                bytes@,
            ),
            old(self).length <= 16 ==> body_view(final(self).body) == body_view(old(self).body),
            final(self).length == old(self).length,
            final(self).version == old(self).version,
            final(self).action == old(self).action,
            final(self).param == old(self).param,
    {
        if self.length > 16 {
            let text = match utf8_str(bytes) {
                Some(s) => s.to_owned(),
                None => "error decoding utf8".to_owned(),
            };
            self.body = Some(text);
        }
    }
}

fn push_array(out: &mut Vec<u8>, bytes: &[u8; 4])
    ensures
        final(out)@ == old(out)@ + bytes@,
{
    out.push(bytes[0]);
    out.push(bytes[1]);
    out.push(bytes[2]);
    out.push(bytes[3]);
    assert(final(out)@ =~= old(out)@ + bytes@);
}

fn push_slice(out: &mut Vec<u8>, bytes: &[u8])
    ensures
        final(out)@ == old(out)@ + bytes@,
{
    let ghost start = out@;
    let mut i: usize = 0;
    while i < bytes.len()
        invariant
            i <= bytes@.len(),
            out@ == start + bytes@.subrange(0, i as int),
        decreases bytes@.len() - i,
    {
        out.push(bytes[i]);
        i = i + 1;
        assert(out@ =~= start + bytes@.subrange(0, i as int));
    }
    assert(bytes@.subrange(0, i as int) =~= bytes@);
}

/// A package read back from the bytes sent for it is the package again: the
/// wire holds exactly `length` bytes, the header gives back the four fields,
/// and the bytes after the header give back the body. The one exception is a
/// present but empty body, which is sent as a bare header and so read back as
/// no body; `requires` leaves it out.
pub proof fn lemma_wire_roundtrip(p: Package)
    requires
        p.well_formed(),
        p.length <= u32::MAX,
        body_view(p.body) != Some(Seq::<char>::empty()),
    ensures
        p.wire().len() == p.length,
        header_field(p.wire(), 0) == p.length,
        header_field(p.wire(), 1) == p.version,
        header_field(p.wire(), 2) == p.action,
        header_field(p.wire(), 3) == p.param,
        received_body(header_field(p.wire(), 0), p.wire().subrange(16, p.length as int))
            == body_view(p.body),
{
    let w = p.wire();
    let body = body_bytes(body_view(p.body));
    crate::utils::bytes::lemma_be_u32_roundtrip(p.length as u32);
    crate::utils::bytes::lemma_be_u32_roundtrip(p.version);
    crate::utils::bytes::lemma_be_u32_roundtrip(p.action);
    crate::utils::bytes::lemma_be_u32_roundtrip(p.param);
    assert(w.subrange(0, 4) =~= be_u32_bytes(p.length as u32));
    assert(w.subrange(4, 8) =~= be_u32_bytes(p.version));
    assert(w.subrange(8, 12) =~= be_u32_bytes(p.action));
    assert(w.subrange(12, 16) =~= be_u32_bytes(p.param));
    assert(w.subrange(16, p.length as int) =~= body);
    match body_view(p.body) {
        Some(s) => {
            if s.len() == 0 {
                assert(s =~= Seq::<char>::empty());
            }
            lemma_nonempty_encoding(s);
        },
        None => {},
    }
}

/// Non-empty text takes at least one byte.
proof fn lemma_nonempty_encoding(s: Seq<char>)
    requires
        s.len() > 0,
    ensures
        encode_utf8(s).len() > 0,
{
    reveal_with_fuel(encode_utf8, 1);
    assert(vstd::utf8::encode_scalar(s[0] as u32).len() > 0);
}

proof fn lemma_join_body_ascii(room_id: u32, user_id: u32)
    ensures
        encode_utf8(join_body(room_id, user_id)).len() == join_body(room_id, user_id).len(),
        join_body(room_id, user_id).len() <= 40,
{
    reveal_strlit("{\"roomid\":");
    reveal_strlit(",\"uid\":");
    reveal_strlit("}");
    crate::utils::text::lemma_decimal_ascii(room_id as nat);
    crate::utils::text::lemma_decimal_ascii(user_id as nat);
    crate::utils::text::lemma_decimal_len_u32(room_id);
    crate::utils::text::lemma_decimal_len_u32(user_id);
    let b = join_body(room_id, user_id);
    assert(vstd::utf8::is_ascii_chars(b));
    vstd::utf8::is_ascii_chars_encode_utf8(b);
}

} // verus!
