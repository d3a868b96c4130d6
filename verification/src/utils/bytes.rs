//! Big-endian integers and UTF-8 text on the wire.
use byteorder::ByteOrder;
use vstd::prelude::*;

verus! {

/// The unsigned integer that the first four bytes of `b` spell in
/// big-endian order.
pub open spec fn be_u32_value(b: Seq<u8>) -> int {
    b[0] * 16777216 + b[1] * 65536 + b[2] * 256 + b[3]
}

/// The four bytes of `n` in big-endian order, most significant first.
pub open spec fn be_u32_bytes(n: u32) -> Seq<u8> {
    seq![
        (n / 16777216) as u8,
        ((n / 65536) % 256) as u8,
        ((n / 256) % 256) as u8,
        (n % 256) as u8,
    ]
}

/// Reading back the four bytes written for `n` gives `n`.
pub proof fn lemma_be_u32_roundtrip(n: u32)
    ensures
        be_u32_bytes(n).len() == 4,
        be_u32_value(be_u32_bytes(n)) == n,
{
    let b = be_u32_bytes(n);
    assert(b[0] == n / 16777216);
    assert(b[1] == (n / 65536) % 256);
    assert(b[2] == (n / 256) % 256);
    assert(b[3] == n % 256);
}

/// Big-endian order: the last byte is the lowest, a number below 256 takes
/// only the last byte, and a bigger value in the first byte means a bigger
/// number.
pub proof fn lemma_be_u32_order(n: u32, m: u32)
    ensures
        be_u32_bytes(n)[3] == n % 256,
        n < 256 ==> be_u32_bytes(n) == seq![0u8, 0u8, 0u8, n as u8],
        be_u32_bytes(n)[0] < be_u32_bytes(m)[0] ==> n < m,
{
    if n < 256 {
        assert(be_u32_bytes(n) =~= seq![0u8, 0u8, 0u8, n as u8]);
    }
}

/// `byteorder::BigEndian::read_u32`: the big-endian value of the first four
/// bytes of `buf`. The call panics on a shorter slice, which `requires`
/// leaves out.
#[verifier::external_body]
pub(crate) fn read_be_u32(buf: &[u8]) -> (r: u32)
    requires
        buf@.len() >= 4,
    ensures
        r == be_u32_value(buf@),
{
    byteorder::BigEndian::read_u32(buf)
}

/// `byteorder::BigEndian::write_u32` into a fresh four-byte buffer: the
/// bytes of `n`, most significant first.
#[verifier::external_body]
pub(crate) fn write_be_u32(n: u32) -> (r: [u8; 4])
    ensures
        r@ == be_u32_bytes(n),
{
    let mut buf = [0u8; 4];
    byteorder::BigEndian::write_u32(&mut buf, n);
    buf
}

/// `core::str::from_utf8`: succeeds exactly on valid UTF-8, and then the
/// text encodes back to exactly the input bytes.
#[verifier::external_body]
pub(crate) fn utf8_str(bytes: &[u8]) -> (r: Option<&str>)
    ensures
        r is Some <==> vstd::utf8::valid_utf8(bytes@),
        r matches Some(s) ==> vstd::utf8::encode_utf8(s@) == bytes@,
{
    core::str::from_utf8(bytes).ok()
}

/// The bytes of `text` in the GB18030 encoding.
pub uninterp spec fn gb18030_bytes(text: Seq<char>) -> Seq<u8>;

/// `encoding_rs::GB18030.encode`: the bytes of `text` in GB18030, which can
/// encode every character. The encoding is ASCII-compatible, and encoding_rs
/// hands ASCII-only text back unchanged. Its buffer-size arithmetic (about
/// three bytes per input byte, rounded up to a power of two) overflows and
/// panics on text above an eighth of the address space, which `requires`
/// leaves out.
#[verifier::external_body]
pub(crate) fn encode_gb18030(text: &str) -> (r: Vec<u8>)
    requires
        vstd::utf8::encode_utf8(text@).len() <= usize::MAX / 8,
    ensures
        r@ == gb18030_bytes(text@),
        vstd::utf8::is_ascii_chars(text@) ==> r@ == vstd::utf8::encode_utf8(text@),
{
    encoding_rs::GB18030.encode(text).0.into_owned()
}

/// UTF-8 takes at most four bytes per character.
pub proof fn lemma_utf8_len_bound(s: Seq<char>)
    ensures
        vstd::utf8::encode_utf8(s).len() <= 4 * s.len(),
    decreases s.len(),
{
    if s.len() > 0 {
        lemma_utf8_len_bound(s.drop_first());
        assert(vstd::utf8::encode_scalar(s[0] as u32).len() <= 4);
    }
}

} // verus!
