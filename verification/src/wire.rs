use crate::error::CodecError;
use crate::error::CodecErrorView;
use vstd::prelude::*;
use vstd::string::StrSliceExecFns;
use vstd::utf8::decode_utf8;
use vstd::utf8::encode_utf8;
use vstd::utf8::encode_utf8_decode_utf8;
use vstd::utf8::encode_utf8_valid_utf8;
use vstd::utf8::valid_utf8;

verus! {

/// The protocol version, threaded through every size, encode and decode call
/// so that the label and payload formats can evolve independently. No current
/// branch of the codec depends on its value.
pub type Version = i16;

/// The two big-endian bytes of a 16-bit length prefix.
pub open spec fn u16_be_bytes(n: u16) -> Seq<u8> {
    seq![(n / 256) as u8, (n % 256) as u8]
}

/// The 16-bit value read back from two big-endian bytes.
pub open spec fn u16_from_be(b0: u8, b1: u8) -> u16 {
    ((b0 as int) * 256 + (b1 as int)) as u16
}

/// Writing a 16-bit value big-endian and reading it back yields the value.
pub proof fn lemma_u16_be_round(n: u16)
    ensures
        u16_from_be(u16_be_bytes(n)[0], u16_be_bytes(n)[1]) == n,
{
}

/// The four big-endian bytes of a 32-bit value.
pub open spec fn u32_be_bytes(n: u32) -> Seq<u8> {
    u16_be_bytes((n / 65536) as u16) + u16_be_bytes((n % 65536) as u16)
}

/// The 32-bit value read back from four big-endian bytes.
pub open spec fn u32_from_be(b0: u8, b1: u8, b2: u8, b3: u8) -> u32 {
    ((u16_from_be(b0, b1) as int) * 65536 + (u16_from_be(b2, b3) as int)) as u32
}

/// Writing a 32-bit value big-endian and reading it back yields the value.
pub proof fn lemma_u32_be_round(n: u32)
    ensures
        u32_from_be(
            u32_be_bytes(n)[0],
            u32_be_bytes(n)[1],
            u32_be_bytes(n)[2],
            u32_be_bytes(n)[3],
        ) == n,
{
    let hi = (n / 65536) as u16;
    let lo = (n % 65536) as u16;
    lemma_u16_be_round(hi);
    lemma_u16_be_round(lo);
}

/// A 32-bit reinterpretation of a signed value and back yields the value.
pub proof fn lemma_i32_u32_round(i: i32)
    ensures
        ((i as u32) as i32) == i,
{
    assert(((i as u32) as i32) == i) by (bit_vector);
}

/// Whether a string fits the wire format: its UTF-8 byte length must be
/// expressible in the 16-bit length prefix.
pub open spec fn str_encodable(s: Seq<char>) -> bool {
    encode_utf8(s).len() <= 65535
}

/// The wire bytes of a string: a big-endian 16-bit byte-length prefix
/// followed by the string's UTF-8 bytes.
pub open spec fn spec_string_bytes(s: Seq<char>) -> Seq<u8>
    recommends
        str_encodable(s),
{
    u16_be_bytes(encode_utf8(s).len() as u16) + encode_utf8(s)
}

/// The result of decoding a string from the front of `bytes`: the decoded
/// characters and the number of bytes consumed, or the exact error.
pub open spec fn spec_read_str(bytes: Seq<u8>) -> Result<(Seq<char>, int), CodecErrorView> {
    if bytes.len() < 2 {
        Err(CodecErrorView::UnexpectedEnd)
    } else {
        let n = u16_from_be(bytes[0], bytes[1]) as int;
        if bytes.len() < 2 + n {
            Err(CodecErrorView::UnexpectedEnd)
        } else {
            let body = bytes.subrange(2, 2 + n);
            if valid_utf8(body) {
                Ok((decode_utf8(body), 2 + n))
            } else {
                Err(CodecErrorView::InvalidUtf8)
            }
        }
    }
}

/// Decoding the wire bytes of an encodable string, whatever follows them,
/// consumes exactly those bytes and yields the string back.
pub proof fn lemma_string_round_trip(s: Seq<char>, rest: Seq<u8>)
    requires
        str_encodable(s),
    ensures
        spec_read_str(spec_string_bytes(s) + rest) == Ok::<(Seq<char>, int), CodecErrorView>(
            (s, spec_string_bytes(s).len() as int),
        ),
{
    let enc = spec_string_bytes(s);
    let all = enc + rest;
    let len = encode_utf8(s).len() as u16;
    lemma_u16_be_round(len);
    assert(all[0] == u16_be_bytes(len)[0]);
    assert(all[1] == u16_be_bytes(len)[1]);
    assert(all.len() >= 2 + len as int);
    assert(all.subrange(2, 2 + len as int) =~= encode_utf8(s));
    encode_utf8_valid_utf8(s);
    encode_utf8_decode_utf8(s);
}

/// Relies on `String::from_utf8` of std: it succeeds exactly on valid UTF-8
/// input, and the returned string's characters are the decoded scalars.
#[verifier::external_body]
fn utf8_to_string(bytes: Vec<u8>) -> (r: Option<String>)
    ensures
        r is Some <==> valid_utf8(bytes@),
        r matches Some(s) ==> s@ == decode_utf8(bytes@),
{
    match String::from_utf8(bytes) {
        Ok(s) => Some(s),
        Err(_) => None,
    }
}

/// Whether a string fits the wire format's 16-bit length prefix.
pub fn string_fits(s: &str) -> (b: bool)
    ensures
        b == str_encodable(s@),
{
    let bytes: Vec<u8> = s.as_bytes_vec();
    bytes.len() <= 65535
}

/// The wire size of a string: the length prefix plus its UTF-8 bytes.
pub fn string_write_size(s: &str, _version: Version) -> (r: usize)
    requires
        str_encodable(s@),
    ensures
        r == spec_string_bytes(s@).len(),
{
    2 + s.len()
}

/// Appends the wire encoding of a string to `dest`.
pub fn encode_string(s: &str, dest: &mut Vec<u8>, _version: Version)
    requires
        str_encodable(s@),
    ensures
        final(dest)@ == old(dest)@ + spec_string_bytes(s@),
{
    let mut bytes: Vec<u8> = s.as_bytes_vec();
    let n: u16 = bytes.len() as u16;
    dest.push((n / 256) as u8);
    dest.push((n % 256) as u8);
    dest.append(&mut bytes);
    assert(final(dest)@ =~= old(dest)@ + spec_string_bytes(s@));
}

/// Decodes a string from `src` at `*pos`, advancing `*pos` past it on
/// success and leaving `*pos` unchanged on failure.
pub fn decode_string(src: &Vec<u8>, pos: &mut usize, _version: Version) -> (r: Result<
    String,
    CodecError,
>)
    requires
        *old(pos) <= src@.len(),
    ensures
        *old(pos) <= *final(pos) <= src@.len(),
        match spec_read_str(src@.subrange(*old(pos) as int, src@.len() as int)) {
            Ok((s, n)) => (r matches Ok(t) && t@ == s) && *final(pos) as int == *old(pos) + n,
            Err(e) => (r matches Err(ce) && ce@ == e) && *final(pos) == *old(pos),
        },
{
    let ghost rem = src@.subrange(*pos as int, src@.len() as int);
    let len = src.len();
    if len - *pos < 2 {
        return Err(CodecError::UnexpectedEnd);
    }
    let b0 = src[*pos];
    let b1 = src[*pos + 1];
    let n: usize = (b0 as usize) * 256 + (b1 as usize);
    assert(n == u16_from_be(rem[0], rem[1]) as int);
    if len - (*pos + 2) < n {
        return Err(CodecError::UnexpectedEnd);
    }
    let mut body: Vec<u8> = Vec::new();
    let mut i: usize = 0;
    while i < n
        invariant
            i <= n,
            *pos + 2 + n <= src@.len() <= usize::MAX,
            body@ =~= src@.subrange(*pos as int + 2, *pos as int + 2 + i as int),
        decreases n - i,
    {
        body.push(src[*pos + 2 + i]);
        i += 1;
    }
    assert(body@ =~= rem.subrange(2, 2 + n as int));
    match utf8_to_string(body) {
        Some(s) => {
            *pos = *pos + 2 + n;
            Ok(s)
        },
        None => Err(CodecError::InvalidUtf8),
    }
}

} // verus!
