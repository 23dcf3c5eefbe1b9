use vstd::prelude::*;
use vstd::string::StrSliceExecFns;
use vstd::utf8::{
    decode_utf8, encode_utf8, encode_utf8_decode_utf8, encode_utf8_valid_utf8, valid_utf8,
};
use crate::error::AgentError;

verus! {

/// Greatest payload length a frame can declare: its length prefix is two bytes.
pub const MAX_FRAME_LEN: usize = 65535;

/// Payload length declared by the two length-prefix bytes, big endian.
pub open spec fn frame_len_spec(hi: u8, lo: u8) -> int {
    hi as int * 256 + lo as int
}

/// The buffer holds one complete frame: the two-byte length prefix and at
/// least as many payload bytes as the prefix declares.
pub open spec fn frame_complete(buf: Seq<u8>) -> bool {
    buf.len() >= 2 && buf.len() >= 2 + frame_len_spec(buf[0], buf[1])
}

/// The payload bytes of the frame at the head of the buffer.
pub open spec fn frame_payload_spec(buf: Seq<u8>) -> Seq<u8>
    recommends
        frame_complete(buf),
{
    buf.subrange(2, 2 + frame_len_spec(buf[0], buf[1]))
}

/// Number of bytes the frame at the head of the buffer occupies.
pub open spec fn frame_size_spec(buf: Seq<u8>) -> int
    recommends
        buf.len() >= 2,
{
    2 + frame_len_spec(buf[0], buf[1])
}

/// The wire encoding of a payload: its length as two big-endian bytes,
/// then the payload itself.
pub open spec fn encode_frame_spec(payload: Seq<u8>) -> Seq<u8>
    recommends
        payload.len() <= MAX_FRAME_LEN,
{
    seq![(payload.len() / 256) as u8, (payload.len() % 256) as u8] + payload
}

/// Decoding inverts encoding: the frame built from any payload of up to
/// 65535 bytes is complete, yields exactly that payload back, and occupies
/// the payload's length plus the two prefix bytes.
pub proof fn lemma_frame_round_trip(payload: Seq<u8>)
    requires
        payload.len() <= MAX_FRAME_LEN,
    ensures
        frame_complete(encode_frame_spec(payload)),
        frame_payload_spec(encode_frame_spec(payload)) == payload,
        frame_size_spec(encode_frame_spec(payload)) == payload.len() + 2,
{
    let n = payload.len() as int;
    vstd::arithmetic::div_mod::lemma_fundamental_div_mod(n, 256);
    let e = encode_frame_spec(payload);
    assert(0 <= n / 256 < 256);
    assert(0 <= n % 256 < 256);
    assert(e[0] == (n / 256) as u8);
    assert(e[1] == (n % 256) as u8);
    assert(frame_len_spec(e[0], e[1]) == n);
    assert(frame_payload_spec(e) =~= payload);
}

/// Framing round-trips every string: for any character sequence whose
/// UTF-8 encoding fits in 65535 bytes, the frame built from it is
/// complete, its payload is valid UTF-8, and decoding the payload yields
/// exactly the original characters.
pub proof fn lemma_string_frame_round_trip(s: Seq<char>)
    requires
        encode_utf8(s).len() <= MAX_FRAME_LEN,
    ensures
        frame_complete(encode_frame_spec(encode_utf8(s))),
        frame_payload_spec(encode_frame_spec(encode_utf8(s))) == encode_utf8(s),
        valid_utf8(frame_payload_spec(encode_frame_spec(encode_utf8(s)))),
        decode_utf8(frame_payload_spec(encode_frame_spec(encode_utf8(s)))) == s,
{
    lemma_frame_round_trip(encode_utf8(s));
    encode_utf8_valid_utf8(s);
    encode_utf8_decode_utf8(s);
}

/// Payload length read from the two length-prefix bytes.
pub fn frame_len(hi: u8, lo: u8) -> (n: usize)
    ensures
        n == frame_len_spec(hi, lo),
        n <= MAX_FRAME_LEN,
{
    (hi as usize) * 256 + (lo as usize)
}

/// Relies on String::from_utf8: it returns Ok exactly when the bytes are
/// valid UTF-8, and then the string holds the characters those bytes encode.
#[verifier::external_body]
fn utf8_to_string(bytes: Vec<u8>) -> (r: Option<String>)
    ensures
        r is Some <==> valid_utf8(bytes@),
        r matches Some(s) ==> s@ == decode_utf8(bytes@),
{
    String::from_utf8(bytes).ok()
}

/// Turns the payload bytes of one frame into its string. A payload that is
/// not valid UTF-8 makes the frame invalid even when its declared length
/// matches, and is a protocol violation.
pub fn string_of_payload(payload: Vec<u8>) -> (r: Result<String, AgentError>)
    ensures
        r is Ok <==> valid_utf8(payload@),
        r matches Ok(s) ==> s@ == decode_utf8(payload@),
        !valid_utf8(payload@) ==> r == Err::<String, AgentError>(AgentError::Protocol),
{
    match utf8_to_string(payload) {
        Some(s) => Ok(s),
        None => Err(AgentError::Protocol),
    }
}

/// Decodes the frame at the head of `buf`: reads the two-byte big-endian
/// length, takes that many payload bytes, and decodes them as UTF-8. On
/// success the string and the number of bytes consumed come back. A buffer
/// shorter than the declared frame means the stream ended early (`Io`); a
/// payload that is not valid UTF-8 is a protocol violation (`Protocol`).
pub fn decode_frame(buf: &Vec<u8>) -> (r: Result<(String, usize), AgentError>)
    ensures
        !frame_complete(buf@) ==> r == Err::<(String, usize), AgentError>(AgentError::Io),
        frame_complete(buf@) && !valid_utf8(frame_payload_spec(buf@)) ==> r == Err::<
            (String, usize),
            AgentError,
        >(AgentError::Protocol),
        frame_complete(buf@) && valid_utf8(frame_payload_spec(buf@)) ==> (r matches Ok(p)
            && p.0@ == decode_utf8(frame_payload_spec(buf@)) && p.1 == frame_size_spec(buf@)),
{
    if buf.len() < 2 {
        return Err(AgentError::Io);
    }
    let n = frame_len(buf[0], buf[1]);
    if buf.len() < 2 + n {
        return Err(AgentError::Io);
    }
    let mut payload: Vec<u8> = Vec::new();
    let mut i: usize = 2;
    while i < 2 + n
        invariant
            2 <= i <= 2 + n,
            n == frame_len_spec(buf@[0], buf@[1]),
            2 + n <= buf@.len(),
            payload@ == buf@.subrange(2, i as int),
        decreases 2 + n - i,
    {
        payload.push(buf[i]);
        assert(buf@.subrange(2, i + 1 as int) =~= buf@.subrange(2, i as int).push(buf@[i as int]));
        i = i + 1;
    }
    assert(payload@ =~= frame_payload_spec(buf@));
    match string_of_payload(payload) {
        Ok(s) => Ok((s, 2 + n)),
        Err(e) => Err(e),
    }
}

/// Encodes a string as one frame: two big-endian length bytes, then its
/// UTF-8 bytes. A string of more than 65535 bytes cannot be framed and is
/// rejected here, before anything is emitted. A frame this function builds
/// always decodes back to the same string.
pub fn encode_frame(s: &str) -> (r: Option<Vec<u8>>)
    ensures
        r is Some <==> encode_utf8(s@).len() <= MAX_FRAME_LEN,
        r matches Some(v) ==> {
            &&& v@ == encode_frame_spec(encode_utf8(s@))
            &&& frame_complete(v@)
            &&& frame_payload_spec(v@) == encode_utf8(s@)
            &&& valid_utf8(frame_payload_spec(v@))
            &&& decode_utf8(frame_payload_spec(v@)) == s@
        },
{
    let bytes: Vec<u8> = s.as_bytes_vec();
    if bytes.len() > MAX_FRAME_LEN {
        return None;
    }
    let hi: u8 = (bytes.len() / 256) as u8;
    let lo: u8 = (bytes.len() % 256) as u8;
    let mut v: Vec<u8> = Vec::new();
    v.push(hi);
    v.push(lo);
    let mut i: usize = 0;
    while i < bytes.len()
        invariant
            i <= bytes@.len(),
            bytes@ == encode_utf8(s@),
            bytes@.len() <= MAX_FRAME_LEN,
            hi == (bytes@.len() / 256) as u8,
            lo == (bytes@.len() % 256) as u8,
            v@ == seq![hi, lo] + bytes@.subrange(0, i as int),
        decreases bytes@.len() - i,
    {
        v.push(bytes[i]);
        assert(bytes@.subrange(0, i + 1 as int) =~= bytes@.subrange(0, i as int).push(
            bytes@[i as int],
        ));
        i = i + 1;
    }
    proof {
        encode_utf8_valid_utf8(s@);
        encode_utf8_decode_utf8(s@);
        lemma_frame_round_trip(bytes@);
        assert(bytes@.subrange(0, bytes@.len() as int) =~= bytes@);
        assert(v@ =~= encode_frame_spec(bytes@));
    }
    Some(v)
}

} // verus!
