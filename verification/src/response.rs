//! Byte-level decoding of a chip reply: classification of the leading
//! response-code byte and extraction of the ASCII payload that follows it.

use vstd::prelude::*;

verus! {

/// Maximum ascii-character response size + 2
pub const MAX_RESPONSE_LENGTH: usize = 16;

/// Known response codes from EZO chip interactions.
///
/// `UnknownError` stands for every byte value the chip protocol does not
/// define, including the reserved byte 0, which no chip in the family
/// actually emits.
#[derive(Clone, Copy, Debug, PartialEq, Eq, Structural)]
pub enum ResponseCode {
    NoDataExpected,
    Pending,
    DeviceError,
    Success,
    UnknownError,
}

/// The classification of a response-code byte: the four defined code bytes
/// map to their named codes; every other byte is an unknown error.
pub open spec fn spec_response_code(code_byte: u8) -> ResponseCode {
    if code_byte == 0xff {
        ResponseCode::NoDataExpected
    } else if code_byte == 0xfe {
        ResponseCode::Pending
    } else if code_byte == 0x02 {
        ResponseCode::DeviceError
    } else if code_byte == 0x01 {
        ResponseCode::Success
    } else {
        ResponseCode::UnknownError
    }
}

/// Determines the response code sent by the EZO chip.
pub fn response_code(code_byte: u8) -> (code: ResponseCode)
    ensures
        code == spec_response_code(code_byte),
{
    match code_byte {
        0xff => ResponseCode::NoDataExpected,
        0xfe => ResponseCode::Pending,
        0x02 => ResponseCode::DeviceError,
        0x01 => ResponseCode::Success,
        _ => ResponseCode::UnknownError,
    }
}

/// A payload byte with the high bit cleared. Some chip revisions set the top
/// bit of transmitted bytes spuriously; clearing it is a no-op on genuine
/// ASCII payload bytes.
pub open spec fn mask_high_bit(b: u8) -> u8 {
    b & 0x7f
}

/// Every byte of the sequence with its high bit cleared.
pub open spec fn masked(s: Seq<u8>) -> Seq<u8> {
    s.map_values(|b: u8| mask_high_bit(b))
}

/// The payload carried by a buffer: the bytes before the first NUL
/// terminator, or the whole buffer when no terminator is present.
pub open spec fn payload(s: Seq<u8>) -> Seq<u8>
    decreases s.len(),
{
    if s.len() == 0 {
        s
    } else if s[0] == 0 {
        Seq::empty()
    } else {
        seq![s[0]] + payload(s.drop_first())
    }
}

/// The decoded form of a raw payload buffer: truncate at the first NUL, then
/// clear the high bit of every remaining byte.
pub open spec fn decoded_payload(s: Seq<u8>) -> Seq<u8> {
    masked(payload(s))
}

/// `payload` returns exactly the prefix that ends at the first zero byte
/// (or the whole sequence, when it holds no zero byte).
pub proof fn lemma_payload_is_prefix(s: Seq<u8>, k: int)
    requires
        0 <= k <= s.len(),
        forall|j: int| 0 <= j < k ==> s[j] != 0,
        k < s.len() ==> s[k] == 0,
    ensures
        payload(s) == s.take(k),
    decreases s.len(),
{
    if k == 0 {
        assert(payload(s) =~= s.take(0));
    } else {
        lemma_payload_is_prefix(s.drop_first(), k - 1);
        assert(payload(s) =~= s.take(k));
    }
}

/// Masking the high bits is idempotent: masking twice equals masking once.
pub proof fn lemma_masking_idempotent(s: Seq<u8>)
    ensures
        masked(masked(s)) == masked(s),
{
    assert(forall|b: u8| #[trigger] mask_high_bit(mask_high_bit(b)) == mask_high_bit(b))
        by (bit_vector);
    assert(masked(masked(s)) =~= masked(s));
}

/// Two buffers whose bytes agree on the low seven bits, and whose NUL
/// terminators sit at the same positions, decode to the same payload: bytes
/// with a spuriously set high bit decode exactly as their cleared
/// counterparts do.
pub proof fn lemma_high_bit_immaterial(s1: Seq<u8>, s2: Seq<u8>)
    requires
        s1.len() == s2.len(),
        forall|i: int| 0 <= i < s1.len() ==> mask_high_bit(s1[i]) == mask_high_bit(s2[i]),
        forall|i: int| 0 <= i < s1.len() ==> ((s1[i] == 0) <==> (s2[i] == 0)),
    ensures
        decoded_payload(s1) == decoded_payload(s2),
    decreases s1.len(),
{
    if s1.len() == 0 {
        assert(decoded_payload(s1) =~= decoded_payload(s2));
    } else if s1[0] == 0 {
        assert(decoded_payload(s1) =~= decoded_payload(s2));
    } else {
        lemma_high_bit_immaterial(s1.drop_first(), s2.drop_first());
        assert(masked(payload(s1)) =~= seq![mask_high_bit(s1[0])] + masked(
            payload(s1.drop_first()),
        ));
        assert(masked(payload(s2)) =~= seq![mask_high_bit(s2[0])] + masked(
            payload(s2.drop_first()),
        ));
        assert(decoded_payload(s1) =~= decoded_payload(s2));
    }
}

/// Every byte of a masked sequence lies in the ASCII range (below 0x80).
pub proof fn lemma_masked_is_ascii(s: Seq<u8>)
    ensures
        forall|i: int| 0 <= i < masked(s).len() ==> masked(s)[i] < 0x80,
{
    assert(forall|b: u8| #[trigger] mask_high_bit(b) < 0x80) by (bit_vector);
}

/// A sequence of ASCII bytes is valid UTF-8, and decodes to one character
/// per byte, each character carrying the byte's own code point.
pub proof fn lemma_ascii_bytes_valid_utf8(s: Seq<u8>)
    requires
        forall|i: int| 0 <= i < s.len() ==> s[i] < 0x80,
    ensures
        vstd::utf8::valid_utf8(s),
        vstd::utf8::decode_utf8(s) == s.map_values(|b: u8| b as char),
    decreases s.len(),
{
    if s.len() == 0 {
        assert(vstd::utf8::decode_utf8(s) =~= s.map_values(|b: u8| b as char));
    } else {
        let b = s[0];
        assert(b & 0x7f == b && b <= 0x7f) by (bit_vector)
            requires
                b < 0x80,
        ;
        assert(vstd::utf8::valid_first_scalar(s));
        assert(vstd::utf8::length_of_first_scalar(s) == 1);
        assert(vstd::utf8::pop_first_scalar(s) =~= s.drop_first());
        lemma_ascii_bytes_valid_utf8(s.drop_first());
        assert(vstd::utf8::valid_utf8(s));
        assert(vstd::utf8::decode_first_scalar(s) == b as u32);
        assert((b as u32) as char == b as char);
        assert(vstd::utf8::decode_utf8(s) =~= s.map_values(|x: u8| x as char));
    }
}

/// Read buffer from the hardware. Accepts a `flipping` flag for glitchy
/// hardware: with it set, the high bit of every byte is cleared.
pub fn read_hardware_buffer(buf: &[u8], flipping: bool) -> (r: Vec<u8>)
    ensures
        flipping ==> r@ == masked(buf@),
        !flipping ==> r@ == buf@,
{
    let mut out: Vec<u8> = Vec::new();
    let n = buf.len();
    let mut i: usize = 0;
    while i < n
        invariant
            n == buf@.len(),
            i <= n,
            flipping ==> out@ == masked(buf@.take(i as int)),
            !flipping ==> out@ == buf@.take(i as int),
        decreases n - i,
    {
        let b = *vstd::slice::slice_index_get(buf, i);
        if flipping {
            out.push(b & 0x7f);
        } else {
            out.push(b);
        }
        proof {
            assert(buf@.take(i + 1) =~= buf@.take(i as int).push(buf@[i as int]));
            if flipping {
                assert(masked(buf@.take(i + 1)) =~= masked(buf@.take(i as int)).push(
                    mask_high_bit(buf@[i as int]),
                ));
            }
        }
        i = i + 1;
    }
    proof {
        assert(buf@.take(n as int) =~= buf@);
    }
    out
}

/// Crude parser for the data string sent by the EZO chip: the bytes before
/// the first NUL terminator (or all of them, when none is present), each
/// with its high bit cleared.
pub fn parse_data_ascii_bytes(data_buffer: &[u8]) -> (r: Vec<u8>)
    ensures
        r@ == decoded_payload(data_buffer@),
{
    let n = data_buffer.len();
    let mut i: usize = 0;
    while i < n && *vstd::slice::slice_index_get(data_buffer, i) != 0
        invariant
            n == data_buffer@.len(),
            i <= n,
            forall|j: int| 0 <= j < i ==> data_buffer@[j] != 0,
        decreases n - i,
    {
        i = i + 1;
    }
    proof {
        lemma_payload_is_prefix(data_buffer@, i as int);
    }
    let prefix = vstd::slice::slice_subrange(data_buffer, 0, i);
    read_hardware_buffer(prefix, true)
}

} // verus!
