//! The Protocol Buffers wire form of a length-delimited field.
//!
//! The bytes themselves are written by `prost`; this module says what they
//! are, decides whether they fit in a buffer, and shows that they can be read
//! back.

use vstd::prelude::*;

verus! {

/// The least field number a message may use.
pub const MIN_TAG: u32 = 1;

/// The greatest field number a message may use.
pub const MAX_TAG: u32 = 0x1FFF_FFFF;

/// The base-128 form of `n`: seven bits to a byte, least significant group
/// first, the high bit set on every byte but the last.
pub open spec fn varint(n: nat) -> Seq<u8>
    decreases n,
{
    if n < 128 {
        seq![n as u8]
    } else {
        seq![(128 + n % 128) as u8] + varint(n / 128)
    }
}

/// The key that opens a length-delimited field with number `tag`.
pub open spec fn field_key(tag: nat) -> nat {
    tag * 8 + 2
}

/// A length-delimited field: its key, the length of its body, its body.
pub open spec fn field(tag: nat, body: Seq<u8>) -> Seq<u8> {
    varint(field_key(tag)) + varint(body.len()) + body
}

/// The most bytes a growable byte buffer holds.
pub open spec fn buffer_limit() -> nat {
    (usize::MAX / 2) as nat
}

/// Why a message was not encoded: it needs `required` bytes where the buffer
/// takes `remaining`.
#[derive(Clone, Copy, Debug, PartialEq, Eq)]
pub struct EncodeError {
    pub required: usize,
    pub remaining: usize,
}

/// The number of bytes of `varint(value)`, as `prost::encoding::encoded_len_varint`
/// counts them. Trusted: that the count is that of the base-128 form.
#[verifier::external_body]
fn varint_len(value: u64) -> (len: usize)
    ensures
        len == varint(value as nat).len(),
{
    prost::encoding::encoded_len_varint(value)
}

/// Appends one length-delimited field to `buf` with
/// `prost::encoding::bytes::encode`. Trusted: that what is appended is the
/// field's key, the length of `body` and `body`, each length in base 128, and
/// that nothing already in `buf` changes. The field number must be one the
/// wire form admits, and the buffer must be able to take the field.
#[verifier::external_body]
fn put_field(tag: u32, body: &Vec<u8>, buf: &mut Vec<u8>)
    requires
        MIN_TAG <= tag <= MAX_TAG,
        old(buf)@.len() + field(tag as nat, body@).len() <= buffer_limit(),
    ensures
        final(buf)@ == old(buf)@ + field(tag as nat, body@),
{
    prost::encoding::bytes::encode(tag, body, buf);
}

/// The length of `field(tag, body)` for a body of `body_len` bytes, capped at
/// `usize::MAX`.
pub open spec fn field_len_capped(tag: nat, body_len: nat) -> nat {
    let len = varint(field_key(tag)).len() + varint(body_len).len() + body_len;
    if len <= usize::MAX {
        len
    } else {
        usize::MAX as nat
    }
}

/// Counts the bytes that a length-delimited field with number `tag` and a
/// body of `body_len` bytes takes on the wire, saturating at `usize::MAX`.
pub fn field_len(tag: u32, body_len: usize) -> (len: usize)
    requires
        MIN_TAG <= tag <= MAX_TAG,
    ensures
        len == field_len_capped(tag as nat, body_len as nat),
{
    let key: u32 = tag * 8 + 2;
    let key_len = varint_len(key as u64);
    let prefix_len = varint_len(body_len as u64);
    proof {
        lemma_varint_len_u64(key as nat);
        lemma_varint_len_u64(body_len as nat);
    }
    (key_len + prefix_len).saturating_add(body_len)
}

/// Encodes one length-delimited field into a buffer of its own.
///
/// Fails, and encodes nothing, exactly when the field is longer than a buffer
/// can be; the error then tells the length needed and the length at hand.
pub fn encode_field(tag: u32, body: &Vec<u8>) -> (r: Result<Vec<u8>, EncodeError>)
    requires
        MIN_TAG <= tag <= MAX_TAG,
    ensures
        match r {
            Ok(bytes) => bytes@ == field(tag as nat, body@) && bytes@.len() <= buffer_limit(),
            Err(e) => {
                &&& field(tag as nat, body@).len() > buffer_limit()
                &&& e.required == field_len_capped(tag as nat, body@.len())
                &&& e.remaining == buffer_limit()
            },
        },
{
    let required = field_len(tag, body.len());
    let remaining: usize = usize::MAX / 2;
    if required > remaining {
        return Err(EncodeError { required, remaining });
    }
    let mut buf: Vec<u8> = Vec::new();
    put_field(tag, body, &mut buf);
    Ok(buf)
}

/// A varint of a 64-bit value has between one and ten bytes.
pub proof fn lemma_varint_len_u64(n: nat)
    requires
        n <= u64::MAX,
    ensures
        1 <= varint(n).len() <= 10,
{
    let n1 = n / 128;
    let n2 = n1 / 128;
    let n3 = n2 / 128;
    let n4 = n3 / 128;
    let n5 = n4 / 128;
    let n6 = n5 / 128;
    let n7 = n6 / 128;
    let n8 = n7 / 128;
    let n9 = n8 / 128;
    assert(n9 < 128);
    assert(varint(n9).len() == 1);
    assert(varint(n8).len() <= 2);
    assert(varint(n7).len() <= 3);
    assert(varint(n6).len() <= 4);
    assert(varint(n5).len() <= 5);
    assert(varint(n4).len() <= 6);
    assert(varint(n3).len() <= 7);
    assert(varint(n2).len() <= 8);
    assert(varint(n1).len() <= 9);
}

/// Reads one varint from the front of `bytes`: the number it stands for and
/// how many bytes it took, or nothing where `bytes` ends inside it.
pub open spec fn parse_varint(bytes: Seq<u8>) -> Option<(nat, nat)>
    decreases bytes.len(),
{
    if bytes.len() == 0 {
        None
    } else if bytes[0] < 128 {
        Some((bytes[0] as nat, 1nat))
    } else {
        match parse_varint(bytes.skip(1)) {
            Some((high, used)) => Some(((bytes[0] - 128 + 128 * high) as nat, used + 1)),
            None => None,
        }
    }
}

/// Reads `bytes` as exactly one length-delimited field: its number and its
/// body, or nothing where `bytes` is anything else.
pub open spec fn parse_field(bytes: Seq<u8>) -> Option<(nat, Seq<u8>)> {
    match parse_varint(bytes) {
        Some((key, key_len)) => match parse_varint(bytes.skip(key_len as int)) {
            Some((body_len, prefix_len)) => {
                if key % 8 == 2 && bytes.len() == key_len + prefix_len + body_len {
                    Some((key / 8, bytes.skip((key_len + prefix_len) as int)))
                } else {
                    None
                }
            },
            None => None,
        },
        None => None,
    }
}

/// Reading a varint back gives the number it was written from, whatever
/// follows it.
pub proof fn lemma_parse_varint(n: nat, tail: Seq<u8>)
    ensures
        parse_varint(varint(n) + tail) == Some((n, varint(n).len())),
    decreases n,
{
    let bytes = varint(n) + tail;
    if n < 128 {
        assert(bytes[0] == n as u8);
    } else {
        let rest = varint(n / 128);
        assert(bytes[0] == (128 + n % 128) as u8);
        assert(bytes.skip(1) =~= rest + tail);
        lemma_parse_varint(n / 128, tail);
    }
}

/// Reading a field back gives the number and the body it was written from.
pub proof fn lemma_parse_field(tag: nat, body: Seq<u8>)
    ensures
        parse_field(field(tag, body)) == Some((tag, body)),
{
    let key = varint(field_key(tag));
    let prefix = varint(body.len());
    let bytes = field(tag, body);
    assert(bytes =~= key + (prefix + body));
    lemma_parse_varint(field_key(tag), prefix + body);
    assert(bytes.skip(key.len() as int) =~= prefix + body);
    lemma_parse_varint(body.len(), body);
    assert(bytes.skip((key.len() + prefix.len()) as int) =~= body);
}

} // verus!
