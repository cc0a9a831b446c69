use vstd::prelude::*;
use vstd::slice::slice_subrange;
use vstd::utf8::{decode_utf8, encode_utf8, valid_utf8};

use crate::chat_id::{ChatIdentifier, ChatRef};

verus! {

broadcast use {
    vstd::utf8::encode_utf8_valid_utf8,
    vstd::utf8::encode_utf8_decode_utf8,
    vstd::utf8::decode_utf8_encode_utf8,
};

/// Tag byte that starts the key of a numeric chat handle.
pub const TAG_ID: u8 = 0;

/// Tag byte that starts the key of a channel username.
pub const TAG_CHANNEL: u8 = 1;

/// The eight little-endian bytes of `v`.
pub open spec fn le_bytes(v: u64) -> Seq<u8> {
    seq![
        v as u8,
        (v >> 8u64) as u8,
        (v >> 16u64) as u8,
        (v >> 24u64) as u8,
        (v >> 32u64) as u8,
        (v >> 40u64) as u8,
        (v >> 48u64) as u8,
        (v >> 56u64) as u8,
    ]
}

/// The integer whose little-endian bytes are the first eight of `b`.
pub open spec fn le_value(b: Seq<u8>) -> u64
    recommends
        b.len() >= 8,
{
    (b[0] as u64) | ((b[1] as u64) << 8u64) | ((b[2] as u64) << 16u64) | ((b[3] as u64) << 24u64)
        | ((b[4] as u64) << 32u64) | ((b[5] as u64) << 40u64) | ((b[6] as u64) << 48u64) | ((
    b[7] as u64) << 56u64)
}

/// The storage key of a chat identifier: a tag byte, then for a numeric
/// handle its eight little-endian bytes, and for a channel the eight-byte
/// little-endian length of the name's UTF-8 bytes followed by those bytes.
pub open spec fn key_of(id: ChatRef) -> Seq<u8> {
    match id {
        ChatRef::Id(n) => seq![TAG_ID] + le_bytes(n as u64),
        ChatRef::Channel(s) => seq![TAG_CHANNEL] + le_bytes(encode_utf8(s).len() as u64)
            + encode_utf8(s),
    }
}

/// The chat identifier that a storage key stands for, if it is well formed.
pub open spec fn id_of_key(k: Seq<u8>) -> Option<ChatRef> {
    if k.len() == 9 && k[0] == TAG_ID {
        Some(ChatRef::Id(le_value(k.subrange(1, 9)) as i64))
    } else if k.len() >= 9 && k[0] == TAG_CHANNEL && le_value(k.subrange(1, 9)) == k.len() - 9
        && valid_utf8(k.subrange(9, k.len() as int)) {
        Some(ChatRef::Channel(decode_utf8(k.subrange(9, k.len() as int))))
    } else {
        None
    }
}

/// What bincode's fixed-width framing of a string yields on `b`: the
/// payload after the eight-byte length, where that payload is present and
/// is UTF-8.
pub open spec fn framed_str(b: Seq<u8>) -> Option<Seq<char>> {
    if b.len() >= 8 && le_value(b) <= b.len() - 8 && valid_utf8(
        b.subrange(8, 8 + le_value(b) as int),
    ) {
        Some(decode_utf8(b.subrange(8, 8 + le_value(b) as int)))
    } else {
        None
    }
}

/// Relies on `bincode::serialize` (1.x defaults: fixed-width little-endian
/// integers) for an `i64`. Writing into a `Vec` with no size limit cannot
/// fail, so the error arm is never taken.
#[verifier::external_body]
fn serialize_i64(n: i64) -> (r: Vec<u8>)
    ensures
        r@ == le_bytes(n as u64),
{
    bincode::serialize(&n).unwrap_or_default()
}

/// Relies on `bincode::serialize` (1.x defaults) for a `str`: its byte
/// length as a little-endian `u64`, then its UTF-8 bytes. Writing into a
/// `Vec` with no size limit cannot fail.
#[verifier::external_body]
fn serialize_str(s: &str) -> (r: Vec<u8>)
    ensures
        r@ == le_bytes(encode_utf8(s@).len() as u64) + encode_utf8(s@),
{
    bincode::serialize(s).unwrap_or_default()
}

/// Relies on `bincode::deserialize::<i64>` (1.x defaults, trailing bytes
/// allowed): it reads the first eight bytes as a little-endian integer and
/// fails when there are fewer.
#[verifier::external_body]
fn deserialize_i64(b: &[u8]) -> (r: Option<i64>)
    ensures
        r is Some <==> b@.len() >= 8,
        r matches Some(n) ==> n as u64 == le_value(b@),
{
    bincode::deserialize::<i64>(b).ok()
}

/// Relies on `bincode::deserialize::<String>` (1.x defaults, trailing bytes
/// allowed): an eight-byte little-endian length, then that many bytes,
/// which must be UTF-8.
#[verifier::external_body]
fn deserialize_string(b: &[u8]) -> (r: Option<String>)
    ensures
        r is Some <==> framed_str(b@) is Some,
        r matches Some(s) ==> framed_str(b@) == Some(s@),
{
    bincode::deserialize::<String>(b).ok()
}

proof fn lemma_le_value_of_bytes(v: u64)
    ensures
        le_value(le_bytes(v)) == v,
{
    let b = le_bytes(v);
    let (b0, b1, b2, b3, b4, b5, b6, b7) = (b[0], b[1], b[2], b[3], b[4], b[5], b[6], b[7]);
    assert(b0 == v as u8 && b1 == (v >> 8u64) as u8 && b2 == (v >> 16u64) as u8 && b3 == (v
        >> 24u64) as u8 && b4 == (v >> 32u64) as u8 && b5 == (v >> 40u64) as u8 && b6 == (v
        >> 48u64) as u8 && b7 == (v >> 56u64) as u8);
    assert((v as u8 as u64) | (((v >> 8u64) as u8 as u64) << 8u64) | (((v >> 16u64) as u8
        as u64) << 16u64) | (((v >> 24u64) as u8 as u64) << 24u64) | (((v >> 32u64) as u8
        as u64) << 32u64) | (((v >> 40u64) as u8 as u64) << 40u64) | (((v >> 48u64) as u8
        as u64) << 48u64) | (((v >> 56u64) as u8 as u64) << 56u64) == v) by (bit_vector);
}

proof fn lemma_bytes_of_le_value(b: Seq<u8>)
    requires
        b.len() == 8,
    ensures
        le_bytes(le_value(b)) == b,
{
    let (b0, b1, b2, b3, b4, b5, b6, b7) = (b[0], b[1], b[2], b[3], b[4], b[5], b[6], b[7]);
    let v = le_value(b);
    assert(v == (b0 as u64) | ((b1 as u64) << 8u64) | ((b2 as u64) << 16u64) | ((b3 as u64)
        << 24u64) | ((b4 as u64) << 32u64) | ((b5 as u64) << 40u64) | ((b6 as u64) << 48u64)
        | ((b7 as u64) << 56u64));
    assert(v as u8 == b0 && (v >> 8u64) as u8 == b1 && (v >> 16u64) as u8 == b2 && (v
        >> 24u64) as u8 == b3 && (v >> 32u64) as u8 == b4 && (v >> 40u64) as u8 == b5 && (v
        >> 48u64) as u8 == b6 && (v >> 56u64) as u8 == b7) by (bit_vector)
        requires
            v == (b0 as u64) | ((b1 as u64) << 8u64) | ((b2 as u64) << 16u64) | ((b3 as u64)
                << 24u64) | ((b4 as u64) << 32u64) | ((b5 as u64) << 40u64) | ((b6 as u64)
                << 48u64) | ((b7 as u64) << 56u64),
    ;
    assert(le_bytes(v) =~= b);
}

proof fn lemma_i64_u64_cast(n: i64)
    ensures
        (n as u64) as i64 == n,
{
    assert((n as u64) as i64 == n) by (bit_vector);
}

proof fn lemma_u64_i64_cast(v: u64)
    ensures
        (v as i64) as u64 == v,
{
    assert((v as i64) as u64 == v) by (bit_vector);
}

/// Whether an identifier can exist in memory: a channel name's UTF-8 bytes
/// are counted by a `u64`.
pub open spec fn representable(id: ChatRef) -> bool {
    match id {
        ChatRef::Id(_) => true,
        ChatRef::Channel(s) => encode_utf8(s).len() <= u64::MAX,
    }
}

/// Every identifier is recovered from its key: `decode(encode(x)) == x`.
pub proof fn lemma_key_round_trip(id: ChatRef)
    requires
        representable(id),
    ensures
        id_of_key(key_of(id)) == Some(id),
{
    let k = key_of(id);
    match id {
        ChatRef::Id(n) => {
            lemma_le_value_of_bytes(n as u64);
            lemma_i64_u64_cast(n);
            assert(k.subrange(1, 9) =~= le_bytes(n as u64));
        },
        ChatRef::Channel(s) => {
            let len = encode_utf8(s).len();
            lemma_le_value_of_bytes(len as u64);
            assert(k.subrange(1, 9) =~= le_bytes(len as u64));
            assert(k.subrange(9, k.len() as int) =~= encode_utf8(s));
        },
    }
}

/// Keys are canonical: a key that decodes to `x` is the key of `x`, so two
/// distinct keys never stand for the same identifier.
pub proof fn lemma_key_canonical(k: Seq<u8>)
    requires
        id_of_key(k) is Some,
    ensures
        key_of(id_of_key(k)->0) == k,
        representable(id_of_key(k)->0),
{
    lemma_bytes_of_le_value(k.subrange(1, 9));
    if k[0] == TAG_ID {
        lemma_u64_i64_cast(le_value(k.subrange(1, 9)));
        assert(k =~= seq![TAG_ID] + k.subrange(1, 9));
    } else {
        let p = k.subrange(9, k.len() as int);
        assert(encode_utf8(decode_utf8(p)) == p);
        assert(k =~= seq![TAG_CHANNEL] + k.subrange(1, 9) + p);
    }
}

/// The storage key of `id`.
pub fn encode(id: &ChatIdentifier) -> (r: Vec<u8>)
    ensures
        r@ == key_of(id@),
        representable(id@),
{
    let mut k: Vec<u8> = Vec::new();
    match id {
        ChatIdentifier::Id(n) => {
            k.push(TAG_ID);
            let mut b = serialize_i64(*n);
            k.append(&mut b);
            assert(k@ =~= key_of(id@));
        },
        ChatIdentifier::ChannelUsername(s) => {
            // the length of the name's bytes is a usize, so it fits in a u64
            let bytes = s.as_str().as_bytes();
            let _len: usize = bytes.len();
            k.push(TAG_CHANNEL);
            let mut b = serialize_str(s.as_str());
            k.append(&mut b);
            assert(k@ =~= key_of(id@));
        },
    }
    k
}

/// The identifier a storage key stands for, or `None` for a key that no
/// identifier encodes to.
pub fn decode(k: &[u8]) -> (r: Option<ChatIdentifier>)
    ensures
        match r {
            Some(x) => id_of_key(k@) == Some(x@),
            None => id_of_key(k@) is None,
        },
{
    let n = k.len();
    if n < 9 {
        return None;
    }
    let rest = slice_subrange(k, 1, n);
    assert(rest@.subrange(0, 8) =~= k@.subrange(1, 9));
    assert(forall|i: int| 0 <= i < 8 ==> rest@[i] == k@.subrange(1, 9)[i]);
    assert(le_value(rest@) == le_value(k@.subrange(1, 9)));
    if k[0] == TAG_ID {
        if n != 9 {
            return None;
        }
        match deserialize_i64(rest) {
            Some(v) => {
                proof { lemma_i64_u64_cast(v); }
                Some(ChatIdentifier::Id(v))
            },
            None => None,
        }
    } else if k[0] == TAG_CHANNEL {
        assert(rest@.subrange(8, 8 + (n - 9)) =~= k@.subrange(9, n as int));
        match deserialize_string(rest) {
            Some(s) => {
                let len = s.as_str().len();
                let ghost p = rest@.subrange(8, 8 + le_value(rest@) as int);
                assert(encode_utf8(s@) == p);
                if len == n - 9 {
                    Some(ChatIdentifier::ChannelUsername(s))
                } else {
                    None
                }
            },
            None => None,
        }
    } else {
        None
    }
}

} // verus!
