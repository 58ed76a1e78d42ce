//! The byte format of instruction data, field by field: integers in little-endian
//! order, `bool` as one byte 0 or 1, an address as its 32 bytes, an optional value as
//! a tag byte 0 or 1 before the value, a byte string or a text as its length (`u32`)
//! before its bytes (the UTF-8 bytes for a text).
//!
//! Each field has an encoding (`enc_*`) and a parser (`parse_*`). A parser reads from
//! the front of a byte sequence and answers the value and the number of bytes used,
//! or `None` where the bytes are not a valid encoding.
use vstd::prelude::*;
use vstd::bytes::*;
use vstd::slice::*;
use vstd::string::*;
use vstd::utf8::*;
use crate::pubkey::Pubkey;

verus! {

broadcast use vstd::seq_lib::group_seq_properties;

/// Encoding of a `u16`.
pub open spec fn enc_u16(v: u16) -> Seq<u8> {
    spec_u16_to_le_bytes(v)
}

/// Encoding of a `u32`.
pub open spec fn enc_u32(v: u32) -> Seq<u8> {
    spec_u32_to_le_bytes(v)
}

/// Encoding of a `u64`.
pub open spec fn enc_u64(v: u64) -> Seq<u8> {
    spec_u64_to_le_bytes(v)
}

/// Encoding of a `bool`.
pub open spec fn enc_bool(b: bool) -> Seq<u8> {
    if b {
        seq![1u8]
    } else {
        seq![0u8]
    }
}

/// Encoding of an optional address.
pub open spec fn enc_option_key(k: Option<Seq<u8>>) -> Seq<u8> {
    match k {
        None => seq![0u8],
        Some(key) => seq![1u8] + key,
    }
}

/// Encoding of a byte string: its length, then its bytes.
pub open spec fn enc_bytes(b: Seq<u8>) -> Seq<u8> {
    enc_u32(b.len() as u32) + b
}

/// Encoding of a text: its UTF-8 bytes as a byte string.
pub open spec fn enc_string(s: Seq<char>) -> Seq<u8> {
    enc_bytes(encode_utf8(s))
}

/// A byte string whose length fits the `u32` length prefix.
pub open spec fn bytes_fit(b: Seq<u8>) -> bool {
    b.len() <= u32::MAX
}

/// A text whose UTF-8 length fits the `u32` length prefix.
pub open spec fn string_fits(s: Seq<char>) -> bool {
    bytes_fit(encode_utf8(s))
}

/// A value that is an address: 32 bytes.
pub open spec fn is_key(k: Seq<u8>) -> bool {
    k.len() == 32
}

pub open spec fn parse_u8(s: Seq<u8>) -> Option<(u8, int)> {
    if s.len() >= 1 {
        Some((s[0], 1))
    } else {
        None
    }
}

pub open spec fn parse_bool(s: Seq<u8>) -> Option<(bool, int)> {
    if s.len() >= 1 && s[0] <= 1 {
        Some((s[0] == 1, 1))
    } else {
        None
    }
}

pub open spec fn parse_u16(s: Seq<u8>) -> Option<(u16, int)> {
    if s.len() >= 2 {
        Some((spec_u16_from_le_bytes(s.subrange(0, 2)), 2))
    } else {
        None
    }
}

pub open spec fn parse_u32(s: Seq<u8>) -> Option<(u32, int)> {
    if s.len() >= 4 {
        Some((spec_u32_from_le_bytes(s.subrange(0, 4)), 4))
    } else {
        None
    }
}

pub open spec fn parse_u64(s: Seq<u8>) -> Option<(u64, int)> {
    if s.len() >= 8 {
        Some((spec_u64_from_le_bytes(s.subrange(0, 8)), 8))
    } else {
        None
    }
}

pub open spec fn parse_key(s: Seq<u8>) -> Option<(Seq<u8>, int)> {
    if s.len() >= 32 {
        Some((s.subrange(0, 32), 32))
    } else {
        None
    }
}

pub open spec fn parse_option_key(s: Seq<u8>) -> Option<(Option<Seq<u8>>, int)> {
    if s.len() >= 1 && s[0] == 0 {
        Some((None, 1))
    } else if s.len() >= 33 && s[0] == 1 {
        Some((Some(s.subrange(1, 33)), 33))
    } else {
        None
    }
}

pub open spec fn parse_bytes(s: Seq<u8>) -> Option<(Seq<u8>, int)> {
    match parse_u32(s) {
        Some((len, _)) => if s.len() >= 4 + len {
            Some((s.subrange(4, 4 + len), 4 + len))
        } else {
            None
        },
        None => None,
    }
}

pub open spec fn parse_string(s: Seq<u8>) -> Option<(Seq<char>, int)> {
    match parse_bytes(s) {
        Some((b, n)) => if valid_utf8(b) {
            Some((decode_utf8(b), n))
        } else {
            None
        },
        None => None,
    }
}

/// A reader's answer seen as a parser's: the value and the number of bytes used
/// from `pos` on.
pub open spec fn consumed<T>(r: Option<(T, usize)>, pos: usize) -> Option<(T, int)> {
    match r {
        Some((v, p)) => Some((v, p - pos)),
        None => None,
    }
}

// ---------------------------------------------------------------- encoding

pub fn put_u8(out: &mut Vec<u8>, v: u8)
    ensures
        final(out)@ == old(out)@ + seq![v],
{
    out.push(v);
}

pub fn put_bool(out: &mut Vec<u8>, b: bool)
    ensures
        final(out)@ == old(out)@ + enc_bool(b),
{
    if b {
        out.push(1u8);
    } else {
        out.push(0u8);
    }
}

pub fn put_u16(out: &mut Vec<u8>, v: u16)
    ensures
        final(out)@ == old(out)@ + enc_u16(v),
{
    let mut b = u16_to_le_bytes(v);
    out.append(&mut b);
}

pub fn put_u32(out: &mut Vec<u8>, v: u32)
    ensures
        final(out)@ == old(out)@ + enc_u32(v),
{
    let mut b = u32_to_le_bytes(v);
    out.append(&mut b);
}

pub fn put_u64(out: &mut Vec<u8>, v: u64)
    ensures
        final(out)@ == old(out)@ + enc_u64(v),
{
    let mut b = u64_to_le_bytes(v);
    out.append(&mut b);
}

/// Appends the bytes of `b` as they are.
pub fn put_raw(out: &mut Vec<u8>, b: &[u8])
    ensures
        final(out)@ == old(out)@ + b@,
{
    let ghost start = out@;
    let n = b.len();
    for i in 0..n
        invariant
            n == b@.len(),
            out@ == start + b@.subrange(0, i as int),
    {
        out.push(b[i]);
        assert(b@.subrange(0, i + 1) =~= b@.subrange(0, i as int).push(b@[i as int]));
    }
    assert(b@.subrange(0, n as int) =~= b@);
}

pub fn put_key(out: &mut Vec<u8>, k: &Pubkey)
    ensures
        final(out)@ == old(out)@ + k@,
{
    put_raw(out, k.0.as_slice());
}

pub fn put_option_key(out: &mut Vec<u8>, k: &Option<Pubkey>)
    ensures
        final(out)@ == old(out)@ + enc_option_key(
            match k {
                Some(key) => Some(key@),
                None => None,
            },
        ),
{
    match k {
        None => {
            out.push(0u8);
        },
        Some(key) => {
            let ghost start = out@;
            out.push(1u8);
            put_key(out, key);
            assert(out@ =~= start + (seq![1u8] + key@));
        },
    }
}

pub fn put_bytes(out: &mut Vec<u8>, b: &[u8])
    requires
        bytes_fit(b@),
    ensures
        final(out)@ == old(out)@ + enc_bytes(b@),
{
    let ghost start = out@;
    put_u32(out, b.len() as u32);
    put_raw(out, b);
    assert(out@ =~= start + enc_bytes(b@));
}

pub fn put_string(out: &mut Vec<u8>, s: &String)
    requires
        string_fits(s@),
    ensures
        final(out)@ == old(out)@ + enc_string(s@),
{
    let b = s.as_str().as_bytes();
    put_bytes(out, b);
}

// ---------------------------------------------------------------- decoding

pub fn read_u8(data: &[u8], pos: usize) -> (r: Option<(u8, usize)>)
    requires
        pos <= data@.len(),
    ensures
        consumed(r, pos) == parse_u8(data@.skip(pos as int)),
{
    if pos < data.len() {
        Some((data[pos], pos + 1))
    } else {
        None
    }
}

pub fn read_bool(data: &[u8], pos: usize) -> (r: Option<(bool, usize)>)
    requires
        pos <= data@.len(),
    ensures
        consumed(r, pos) == parse_bool(data@.skip(pos as int)),
{
    if pos < data.len() && data[pos] <= 1 {
        Some((data[pos] == 1, pos + 1))
    } else {
        None
    }
}

pub fn read_u16(data: &[u8], pos: usize) -> (r: Option<(u16, usize)>)
    requires
        pos <= data@.len(),
    ensures
        consumed(r, pos) == parse_u16(data@.skip(pos as int)),
{
    if data.len() - pos >= 2 {
        let v = u16_from_le_bytes(slice_subrange(data, pos, pos + 2));
        assert(data@.skip(pos as int).subrange(0, 2) =~= data@.subrange(pos as int, pos + 2));
        Some((v, pos + 2))
    } else {
        None
    }
}

pub fn read_u32(data: &[u8], pos: usize) -> (r: Option<(u32, usize)>)
    requires
        pos <= data@.len(),
    ensures
        consumed(r, pos) == parse_u32(data@.skip(pos as int)),
{
    if data.len() - pos >= 4 {
        let v = u32_from_le_bytes(slice_subrange(data, pos, pos + 4));
        assert(data@.skip(pos as int).subrange(0, 4) =~= data@.subrange(pos as int, pos + 4));
        Some((v, pos + 4))
    } else {
        None
    }
}

pub fn read_u64(data: &[u8], pos: usize) -> (r: Option<(u64, usize)>)
    requires
        pos <= data@.len(),
    ensures
        consumed(r, pos) == parse_u64(data@.skip(pos as int)),
{
    if data.len() - pos >= 8 {
        let v = u64_from_le_bytes(slice_subrange(data, pos, pos + 8));
        assert(data@.skip(pos as int).subrange(0, 8) =~= data@.subrange(pos as int, pos + 8));
        Some((v, pos + 8))
    } else {
        None
    }
}

/// Copies 32 bytes from `pos` on into an address; `pos + 32` must not pass the end.
fn key_at(data: &[u8], pos: usize) -> (k: Pubkey)
    requires
        pos + 32 <= data@.len(),
    ensures
        k@ == data@.subrange(pos as int, pos + 32),
{
    let mut arr = [0u8; 32];
    for i in 0..32usize
        invariant
            pos + 32 <= data@.len(),
            arr@.len() == 32,
            forall|j: int| 0 <= j < i ==> arr@[j] == data@[pos + j],
    {
        assert(pos + i < data.len());
        arr[i] = data[pos + i];
    }
    assert(arr@ =~= data@.subrange(pos as int, pos + 32));
    Pubkey(arr)
}

pub fn read_key(data: &[u8], pos: usize) -> (r: Option<(Pubkey, usize)>)
    requires
        pos <= data@.len(),
    ensures
        match (r, parse_key(data@.skip(pos as int))) {
            (Some((k, p)), Some((v, n))) => k@ == v && p == pos + n,
            (None, None) => true,
            _ => false,
        },
{
    if data.len() - pos >= 32 {
        let k = key_at(data, pos);
        assert(data@.skip(pos as int).subrange(0, 32) =~= data@.subrange(pos as int, pos + 32));
        Some((k, pos + 32))
    } else {
        None
    }
}

pub fn read_option_key(data: &[u8], pos: usize) -> (r: Option<(Option<Pubkey>, usize)>)
    requires
        pos <= data@.len(),
    ensures
        match (r, parse_option_key(data@.skip(pos as int))) {
            (Some((None, p)), Some((None, n))) => p == pos + n,
            (Some((Some(k), p)), Some((Some(v), n))) => k@ == v && p == pos + n,
            (None, None) => true,
            _ => false,
        },
{
    if pos < data.len() && data[pos] == 0 {
        Some((None, pos + 1))
    } else if data.len() - pos >= 33 && data[pos] == 1 {
        let k = key_at(data, pos + 1);
        assert(data@.skip(pos as int).subrange(1, 33) =~= data@.subrange(pos + 1, pos + 33));
        Some((Some(k), pos + 33))
    } else {
        None
    }
}

pub fn read_bytes(data: &[u8], pos: usize) -> (r: Option<(Vec<u8>, usize)>)
    requires
        pos <= data@.len(),
    ensures
        match (r, parse_bytes(data@.skip(pos as int))) {
            (Some((b, p)), Some((v, n))) => b@ == v && p == pos + n,
            (None, None) => true,
            _ => false,
        },
{
    match read_u32(data, pos) {
        None => None,
        Some((len, p)) => {
            let len = len as usize;
            if data.len() - p >= len {
                let b = slice_to_vec(slice_subrange(data, p, p + len));
                assert(data@.skip(pos as int).subrange(4, 4 + len) =~= data@.subrange(
                    p as int,
                    p + len,
                ));
                Some((b, p + len))
            } else {
                None
            }
        },
    }
}

/// Calls `String::from_utf8` (std).
/// Claims: it succeeds exactly on valid UTF-8 bytes, and the text then has the
/// characters that the bytes encode.
#[verifier::external_body]
fn string_from_utf8(bytes: Vec<u8>) -> (r: Option<String>)
    ensures
        r is Some <==> valid_utf8(bytes@),
        r matches Some(s) ==> s@ == decode_utf8(bytes@),
{
    String::from_utf8(bytes).ok()
}

pub fn read_string(data: &[u8], pos: usize) -> (r: Option<(String, usize)>)
    requires
        pos <= data@.len(),
    ensures
        match (r, parse_string(data@.skip(pos as int))) {
            (Some((s, p)), Some((v, n))) => s@ == v && p == pos + n,
            (None, None) => true,
            _ => false,
        },
{
    match read_bytes(data, pos) {
        None => None,
        Some((b, p)) => match string_from_utf8(b) {
            None => None,
            Some(s) => Some((s, p)),
        },
    }
}

// ---------------------------------------------------------------- laws of the fields

/// A `u16` is read back from its encoding, whatever follows.
pub proof fn lemma_u16(v: u16, rest: Seq<u8>)
    ensures
        enc_u16(v).len() == 2,
        parse_u16(enc_u16(v) + rest) == Some((v, 2int)),
{
    lemma_auto_spec_u16_to_from_le_bytes();
    assert((enc_u16(v) + rest).subrange(0, 2) =~= enc_u16(v));
}

/// A `u32` is read back from its encoding, whatever follows.
pub proof fn lemma_u32(v: u32, rest: Seq<u8>)
    ensures
        enc_u32(v).len() == 4,
        parse_u32(enc_u32(v) + rest) == Some((v, 4int)),
{
    lemma_auto_spec_u32_to_from_le_bytes();
    assert((enc_u32(v) + rest).subrange(0, 4) =~= enc_u32(v));
}

/// A `u64` is read back from its encoding, whatever follows.
pub proof fn lemma_u64(v: u64, rest: Seq<u8>)
    ensures
        enc_u64(v).len() == 8,
        parse_u64(enc_u64(v) + rest) == Some((v, 8int)),
{
    lemma_auto_spec_u64_to_from_le_bytes();
    assert((enc_u64(v) + rest).subrange(0, 8) =~= enc_u64(v));
}

/// What a `u16` parser reads is encoded by the bytes it used.
pub proof fn lemma_u16_back(s: Seq<u8>)
    requires
        parse_u16(s) is Some,
    ensures
        s.subrange(0, 2) == enc_u16(parse_u16(s).unwrap().0),
{
    lemma_auto_spec_u16_to_from_le_bytes();
}

/// What a `u32` parser reads is encoded by the bytes it used.
pub proof fn lemma_u32_back(s: Seq<u8>)
    requires
        parse_u32(s) is Some,
    ensures
        s.subrange(0, 4) == enc_u32(parse_u32(s).unwrap().0),
{
    lemma_auto_spec_u32_to_from_le_bytes();
}

/// What a `u64` parser reads is encoded by the bytes it used.
pub proof fn lemma_u64_back(s: Seq<u8>)
    requires
        parse_u64(s) is Some,
    ensures
        s.subrange(0, 8) == enc_u64(parse_u64(s).unwrap().0),
{
    lemma_auto_spec_u64_to_from_le_bytes();
    assert(spec_u64_to_le_bytes(spec_u64_from_le_bytes(s.subrange(0, 8))) == s.subrange(0, 8));
}

/// A byte string is read back from its encoding, whatever follows.
pub proof fn lemma_bytes(b: Seq<u8>, rest: Seq<u8>)
    requires
        bytes_fit(b),
    ensures
        enc_bytes(b).len() == 4 + b.len(),
        parse_bytes(enc_bytes(b) + rest) == Some((b, 4 + b.len() as int)),
{
    let s = enc_bytes(b) + rest;
    lemma_u32(b.len() as u32, b + rest);
    assert(s =~= enc_u32(b.len() as u32) + (b + rest));
    assert(s.subrange(4, 4 + b.len() as int) =~= b);
}

/// What a byte-string parser reads is encoded by the bytes it used.
pub proof fn lemma_bytes_back(s: Seq<u8>)
    requires
        parse_bytes(s) is Some,
    ensures
        ({
            let (b, n) = parse_bytes(s).unwrap();
            &&& bytes_fit(b)
            &&& 0 <= n <= s.len()
            &&& s.subrange(0, n) == enc_bytes(b)
        }),
{
    let (b, n) = parse_bytes(s).unwrap();
    let len = parse_u32(s).unwrap().0;
    lemma_u32_back(s);
    assert(b.len() == len);
    assert(s.subrange(0, n) =~= s.subrange(0, 4) + b);
}

/// A text is read back from its encoding, whatever follows.
pub proof fn lemma_string(t: Seq<char>, rest: Seq<u8>)
    requires
        string_fits(t),
    ensures
        enc_string(t).len() == 4 + encode_utf8(t).len(),
        parse_string(enc_string(t) + rest) == Some((t, 4 + encode_utf8(t).len() as int)),
{
    lemma_bytes(encode_utf8(t), rest);
    encode_utf8_valid_utf8(t);
    encode_utf8_decode_utf8(t);
}

/// What a text parser reads is encoded by the bytes it used.
pub proof fn lemma_string_back(s: Seq<u8>)
    requires
        parse_string(s) is Some,
    ensures
        ({
            let (t, n) = parse_string(s).unwrap();
            &&& string_fits(t)
            &&& 0 <= n <= s.len()
            &&& s.subrange(0, n) == enc_string(t)
        }),
{
    let (b, n) = parse_bytes(s).unwrap();
    lemma_bytes_back(s);
    decode_utf8_encode_utf8(b);
}

/// An optional address is read back from its encoding, whatever follows.
pub proof fn lemma_option_key(k: Option<Seq<u8>>, rest: Seq<u8>)
    requires
        k matches Some(key) ==> is_key(key),
    ensures
        parse_option_key(enc_option_key(k) + rest) == Some((k, enc_option_key(k).len() as int)),
{
    if let Some(key) = k {
        assert((enc_option_key(k) + rest).subrange(1, 33) =~= key);
    }
}

/// What an optional-address parser reads is encoded by the bytes it used.
pub proof fn lemma_option_key_back(s: Seq<u8>)
    requires
        parse_option_key(s) is Some,
    ensures
        ({
            let (k, n) = parse_option_key(s).unwrap();
            &&& (k matches Some(key) ==> is_key(key))
            &&& 0 <= n <= s.len()
            &&& n == enc_option_key(k).len()
            &&& s.subrange(0, n) == enc_option_key(k)
        }),
{
    let (k, n) = parse_option_key(s).unwrap();
    if s[0] == 0 {
        assert(s.subrange(0, 1) =~= seq![0u8]);
    } else {
        assert(s.subrange(0, 33) =~= seq![1u8] + s.subrange(1, 33));
    }
}

} // verus!
