//! How the keys of the callback caches are hashed.
//!
//! A key is written out as bytes, field by field, and the bytes are hashed by
//! the standard library's default hasher. Two keys with the same fields have
//! the same bytes, and so the same hash.

use std::collections::hash_map::DefaultHasher;
use std::hash::Hasher;
use vstd::bytes::{spec_u64_to_le_bytes, u64_to_le_bytes};
use vstd::prelude::*;
use vstd::std_specs::hash::DefaultHasherAdditionalSpecFns;
use vstd::string::StringSliceAdditionalSpecFns;
use vstd::utf8::encode_utf8;

verus! {

/// A key that can be written out as bytes.
pub trait CacheKey {
    /// The bytes that stand for the key.
    spec fn encoding(&self) -> Seq<u8>;

    /// Writes the key out.
    fn encode(&self) -> (bytes: Vec<u8>)
        ensures
            bytes@ == self.encoding(),
    ;
}

/// The hash of a key with the bytes `encoding`: what the default hasher
/// makes of them when they are written to it in one piece.
pub open spec fn slot_of(encoding: Seq<u8>) -> u64 {
    DefaultHasher::spec_finish(seq![encoding])
}

/// Hashes a key.
pub fn hash_key<K: CacheKey>(key: &K) -> (h: u64)
    ensures
        h == slot_of(key.encoding()),
{
    let bytes = key.encode();
    let mut hasher = DefaultHasher::new();
    hasher.write(bytes.as_slice());
    hasher.finish()
}

/// A number as eight bytes, the lowest first.
pub open spec fn number_encoding(n: usize) -> Seq<u8> {
    spec_u64_to_le_bytes(n as u64)
}

/// A truth value as one byte.
pub open spec fn flag_encoding(b: bool) -> Seq<u8> {
    seq![if b { 1u8 } else { 0u8 }]
}

/// A number that may be missing: a byte that says whether it is there, and
/// then the number.
pub open spec fn optional_number_encoding(n: Option<usize>) -> Seq<u8> {
    match n {
        Some(n) => seq![1u8] + number_encoding(n),
        None => seq![0u8],
    }
}

/// A text: the length of its UTF-8 form, and then that form.
pub open spec fn text_encoding(text: Seq<char>) -> Seq<u8> {
    spec_u64_to_le_bytes(encode_utf8(text).len() as u64) + encode_utf8(text)
}

/// Appends a number to `out`.
pub fn put_number(out: &mut Vec<u8>, n: usize)
    ensures
        final(out)@ == old(out)@ + number_encoding(n),
{
    let mut bytes = u64_to_le_bytes(n as u64);
    out.append(&mut bytes);
}

/// Appends a truth value to `out`.
pub fn put_flag(out: &mut Vec<u8>, b: bool)
    ensures
        final(out)@ == old(out)@ + flag_encoding(b),
{
    out.push(if b { 1u8 } else { 0u8 });
    assert(out@ =~= old(out)@ + flag_encoding(b));
}

/// Appends a number that may be missing to `out`.
pub fn put_optional_number(out: &mut Vec<u8>, n: Option<usize>)
    ensures
        final(out)@ == old(out)@ + optional_number_encoding(n),
{
    match n {
        Some(n) => {
            out.push(1u8);
            put_number(out, n);
            assert(out@ =~= old(out)@ + optional_number_encoding(Some(n)));
        },
        None => {
            out.push(0u8);
            assert(out@ =~= old(out)@ + optional_number_encoding(None));
        },
    }
}

/// Appends a text to `out`.
pub fn put_text(out: &mut Vec<u8>, text: &str)
    ensures
        final(out)@ == old(out)@ + text_encoding(text@),
{
    let bytes = text.as_bytes();
    let mut length = u64_to_le_bytes(bytes.len() as u64);
    out.append(&mut length);
    let ghost before = out@;
    out.extend_from_slice(bytes);
    assert(out@ =~= before + bytes@);
    assert(out@ =~= old(out)@ + text_encoding(text@));
}

/// A truth value that may be missing: a byte that says whether it is
/// there, and then the value.
pub open spec fn optional_flag_encoding(b: Option<bool>) -> Seq<u8> {
    match b {
        Some(b) => seq![1u8] + flag_encoding(b),
        None => seq![0u8],
    }
}

/// A text that may be missing: a byte that says whether it is there, and
/// then the text.
pub open spec fn optional_text_encoding(text: Option<Seq<char>>) -> Seq<u8> {
    match text {
        Some(text) => seq![1u8] + text_encoding(text),
        None => seq![0u8],
    }
}

/// Appends a truth value that may be missing to `out`.
pub fn put_optional_flag(out: &mut Vec<u8>, b: Option<bool>)
    ensures
        final(out)@ == old(out)@ + optional_flag_encoding(b),
{
    match b {
        Some(b) => {
            out.push(1u8);
            put_flag(out, b);
            assert(out@ =~= old(out)@ + optional_flag_encoding(Some(b)));
        },
        None => {
            out.push(0u8);
            assert(out@ =~= old(out)@ + optional_flag_encoding(None));
        },
    }
}

/// Appends a text that may be missing to `out`.
pub fn put_optional_text(out: &mut Vec<u8>, text: &Option<String>)
    ensures
        final(out)@ == old(out)@ + optional_text_encoding(
            match *text {
                Some(t) => Some(t@),
                None => None,
            },
        ),
{
    match text {
        Some(t) => {
            out.push(1u8);
            put_text(out, t.as_str());
            assert(out@ =~= old(out)@ + optional_text_encoding(Some(t@)));
        },
        None => {
            out.push(0u8);
            assert(out@ =~= old(out)@ + optional_text_encoding(None));
        },
    }
}

} // verus!
