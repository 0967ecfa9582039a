//! The two wrapped payloads of a container: the key of the audio cipher and
//! the metadata document. Both are wrapped with AES-128, block by block, with
//! PKCS#7 padding, under keys that are fixed by the format.

use vstd::prelude::*;
use aes::Aes128Dec;
use base64::Engine;
use cipher::block_padding::{Pkcs7, UnpadError};
use cipher::{BlockDecrypt, KeyInit};
use crate::error::ParseError;

verus! {

/// `UnpadError` of `block-padding`, as `cipher` hands it on. Nothing is
/// known of a value of it.
#[verifier::external_type_specification]
#[verifier::external_body]
pub struct ExUnpadError(UnpadError);

/// `base64::DecodeError`. Nothing is known of a value of it.
#[verifier::external_type_specification]
#[verifier::external_body]
pub struct ExDecodeError(base64::DecodeError);

/// What `decrypt_padded` of an AES-128 decryptor made from `key` gives for
/// `data` with PKCS#7 padding: the plain bytes without the padding, or `None`
/// where it reports an error.
pub uninterp spec fn aes128_unpadded(key: Seq<u8>, data: Seq<u8>) -> Option<Seq<u8>>;

/// What the standard base64 engine decodes `text` to, or `None` where it
/// reports an error.
pub uninterp spec fn base64_decoded(text: Seq<u8>) -> Option<Seq<u8>>;

/// The key under which the cipher key is wrapped: `hzHRAmso5kInbaxW`.
pub open spec fn key_wrap_key() -> Seq<u8> {
    seq![0x68, 0x7a, 0x48, 0x52, 0x41, 0x6d, 0x73, 0x6f, 0x35, 0x6b, 0x49, 0x6e, 0x62, 0x61, 0x78, 0x57]
}

/// The key under which the metadata is wrapped: ``#14ljk_!\]&0U<'(``.
pub open spec fn metadata_wrap_key() -> Seq<u8> {
    seq![0x23, 0x31, 0x34, 0x6c, 0x6a, 0x6b, 0x5f, 0x21, 0x5c, 0x5d, 0x26, 0x30, 0x55, 0x3c, 0x27, 0x28]
}

/// What an unwrapped cipher key starts with: `neteasecloudmusic`.
pub open spec fn key_prefix() -> Seq<u8> {
    seq![0x6e, 0x65, 0x74, 0x65, 0x61, 0x73, 0x65, 0x63, 0x6c, 0x6f, 0x75, 0x64, 0x6d, 0x75, 0x73, 0x69, 0x63]
}

/// What a metadata segment starts with: `163 key(Don't modify):`.
pub open spec fn segment_prefix() -> Seq<u8> {
    seq![0x31, 0x36, 0x33, 0x20, 0x6b, 0x65, 0x79, 0x28, 0x44, 0x6f, 0x6e, 0x27, 0x74, 0x20, 0x6d, 0x6f, 0x64, 0x69, 0x66, 0x79, 0x29, 0x3a]
}

/// What an unwrapped metadata document starts with: `music:`.
pub open spec fn document_prefix() -> Seq<u8> {
    seq![0x6d, 0x75, 0x73, 0x69, 0x63, 0x3a]
}

/// Whether `data` is one or more whole blocks of 16 bytes, as wrapped data
/// is.
pub open spec fn whole_blocks(data: Seq<u8>) -> bool {
    data.len() > 0 && data.len() % 16 == 0
}

/// Whether `data` starts with `prefix`.
pub open spec fn has_prefix(data: Seq<u8>, prefix: Seq<u8>) -> bool {
    prefix.len() <= data.len() && data.take(prefix.len() as int) == prefix
}

/// What follows `prefix` in `data`, or `None` where `data` does not start
/// with it.
pub open spec fn after_prefix(data: Seq<u8>, prefix: Seq<u8>) -> Option<Seq<u8>> {
    if has_prefix(data, prefix) {
        Some(data.skip(prefix.len() as int))
    } else {
        None
    }
}

/// The key material of the audio cipher that a key segment wraps.
pub open spec fn key_material(segment: Seq<u8>) -> Option<Seq<u8>> {
    match aes128_unpadded(key_wrap_key(), segment) {
        Some(plain) => after_prefix(plain, key_prefix()),
        None => None,
    }
}

/// The metadata document that a metadata segment wraps.
pub open spec fn metadata_document(segment: Seq<u8>) -> Option<Seq<u8>> {
    match after_prefix(segment, segment_prefix()) {
        Some(encoded) => match base64_decoded(encoded) {
            Some(wrapped) => match aes128_unpadded(metadata_wrap_key(), wrapped) {
                Some(plain) => after_prefix(plain, document_prefix()),
                None => None,
            },
            None => None,
        },
        None => None,
    }
}

/// `decrypt_padded` of `cipher::BlockDecrypt`, with `Pkcs7`, on an
/// `aes::Aes128Dec` made from `key`, run on a copy of `data`. The contract
/// claims that the outcome is a function of the key and the data: the plain
/// bytes that `aes128_unpadded` names, or an error where that is `None`. It
/// claims further that data which is empty, or no whole number of blocks of
/// 16 bytes, gives an error, and that the plain bytes are fewer than the data,
/// the padding being at least one byte.
#[verifier::external_body]
pub(crate) fn aes128_decrypt_padded(key: &[u8; 16], data: &[u8]) -> (r: Result<
    Vec<u8>,
    UnpadError,
>)
    ensures
        match r {
            Ok(plain) => aes128_unpadded(key@, data@) == Some(plain@),
            Err(_) => aes128_unpadded(key@, data@) is None,
        },
        !whole_blocks(data@) ==> r is Err,
        r is Ok ==> r->Ok_0@.len() < data@.len(),
{
    let mut buffer = data.to_vec();
    Aes128Dec::new(key.into()).decrypt_padded::<Pkcs7>(&mut buffer).map(|plain| plain.to_vec())
}

/// `decode` of `base64::engine::general_purpose::STANDARD`. The contract
/// claims only that the outcome is a function of the text: the bytes that
/// `base64_decoded` names, or an error where that is `None`.
#[verifier::external_body]
pub(crate) fn base64_decode(text: &[u8]) -> (r: Result<Vec<u8>, base64::DecodeError>)
    ensures
        match r {
            Ok(bytes) => base64_decoded(text@) == Some(bytes@),
            Err(_) => base64_decoded(text@) is None,
        },
{
    base64::engine::general_purpose::STANDARD.decode(text)
}

/// The key under which the cipher key is wrapped.
pub fn key_wrap_key_bytes() -> (r: [u8; 16])
    ensures
        r@ == key_wrap_key(),
{
    let r: [u8; 16] = [0x68, 0x7a, 0x48, 0x52, 0x41, 0x6d, 0x73, 0x6f, 0x35, 0x6b, 0x49, 0x6e, 0x62, 0x61, 0x78, 0x57];
    r
}

/// The key under which the metadata is wrapped.
pub fn metadata_wrap_key_bytes() -> (r: [u8; 16])
    ensures
        r@ == metadata_wrap_key(),
{
    let r: [u8; 16] = [0x23, 0x31, 0x34, 0x6c, 0x6a, 0x6b, 0x5f, 0x21, 0x5c, 0x5d, 0x26, 0x30, 0x55, 0x3c, 0x27, 0x28];
    r
}

/// What an unwrapped cipher key starts with.
pub fn key_prefix_bytes() -> (r: [u8; 17])
    ensures
        r@ == key_prefix(),
{
    let r: [u8; 17] = [0x6e, 0x65, 0x74, 0x65, 0x61, 0x73, 0x65, 0x63, 0x6c, 0x6f, 0x75, 0x64, 0x6d, 0x75, 0x73, 0x69, 0x63];
    r
}

/// What a metadata segment starts with.
pub fn segment_prefix_bytes() -> (r: [u8; 22])
    ensures
        r@ == segment_prefix(),
{
    let r: [u8; 22] = [0x31, 0x36, 0x33, 0x20, 0x6b, 0x65, 0x79, 0x28, 0x44, 0x6f, 0x6e, 0x27, 0x74, 0x20, 0x6d, 0x6f, 0x64, 0x69, 0x66, 0x79, 0x29, 0x3a];
    r
}

/// What an unwrapped metadata document starts with.
pub fn document_prefix_bytes() -> (r: [u8; 6])
    ensures
        r@ == document_prefix(),
{
    let r: [u8; 6] = [0x6d, 0x75, 0x73, 0x69, 0x63, 0x3a];
    r
}

/// A copy of what follows `prefix` in `data`.
pub fn strip_prefix(data: &[u8], prefix: &[u8]) -> (r: Option<Vec<u8>>)
    ensures
        match r {
            Some(rest) => after_prefix(data@, prefix@) == Some(rest@),
            None => after_prefix(data@, prefix@) is None,
        },
{
    let n = prefix.len();
    if data.len() < n {
        return None;
    }
    let mut i: usize = 0;
    while i < n
        invariant
            i <= n,
            n == prefix@.len(),
            n <= data@.len(),
            forall|k: int| 0 <= k < i ==> #[trigger] data@[k] == prefix@[k],
        decreases n - i,
    {
        if data[i] != prefix[i] {
            return None;
        }
        i = i + 1;
    }
    assert(data@.take(n as int) =~= prefix@);
    let mut rest: Vec<u8> = Vec::new();
    let mut j: usize = n;
    while j < data.len()
        invariant
            n <= j <= data@.len(),
            rest@ == data@.subrange(n as int, j as int),
        decreases data@.len() - j,
    {
        rest.push(data[j]);
        j = j + 1;
    }
    Some(rest)
}

/// The key material in an unwrapped cipher key: what follows the prefix.
pub fn key_material_of(plain: &[u8]) -> (r: Result<Vec<u8>, ParseError>)
    ensures
        match r {
            Ok(material) => after_prefix(plain@, key_prefix()) == Some(material@),
            Err(e) => e == ParseError::DecryptRC4KeyFailed && after_prefix(plain@, key_prefix())
                is None,
        },
{
    let prefix = key_prefix_bytes();
    match strip_prefix(plain, prefix.as_slice()) {
        Some(material) => Ok(material),
        None => Err(ParseError::DecryptRC4KeyFailed),
    }
}

/// The document in an unwrapped metadata payload: what follows the prefix.
pub fn document_of(plain: &[u8]) -> (r: Result<Vec<u8>, ParseError>)
    ensures
        match r {
            Ok(document) => after_prefix(plain@, document_prefix()) == Some(document@),
            Err(e) => e == ParseError::DecryptMetadataFailed && after_prefix(
                plain@,
                document_prefix(),
            ) is None,
        },
{
    let prefix = document_prefix_bytes();
    match strip_prefix(plain, prefix.as_slice()) {
        Some(document) => Ok(document),
        None => Err(ParseError::DecryptMetadataFailed),
    }
}

/// Unwraps the key material of the audio cipher from a key segment. A
/// segment that is no whole number of blocks wraps nothing.
pub fn unwrap_key(segment: &[u8]) -> (r: Result<Vec<u8>, ParseError>)
    ensures
        match r {
            Ok(material) => key_material(segment@) == Some(material@),
            Err(e) => e == ParseError::DecryptRC4KeyFailed && key_material(segment@) is None,
        },
        !whole_blocks(segment@) ==> r is Err,
        r is Ok ==> r->Ok_0@.len() + key_prefix().len() < segment@.len(),
{
    let key = key_wrap_key_bytes();
    match aes128_decrypt_padded(&key, segment) {
        Ok(plain) => key_material_of(plain.as_slice()),
        Err(_) => Err(ParseError::DecryptRC4KeyFailed),
    }
}

/// Unwraps the metadata document from a metadata segment.
pub fn unwrap_metadata(segment: &[u8]) -> (r: Result<Vec<u8>, ParseError>)
    ensures
        match r {
            Ok(document) => metadata_document(segment@) == Some(document@),
            Err(e) => e == ParseError::DecryptMetadataFailed && metadata_document(segment@)
                is None,
        },
{
    let prefix = segment_prefix_bytes();
    let encoded = match strip_prefix(segment, prefix.as_slice()) {
        Some(encoded) => encoded,
        None => {
            return Err(ParseError::DecryptMetadataFailed);
        },
    };
    let wrapped = match base64_decode(encoded.as_slice()) {
        Ok(wrapped) => wrapped,
        Err(_) => {
            return Err(ParseError::DecryptMetadataFailed);
        },
    };
    let key = metadata_wrap_key_bytes();
    match aes128_decrypt_padded(&key, wrapped.as_slice()) {
        Ok(plain) => document_of(plain.as_slice()),
        Err(_) => Err(ParseError::DecryptMetadataFailed),
    }
}

} // verus!
