//! The byte encodings of the container: JSON by `serde_json`, and printable
//! text by `base64`.
//!
//! Nothing in this file is proved: each function states what the outside crate
//! documents of the call that it makes.

use vstd::prelude::*;
use base64::Engine;
use crate::store::{listing_map, lists, Accounts, Listing};

verus! {

/// The error that `serde_json` returns.
#[verifier::external_type_specification]
#[verifier::external_body]
pub struct ExJsonError(serde_json::Error);

/// The error that `base64` returns from decoding.
#[verifier::external_type_specification]
#[verifier::external_body]
pub struct ExDecodeError(base64::DecodeError);

/// The text that `base64`'s standard engine, with padding, encodes bytes to.
pub uninterp spec fn base64_text(bytes: Seq<u8>) -> Seq<u8>;

/// The bytes that `base64`'s standard engine decodes a text to; `None` where
/// the text is not valid base64.
pub uninterp spec fn base64_bytes(text: Seq<u8>) -> Option<Seq<u8>>;

/// The JSON text that `serde_json::to_vec` writes for a map from account names
/// to maps from field names to values, keys in ascending order.
pub uninterp spec fn json_of_accounts(accounts: Accounts) -> Seq<u8>;

/// The accounts that `serde_json::from_slice` reads from a JSON text; `None`
/// where the text is not an object of objects of strings.
pub uninterp spec fn accounts_of_json(json: Seq<u8>) -> Option<Accounts>;

/// The JSON text that `serde_json::to_vec` writes for a pair of byte strings:
/// an array of two arrays of numbers.
pub uninterp spec fn json_of_byte_pair(first: Seq<u8>, second: Seq<u8>) -> Seq<u8>;

/// The pair of byte strings that `serde_json::from_slice` reads from a JSON
/// text; `None` where the text is not an array of two arrays of bytes.
pub uninterp spec fn byte_pair_of_json(json: Seq<u8>) -> Option<(Seq<u8>, Seq<u8>)>;

/// The input lengths whose base64 text has a length that fits in `usize`.
pub open spec fn base64_fits(len: nat) -> bool {
    len / 3 < usize::MAX / 4
}

/// Calls `Engine::encode` on `base64::engine::general_purpose::STANDARD`. The
/// text is a function of the bytes, named [`base64_text`], and decodes to them
/// again. The call panics where the text's length overflows.
#[verifier::external_body]
pub(crate) fn base64_encode(bytes: &[u8]) -> (r: Vec<u8>)
    requires
        base64_fits(bytes@.len()),
    ensures
        r@ == base64_text(bytes@),
        base64_bytes(r@) == Some(bytes@),
{
    base64::engine::general_purpose::STANDARD.encode(bytes).into_bytes()
}

/// Calls `Engine::decode` on `base64::engine::general_purpose::STANDARD`. The
/// result is a function of the text, named [`base64_bytes`].
#[verifier::external_body]
pub(crate) fn base64_decode(text: &[u8]) -> (r: Result<Vec<u8>, base64::DecodeError>)
    ensures
        match r {
            Ok(bytes) => base64_bytes(text@) == Some(bytes@),
            Err(_) => base64_bytes(text@) is None,
        },
{
    base64::engine::general_purpose::STANDARD.decode(text)
}

/// Calls `serde_json::to_vec` on the accounts as a sorted map of sorted maps;
/// the listing names each account once, and each field once in its account.
/// Such a value always serialises; the text is a function of the accounts,
/// named [`json_of_accounts`], is not empty, and reads back as the same
/// accounts. Like every vector, it has at most `isize::MAX` bytes.
#[verifier::external_body]
pub(crate) fn json_encode_accounts(listing: &Listing) -> (r: Result<Vec<u8>, serde_json::Error>)
    requires
        lists(listing@, listing_map(listing@)),
    ensures
        r is Ok,
        r matches Ok(json) ==> json@ == json_of_accounts(listing_map(listing@)),
        r matches Ok(json) ==> 0 < json@.len() <= isize::MAX,
        r matches Ok(json) ==> accounts_of_json(json@) == Some(listing_map(listing@)),
{
    let accounts: std::collections::BTreeMap<&str, std::collections::BTreeMap<&str, &str>> =
        listing.iter().map(
        |a| (a.0.as_str(), a.1.iter().map(|f| (f.0.as_str(), f.1.as_str())).collect()),
    ).collect();
    serde_json::to_vec(&accounts)
}

/// Calls `serde_json::from_slice` for a map of maps of strings. The result is
/// a function of the text, named [`accounts_of_json`].
#[verifier::external_body]
pub(crate) fn json_decode_accounts(json: &[u8]) -> (r: Result<Listing, serde_json::Error>)
    ensures
        match r {
            Ok(listing) => accounts_of_json(json@) == Some(listing_map(listing@)),
            Err(_) => accounts_of_json(json@) is None,
        },
{
    let accounts: std::collections::BTreeMap<String, std::collections::BTreeMap<String, String>> =
        serde_json::from_slice(json)?;
    Ok(accounts.into_iter().map(|(name, fields)| (name, fields.into_iter().collect())).collect())
}

/// Calls `serde_json::to_vec` on a pair of byte slices. Such a value always
/// serialises; the text is a function of the pair, named
/// [`json_of_byte_pair`], and reads back as the same pair. Like every vector,
/// it has at most `isize::MAX` bytes.
#[verifier::external_body]
pub(crate) fn json_encode_byte_pair(first: &[u8], second: &[u8]) -> (r: Result<
    Vec<u8>,
    serde_json::Error,
>)
    ensures
        r is Ok,
        r matches Ok(json) ==> json@ == json_of_byte_pair(first@, second@),
        r matches Ok(json) ==> json@.len() <= isize::MAX,
        r matches Ok(json) ==> byte_pair_of_json(json@) == Some((first@, second@)),
{
    serde_json::to_vec(&(first, second))
}

/// Calls `serde_json::from_slice` for a pair of byte vectors. The result is a
/// function of the text, named [`byte_pair_of_json`].
#[verifier::external_body]
pub(crate) fn json_decode_byte_pair(json: &[u8]) -> (r: Result<
    (Vec<u8>, Vec<u8>),
    serde_json::Error,
>)
    ensures
        match r {
            Ok(pair) => byte_pair_of_json(json@) == Some((pair.0@, pair.1@)),
            Err(_) => byte_pair_of_json(json@) is None,
        },
{
    serde_json::from_slice(json)
}

} // verus!
