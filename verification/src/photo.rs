//! Content addressing of uploaded photos.
//!
//! A photo is stored under a name derived from a 256-bit hash of the bytes
//! that were uploaded, so equal uploads share one file. The hash is kept
//! with the record the photo belongs to, and the file name is recomputed
//! from it whenever the photo is served.

use crate::failure::Failure;
use base64::Engine;
use highway::HighwayHash;
use vstd::bytes::{spec_u64_to_le_bytes, u64_to_le_bytes};
use vstd::prelude::*;

verus! {

/// The four words that `highway`'s 256-bit hash gives for `data` under the
/// all-zero key.
pub uninterp spec fn highway_digest(data: Seq<u8>) -> Seq<u64>;

/// The URL-safe base64 text of `bytes`, without padding.
pub uninterp spec fn base64_url_text(bytes: Seq<u8>) -> Seq<char>;

/// The standard base64 text of `bytes`, without padding.
pub uninterp spec fn base64_standard_text(bytes: Seq<u8>) -> Seq<char>;

/// Which alphabet names the files of a family of photos.
#[derive(Clone, Copy, Debug, PartialEq, Eq, Structural)]
pub enum Naming {
    /// Photos of domains: the standard alphabet.
    Standard,
    /// Photos of events, workshops and profiles: the URL-safe alphabet.
    UrlSafe,
}

/// The request for a profile photo: whose it is.
#[derive(Clone, Copy, Debug, PartialEq, Eq, Structural)]
pub struct GetProfilePhoto {
    pub id: i32,
}

/// A photo's address: the hash to keep with its record, and the name of the
/// file that holds it.
#[derive(Clone, Debug, PartialEq, Eq)]
pub struct PhotoAddress {
    pub hash: Vec<u8>,
    pub file_name: String,
}

/// The longest input whose base64 text still has a length that fits the
/// machine.
pub open spec fn encodable(len: nat) -> bool {
    len / 3 * 4 + 3 <= usize::MAX
}

/// The stored form of a digest: its words in order, each as eight bytes,
/// least significant first.
pub open spec fn digest_bytes(words: Seq<u64>) -> Seq<u8>
    recommends
        words.len() == 4,
{
    spec_u64_to_le_bytes(words[0]) + spec_u64_to_le_bytes(words[1]) + spec_u64_to_le_bytes(
        words[2],
    ) + spec_u64_to_le_bytes(words[3])
}

/// The file name for a stored hash.
pub open spec fn name_of(naming: Naming, hash: Seq<u8>) -> Seq<char> {
    match naming {
        Naming::Standard => base64_standard_text(hash),
        Naming::UrlSafe => base64_url_text(hash),
    }
}

/// What serving a photo makes of the hash found in the record: without a
/// hash there is no photo.
pub open spec fn located(naming: Naming, stored: Option<Seq<u8>>) -> Result<Seq<char>, Failure> {
    match stored {
        Some(hash) if encodable(hash.len()) => Ok(name_of(naming, hash)),
        _ => Err(Failure::NotFound),
    }
}

/// The hash of a record as plain bytes.
pub open spec fn bytes_of(stored: Option<Vec<u8>>) -> Option<Seq<u8>> {
    match stored {
        Some(hash) => Some(hash@),
        None => None,
    }
}

/// A file name, or the failure in its place, as plain text.
pub open spec fn name_text(found: Result<String, Failure>) -> Result<Seq<char>, Failure> {
    match found {
        Ok(name) => Ok(name@),
        Err(failure) => Err(failure),
    }
}

/// Calls `HighwayHasher::default().hash256` of the `highway` crate. The
/// contract claims that the four words depend on the data alone: the hasher
/// is made anew from the all-zero key for every call, and the crate's
/// implementations for the different processors compute the same function.
#[verifier::external_body]
fn hash256(data: &[u8]) -> (words: [u64; 4])
    ensures
        words@ == highway_digest(data@),
{
    highway::HighwayHasher::default().hash256(data)
}

/// Calls `Engine::encode` of the `base64` crate on its `URL_SAFE_NO_PAD`
/// engine. The contract claims that the text depends on the bytes alone.
/// The call panics when the length of the text overflows, which the
/// precondition rules out.
#[verifier::external_body]
fn encode_url_safe(bytes: &[u8]) -> (text: String)
    requires
        encodable(bytes@.len()),
    ensures
        text@ == base64_url_text(bytes@),
{
    base64::engine::general_purpose::URL_SAFE_NO_PAD.encode(bytes)
}

/// Calls `Engine::encode` of the `base64` crate on its `STANDARD_NO_PAD`
/// engine. The contract claims that the text depends on the bytes alone.
/// The call panics when the length of the text overflows, which the
/// precondition rules out.
#[verifier::external_body]
fn encode_standard(bytes: &[u8]) -> (text: String)
    requires
        encodable(bytes@.len()),
    ensures
        text@ == base64_standard_text(bytes@),
{
    base64::engine::general_purpose::STANDARD_NO_PAD.encode(bytes)
}

/// Lays the four words of a digest out as 32 bytes.
pub fn digest_to_bytes(words: &[u64; 4]) -> (bytes: Vec<u8>)
    ensures
        bytes@ == digest_bytes(words@),
        bytes@.len() == 32,
{
    let mut bytes: Vec<u8> = Vec::new();
    let mut i: usize = 0;
    while i < 4
        invariant
            i <= 4,
            bytes@.len() == 8 * i,
            i == 0 ==> bytes@ == Seq::<u8>::empty(),
            i == 1 ==> bytes@ == spec_u64_to_le_bytes(words@[0]),
            i == 2 ==> bytes@ == spec_u64_to_le_bytes(words@[0]) + spec_u64_to_le_bytes(
                words@[1],
            ),
            i == 3 ==> bytes@ == spec_u64_to_le_bytes(words@[0]) + spec_u64_to_le_bytes(words@[1])
                + spec_u64_to_le_bytes(words@[2]),
            i == 4 ==> bytes@ == digest_bytes(words@),
        decreases 4 - i,
    {
        let word = u64_to_le_bytes(words[i]);
        let ghost before = bytes@;
        bytes.extend_from_slice(word.as_slice());
        assert(bytes@ == before + word@);
        assert(Seq::<u8>::empty() + word@ =~= word@);
        i = i + 1;
    }
    bytes
}

/// The file name for a stored hash.
pub fn file_name(naming: Naming, hash: &[u8]) -> (name: String)
    requires
        encodable(hash@.len()),
    ensures
        name@ == name_of(naming, hash@),
{
    match naming {
        Naming::Standard => encode_standard(hash),
        Naming::UrlSafe => encode_url_safe(hash),
    }
}

/// Computes the address under which an upload is stored.
pub fn address_of(naming: Naming, upload: &[u8]) -> (address: PhotoAddress)
    ensures
        address.hash@ == digest_bytes(highway_digest(upload@)),
        address.file_name@ == name_of(naming, address.hash@),
{
    let words = hash256(upload);
    let hash = digest_to_bytes(&words);
    let name = file_name(naming, hash.as_slice());
    PhotoAddress { hash, file_name: name }
}

/// Whose profile photo a request is for: that of the user it names, and
/// the caller's own where it names nobody.
pub fn photo_owner(query: &Option<GetProfilePhoto>, caller: i32) -> (owner: i32)
    ensures
        owner == (match *query {
            Some(asked) => asked.id,
            None => caller,
        }),
{
    match query {
        Some(asked) => asked.id,
        None => caller,
    }
}

/// Finds the file of a photo from the hash in its record.
pub fn locate(naming: Naming, stored: &Option<Vec<u8>>) -> (r: Result<String, Failure>)
    ensures
        name_text(r) == located(naming, bytes_of(*stored)),
{
    match stored {
        None => Err(Failure::NotFound),
        Some(hash) => {
            if hash.len() / 3 > (usize::MAX - 3) / 4 {
                Err(Failure::NotFound)
            } else {
                Ok(file_name(naming, hash.as_slice()))
            }
        },
    }
}

} // verus!
