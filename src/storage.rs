use vstd::prelude::*;

use crate::setup::WifiCredentials;

verus! {

/// Largest record, in bytes, that the credential store takes.
pub const POSTCARD_BUF_SIZE: usize = 500;

#[verifier::external_type_specification]
#[verifier::external_body]
pub struct ExPostcardError(postcard::Error);

/// The postcard record of a network name followed by its passphrase.
pub uninterp spec fn postcard_pair(ssid: Seq<char>, password: Seq<char>) -> Seq<u8>;

/// Why a record could not be written or read.
#[derive(Clone, Copy, Debug, PartialEq, Eq, Structural)]
pub enum SerDeError {
    /// The record does not fit in `POSTCARD_BUF_SIZE` bytes.
    BufferFull,
    /// The bytes are not a record of two strings.
    Malformed,
}

/// Relies on postcard::to_allocvec on the pair `(ssid, password)`: it returns the postcard
/// record of the two strings, in that order; writing into a growable `Vec` never fails.
#[verifier::external_body]
fn encode_pair(ssid: &str, password: &str) -> (r: Result<Vec<u8>, postcard::Error>)
    ensures
        r is Ok,
        r matches Ok(v) ==> v@ == postcard_pair(ssid@, password@),
{
    postcard::to_allocvec(&(ssid, password))
}

/// Whether `r` is the pair of strings whose record is `bytes`, whenever `bytes` is such a record.
pub open spec fn reads_back(bytes: Seq<u8>, r: Result<(String, String), postcard::Error>) -> bool {
    forall|s: Seq<char>, p: Seq<char>|
        bytes == #[trigger] postcard_pair(s, p) ==> (r is Ok && r->Ok_0.0@ == s && r->Ok_0.1@ == p)
}

/// Relies on postcard::from_bytes for a pair of strings: the record of a pair reads back
/// as that same pair.
#[verifier::external_body]
fn decode_pair(bytes: &[u8]) -> (r: Result<(String, String), postcard::Error>)
    ensures
        reads_back(bytes@, r),
{
    postcard::from_bytes::<(String, String)>(bytes)
}

/// Writes and reads credential records in the postcard format.
#[derive(Clone, Copy, Debug)]
pub struct PostcardSerDe;

impl PostcardSerDe {
    /// The record of `credentials`, if it fits in `POSTCARD_BUF_SIZE` bytes.
    pub fn serialize(&self, credentials: &WifiCredentials) -> (r: Result<Vec<u8>, SerDeError>)
        ensures
            r matches Ok(v) ==> v@ == postcard_pair(credentials.ssid@, credentials.password@)
                && v@.len() <= POSTCARD_BUF_SIZE,
            r matches Err(e) ==> e == SerDeError::BufferFull,
            postcard_pair(credentials.ssid@, credentials.password@).len() > POSTCARD_BUF_SIZE
                ==> r is Err,
            postcard_pair(credentials.ssid@, credentials.password@).len() <= POSTCARD_BUF_SIZE
                ==> r is Ok,
    {
        match encode_pair(credentials.ssid.as_str(), credentials.password.as_str()) {
            Ok(v) => {
                if v.len() <= POSTCARD_BUF_SIZE {
                    Ok(v)
                } else {
                    Err(SerDeError::BufferFull)
                }
            },
            Err(_) => Err(SerDeError::BufferFull),
        }
    }

    /// The credentials that `bytes` holds; a record written by `serialize` reads back unchanged.
    pub fn deserialize(&self, bytes: &[u8]) -> (r: Result<WifiCredentials, SerDeError>)
        ensures
            forall|s: Seq<char>, p: Seq<char>|
                bytes@ == #[trigger] postcard_pair(s, p) ==> (r matches Ok(c) && c.ssid@ == s
                    && c.password@ == p),
            r matches Err(e) ==> e == SerDeError::Malformed,
    {
        match decode_pair(bytes) {
            Ok((ssid, password)) => Ok(WifiCredentials { ssid, password }),
            Err(_) => Err(SerDeError::Malformed),
        }
    }
}

} // verus!
