//! The file-blob codec: file contents travel through the text payload as
//! base64, so a stored item is always either plain text or sealed bytes.
//!
//! Encoding turns a file's bytes into base64 text and, when a password is
//! given, seals that text; decoding reverses the base64 step, and the
//! caller writes the recovered bytes to the resolved output name.

use vstd::prelude::*;

use crate::crypto;
use crate::crypto::{encrypt_err_allowed, password_accepted, sealed_with};
use crate::value::{tag_encoding, tag_kind, tag_valid, YorData, YorDataType};
use crate::YorError;

verus! {

use vstd::string::StringExecFns;
use vstd::string::StringSliceAdditionalSpecFns;

/// The standard, padded base64 encoding of a byte sequence, as ASCII bytes;
/// a pure function of the input.
pub uninterp spec fn base64_bytes(data: Seq<u8>) -> Seq<u8>;

#[verifier::external_type_specification]
#[verifier::external_body]
pub struct ExDecodeError(base64::DecodeError);

/// Relies on base64::encode: standard alphabet with `=` padding, so the
/// output is four bytes for every started group of three input bytes and a
/// function of the input alone. The length bound keeps the call from
/// overflowing its output-size computation.
#[verifier::external_body]
fn b64_encode(data: &[u8]) -> (r: String)
    requires
        4 * ((data@.len() + 2) / 3) <= usize::MAX,
    ensures
        vstd::utf8::encode_utf8(r@) == base64_bytes(data@),
        vstd::utf8::encode_utf8(r@).len() == 4 * ((data@.len() + 2) / 3),
{
    base64::encode(data)
}

/// Relies on base64::decode: inverts base64::encode, so input that is the
/// standard encoding of some byte sequence decodes to exactly that sequence.
#[verifier::external_body]
fn b64_decode(data: &[u8]) -> (r: Result<Vec<u8>, base64::DecodeError>)
    ensures
        forall|b: Seq<u8>|
            data@ == #[trigger] base64_bytes(b) ==> r is Ok && r->Ok_0@ == b,
{
    base64::decode(data)
}

/// The file name retrieval writes to: the key, with the encoding appended
/// as an extension unless the encoding is the literal `bin`.
pub open spec fn output_name_spec(key: Seq<char>, encoding: Seq<char>) -> Seq<char> {
    if encoding == "bin"@ {
        key
    } else {
        key + "."@ + encoding
    }
}

/// Pick the output file name for a retrieved file payload.
pub fn resolve_output_name(key: &str, encoding: &String) -> (r: String)
    ensures
        r@ == output_name_spec(key@, encoding@),
{
    if *encoding == String::from_str("bin") {
        key.to_owned()
    } else {
        let mut r = key.to_owned();
        r.append(".");
        r.append(encoding.as_str());
        r
    }
}

/// Encode a file's bytes for storage under a file-kind category: base64 the
/// bytes, then either seal the text under the password or, when no password
/// is supplied, store the text as it is. The tag is persisted unchanged.
pub fn encode_file(data: &[u8], password: &str, tag: &str) -> (r: Result<YorData, YorError>)
    requires
        tag_valid(tag@),
        tag_kind(tag@).spec_is_file(),
        4 * ((data@.len() + 2) / 3) <= usize::MAX,
    ensures
        password@.len() == 0 ==> (r matches Ok(item)
            && (item.y_data matches YorDataType::Str(s) && vstd::utf8::encode_utf8(s@) == base64_bytes(data@))
            && item.y_type@ == tag@),
        password@.len() > 0 ==> (r matches Ok(item) ==> {
            &&& item.y_data matches YorDataType::Bytes(ct)
            &&& sealed_with(ct@, base64_bytes(data@), password.spec_bytes())
            &&& item.y_type@ == tag@
        }),
        password@.len() > 0 ==> (r matches Err(e) ==> encrypt_err_allowed(
            e,
            base64_bytes(data@),
            password.spec_bytes(),
        )),
        password@.len() > 0 && password_accepted(password.spec_bytes())
            && 4 * ((data@.len() + 2) / 3) + crypto::SEAL_OVERHEAD <= usize::MAX
            && 4 * ((data@.len() + 2) / 3) <= crypto::SEAL_MAX_PLAINTEXT
            ==> (r is Ok || r == Err::<YorData, YorError>(YorError::RandomnessUnavailable)),
{
    let text = b64_encode(data);
    if password.is_empty() {
        Ok(YorData { y_data: YorDataType::Str(text), y_type: tag.to_owned() })
    } else {
        match crypto::encrypt(text.as_str().as_bytes(), password) {
            Ok(ct) => Ok(YorData { y_data: YorDataType::Bytes(ct), y_type: tag.to_owned() }),
            Err(e) => Err(e),
        }
    }
}

/// Relies on rand::thread_rng and Rng::sample_iter over the Standard
/// distribution: draws the requested number of random characters. Nothing
/// is assumed of which characters come back, only how many.
#[verifier::external_body]
fn gen_random(len: usize) -> (r: String)
    ensures
        r@.len() == len,
{
    let rng = rand::thread_rng();
    let it = rand::Rng::sample_iter::<char, _>(rng, rand::distributions::Standard);
    core::iter::Iterator::take(it, len).collect()
}

/// A session name for a file: the file name, a dash, and five random
/// characters.
pub fn generate_file_session(filename: &str) -> (r: String)
    ensures
        r@.len() == filename@.len() + 6,
        r@.take(filename@.len() as int) == filename@,
        r@[filename@.len() as int] == '-',
{
    let mut r = filename.to_owned();
    r.append("-");
    let random = gen_random(5);
    r.append(random.as_str());
    proof {
        reveal_strlit("-");
        assert(r@.take(filename@.len() as int) =~= filename@);
    }
    r
}

/// Recover a file's bytes from its stored base64 text (already decrypted if
/// it was sealed). Text that is not base64 is a corrupt record.
pub fn decode_file_payload(text: &[u8]) -> (r: Result<Vec<u8>, YorError>)
    ensures
        forall|b: Seq<u8>|
            text@ == #[trigger] base64_bytes(b) ==> (r matches Ok(v) && v@ == b),
        r matches Err(e) ==> e == YorError::InvalidEncoding,
{
    match b64_decode(text) {
        Ok(v) => Ok(v),
        Err(_) => Err(YorError::InvalidEncoding),
    }
}

} // verus!
