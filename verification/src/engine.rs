//! The vault item engine: how one item is built for storage and taken
//! apart on retrieval.
//!
//! Writing validates the category once, seals the value when a password is
//! given, and hands the finished record to the caller to persist — a write
//! either produces a whole record or fails before anything is stored.
//! Reading classifies the stored record: plain text is returned or decoded
//! to a file, and an encrypted payload starts a bounded password-retry
//! session, three failures being fatal.

use vstd::prelude::*;

use crate::codec::{base64_bytes, decode_file_payload, output_name_spec, resolve_output_name};
use crate::crypto;
use crate::crypto::{encrypt_err_allowed, password_accepted, sealed_with};
use crate::value::{parse_category, tag_encoding, tag_kind, tag_valid, Category, YorData,
    YorDataType};
use crate::YorError;

verus! {

use vstd::string::StringExecFns;
use vstd::string::StringSliceAdditionalSpecFns;

/// Where the value of an upsert comes from: the command line as it is, or
/// the contents of the file the value names.
#[derive(Clone, Copy, Debug, PartialEq, Eq, Structural)]
pub enum UpsertRoute {
    Inline,
    FileContents,
}

/// Validate the category of an upsert and decide its route. An unsupported
/// or malformed category aborts the whole operation before anything is
/// read or written.
pub fn plan_upsert(tag: &str) -> (r: Result<UpsertRoute, YorError>)
    ensures
        r is Ok <==> tag_valid(tag@),
        r matches Err(e) ==> e == YorError::UnsupportedCategory,
        r matches Ok(route) ==> (route == UpsertRoute::FileContents <==> tag_kind(
            tag@,
        ).spec_is_file()),
{
    let category = match parse_category(tag) {
        Ok(c) => c,
        Err(e) => {
            return Err(e);
        },
    };
    if category.kind.is_file() {
        Ok(UpsertRoute::FileContents)
    } else {
        Ok(UpsertRoute::Inline)
    }
}

/// Build the stored record for a non-file value. With a password the value
/// is sealed and a `str` encoding is rewritten to `data/byte`, recording
/// that the stored representation is now binary; without one the value is
/// stored as plain text under its tag.
pub fn build_text_item(value: &str, password: &str, tag: &str) -> (r: Result<YorData, YorError>)
    requires
        tag_valid(tag@),
        !tag_kind(tag@).spec_is_file(),
    ensures
        password@.len() == 0 ==> (r matches Ok(item)
            && (item.y_data matches YorDataType::Str(s) && s@ == value@)
            && item.y_type@ == tag@),
        password@.len() > 0 ==> (r matches Ok(item) ==> {
            &&& item.y_data matches YorDataType::Bytes(ct)
            &&& sealed_with(ct@, value.spec_bytes(), password.spec_bytes())
            &&& item.y_type@ == if tag_encoding(tag@) == "str"@ {
                "data/byte"@
            } else {
                tag@
            }
        }),
        password@.len() > 0 ==> (r matches Err(e) ==> encrypt_err_allowed(
            e,
            value.spec_bytes(),
            password.spec_bytes(),
        )),
        password@.len() > 0 && password_accepted(password.spec_bytes())
            && value.spec_bytes().len() + crypto::SEAL_OVERHEAD <= usize::MAX
            && value.spec_bytes().len() <= crypto::SEAL_MAX_PLAINTEXT
            ==> (r is Ok || r == Err::<YorData, YorError>(YorError::RandomnessUnavailable)),
{
    if password.is_empty() {
        return Ok(YorData { y_data: YorDataType::Str(value.to_owned()), y_type: tag.to_owned() });
    }
    let category = match parse_category(tag) {
        Ok(c) => c,
        Err(e) => {
            return Err(e);
        },
    };
    match crypto::encrypt(value.as_bytes(), password) {
        Ok(ct) => {
            let y_type = if category.encoding == String::from_str("str") {
                String::from_str("data/byte")
            } else {
                tag.to_owned()
            };
            Ok(YorData { y_data: YorDataType::Bytes(ct), y_type })
        },
        Err(e) => Err(e),
    }
}

/// What retrieval found: text to hand back, bytes to write under a file
/// name, or an encrypted payload that needs a password session first.
#[derive(Debug)]
pub enum Retrieved {
    Text(String),
    FileWrite { name: String, bytes: Vec<u8> },
    NeedPassword { ciphertext: Vec<u8>, category: Category },
}

/// Classify a stored record (or its absence) for retrieval. A missing key
/// is tolerated as empty text. Plain text of a file kind is decoded and
/// routed to its output name at once; an encrypted payload is handed back
/// with its category for the password session.
pub fn start_retrieve(item: Option<YorData>, key: &str) -> (r: Result<Retrieved, YorError>)
    ensures
        item is None ==> (r matches Ok(v) && v matches Retrieved::Text(t) && t@.len() == 0),
        item matches Some(it) ==> {
            &&& !tag_valid(it.y_type@) ==> r == Err::<Retrieved, YorError>(
                YorError::UnsupportedCategory,
            )
            &&& it.y_data matches YorDataType::Bytes(ct) ==> (tag_valid(it.y_type@) ==> (r
                matches Ok(v) && (v matches Retrieved::NeedPassword { ciphertext, category }
                && ciphertext@ == ct@ && category.kind == tag_kind(it.y_type@)
                && category.encoding@ == tag_encoding(it.y_type@))))
            &&& it.y_data matches YorDataType::Str(s) ==> (tag_valid(it.y_type@)
                && !tag_kind(it.y_type@).spec_is_file() ==> (r matches Ok(v)
                && (v matches Retrieved::Text(t) && t@ == s@)))
            &&& it.y_data matches YorDataType::Str(s) ==> (tag_valid(it.y_type@)
                && tag_kind(it.y_type@).spec_is_file()) ==> {
                &&& forall|b: Seq<u8>|
                    vstd::utf8::encode_utf8(s@) == #[trigger] base64_bytes(b) ==> (r matches Ok(v)
                        && (v matches Retrieved::FileWrite { name, bytes } && bytes@ == b))
                &&& r matches Ok(v) ==> (v matches Retrieved::FileWrite { name, bytes }
                    && name@ == output_name_spec(key@, tag_encoding(it.y_type@)))
                &&& r matches Err(e) ==> e == YorError::InvalidEncoding
            }
        },
{
    let it = match item {
        Some(it) => it,
        None => {
            return Ok(Retrieved::Text(String::new()));
        },
    };
    let category = match parse_category(it.y_type.as_str()) {
        Ok(c) => c,
        Err(e) => {
            return Err(e);
        },
    };
    match it.y_data {
        YorDataType::Bytes(ct) => Ok(Retrieved::NeedPassword { ciphertext: ct, category }),
        YorDataType::Str(s) => {
            if category.kind.is_file() {
                let bytes = match decode_file_payload(s.as_str().as_bytes()) {
                    Ok(b) => b,
                    Err(e) => {
                        return Err(e);
                    },
                };
                let name = resolve_output_name(key, &category.encoding);
                Ok(Retrieved::FileWrite { name, bytes })
            } else {
                Ok(Retrieved::Text(s))
            }
        },
    }
}

/// Relies on core::str::from_utf8: succeeds exactly on valid UTF-8 input
/// and yields the text whose encoding is that input.
#[verifier::external_body]
fn utf8_to_string(bytes: &[u8]) -> (r: Option<String>)
    ensures
        r is Some <==> vstd::utf8::valid_utf8(bytes@),
        r matches Some(s) ==> vstd::utf8::encode_utf8(s@) == bytes@,
{
    match core::str::from_utf8(bytes) {
        Ok(s) => Some(s.to_owned()),
        Err(_) => None,
    }
}

/// Interpret a successfully decrypted payload according to its category:
/// text is decoded as UTF-8 and handed back, a file kind is base64-decoded
/// and routed to its output name. Bytes that fit neither are a corrupt
/// record.
pub fn finish_decrypted(plain: &[u8], key: &str, category: &Category) -> (r: Result<
    Retrieved,
    YorError,
>)
    ensures
        !category.kind.spec_is_file() ==> {
            &&& vstd::utf8::valid_utf8(plain@) ==> (r matches Ok(v) && (v matches Retrieved::Text(
                t,
            ) && vstd::utf8::encode_utf8(t@) == plain@))
            &&& !vstd::utf8::valid_utf8(plain@) ==> r == Err::<Retrieved, YorError>(
                YorError::InvalidEncoding,
            )
        },
        category.kind.spec_is_file() ==> {
            &&& forall|b: Seq<u8>|
                plain@ == #[trigger] base64_bytes(b) ==> (r matches Ok(v) && (v
                    matches Retrieved::FileWrite { name, bytes } && bytes@ == b))
            &&& r matches Ok(v) ==> (v matches Retrieved::FileWrite { name, bytes }
                && name@ == output_name_spec(key@, category.encoding@))
            &&& r matches Err(e) ==> e == YorError::InvalidEncoding
        },
{
    if category.kind.is_file() {
        let bytes = match decode_file_payload(plain) {
            Ok(b) => b,
            Err(e) => {
                return Err(e);
            },
        };
        let name = resolve_output_name(key, &category.encoding);
        Ok(Retrieved::FileWrite { name, bytes })
    } else {
        match utf8_to_string(plain) {
            Some(t) => Ok(Retrieved::Text(t)),
            None => Err(YorError::InvalidEncoding),
        }
    }
}

/// The retry bound of the password session: the third consecutive failure
/// is terminal.
pub const MAX_ATTEMPTS: u8 = 3;

/// The password-entry session for one encrypted item: counts consecutive
/// failed attempts, up to the fatal third.
pub struct RetrySession {
    pub attempts: u8,
}

/// What one password attempt led to: the recovered plaintext, another
/// prompt, or the fatal end of the session.
#[derive(Debug)]
pub enum AttemptOutcome {
    Success(Vec<u8>),
    Retry,
    Fatal,
}

impl RetrySession {
    /// A fresh session: no attempt has failed yet.
    pub fn new() -> (s: Self)
        ensures
            s.attempts == 0,
    {
        RetrySession { attempts: 0 }
    }

    /// Try one password against the encrypted payload. Success recovers the
    /// plaintext and leaves the count alone; a failure counts, and the
    /// third consecutive failure ends the session fatally.
    pub fn attempt(&mut self, ciphertext: &[u8], password: &str) -> (r: AttemptOutcome)
        requires
            old(self).attempts < MAX_ATTEMPTS,
        ensures
            final(self).attempts <= MAX_ATTEMPTS,
            r matches AttemptOutcome::Success(p) ==> {
                &&& final(self).attempts == old(self).attempts
                &&& password_accepted(password.spec_bytes())
                &&& ciphertext@.len() >= 40
                &&& p@.len() + crypto::SEAL_OVERHEAD == ciphertext@.len()
                &&& p@ == crypto::xchacha_opened(
                    crypto::derived_key(password.spec_bytes(), ciphertext@.take(24)),
                    ciphertext@.take(24),
                    ciphertext@.skip(24),
                )
            },
            forall|pt: Seq<u8>|
                #[trigger] sealed_with(ciphertext@, pt, password.spec_bytes())
                    && password_accepted(password.spec_bytes())
                    ==> (r matches AttemptOutcome::Success(p) && p@ == pt),
            (r is Retry || r is Fatal) ==> final(self).attempts == old(self).attempts + 1,
            r is Fatal <==> (!(r is Success) && old(self).attempts + 1 == MAX_ATTEMPTS),
    {
        match crypto::decrypt(ciphertext, password) {
            Ok(p) => AttemptOutcome::Success(p),
            Err(_) => {
                self.attempts = self.attempts + 1;
                if self.attempts >= MAX_ATTEMPTS {
                    AttemptOutcome::Fatal
                } else {
                    AttemptOutcome::Retry
                }
            },
        }
    }
}

} // verus!
