use vstd::prelude::*;

pub mod args;
pub mod codec;
pub mod crypto;
pub mod engine;
pub mod value;

verus! {

/// The ways an operation of this vault can fail.
#[derive(Clone, Copy, Debug, PartialEq, Eq, Structural)]
pub enum YorError {
    /// The password or the salt handed to the key derivation was rejected.
    KeyDerivation,
    /// The plaintext is so long that the sealed output length would overflow.
    PayloadTooLarge,
    /// A ciphertext shorter than the nonce prefix cannot be opened.
    CiphertextTooShort,
    /// Authentication failed: wrong password, tampered or corrupted data.
    /// The causes are indistinguishable by design.
    InvalidKeyOrCiphertext,
    /// The operating system refused to hand out random bytes.
    RandomnessUnavailable,
    /// The category tag names a kind outside the supported set.
    UnsupportedCategory,
    /// The recovered bytes are not the encoding the category promises.
    InvalidEncoding,
}

/// The user-readable wording of each error.
pub open spec fn message_spec(e: YorError) -> Seq<char> {
    match e {
        YorError::KeyDerivation => "Could not derive key from password"@,
        YorError::PayloadTooLarge => "Plaintext is too long"@,
        YorError::CiphertextTooShort => "Ciphertext is too short"@,
        YorError::InvalidKeyOrCiphertext => "Invalid key password"@,
        YorError::RandomnessUnavailable => "Could not obtain random bytes"@,
        YorError::UnsupportedCategory => "Data type is not supported"@,
        YorError::InvalidEncoding => "Stored data is not valid for its type"@,
    }
}

impl YorError {
    /// A user-readable message for this error.
    pub fn message(self) -> (r: String)
        ensures
            r@ == message_spec(self),
    {
        match self {
            YorError::KeyDerivation => "Could not derive key from password".to_owned(),
            YorError::PayloadTooLarge => "Plaintext is too long".to_owned(),
            YorError::CiphertextTooShort => "Ciphertext is too short".to_owned(),
            YorError::InvalidKeyOrCiphertext => "Invalid key password".to_owned(),
            YorError::RandomnessUnavailable => "Could not obtain random bytes".to_owned(),
            YorError::UnsupportedCategory => "Data type is not supported".to_owned(),
            YorError::InvalidEncoding => "Stored data is not valid for its type".to_owned(),
        }
    }
}

} // verus!
