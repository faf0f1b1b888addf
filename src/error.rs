use vstd::prelude::*;

verus! {

/// Every way an invocation can fail, one variant per stage.
#[derive(Debug, Clone, Copy, PartialEq, Eq, Structural)]
pub enum CoreError {
    /// The pixel data could not be obtained or decoded.
    PixelSource,
    /// Fewer than 32 pixels were available for seed derivation.
    InsufficientPixels,
    /// The RSA key could not be generated from the seeded generator.
    KeyGeneration,
    /// The plaintext could not be encrypted (for instance, it is too long).
    Encryption,
    /// The ciphertext did not decrypt under the regenerated key.
    Decryption,
    /// The ciphertext was not a valid lowercase hexadecimal string.
    InvalidHexEncoding,
    /// The decrypted bytes are not valid UTF-8.
    InvalidUtf8,
}

impl CoreError {
    /// A short description of the failing stage.
    pub fn message(&self) -> (r: &'static str) {
        match self {
            CoreError::PixelSource => "failed to obtain the pixel data",
            CoreError::InsufficientPixels => "the image holds fewer than 32 pixels",
            CoreError::KeyGeneration => "failed to generate a key",
            CoreError::Encryption => "failed to encrypt",
            CoreError::Decryption => "failed to decrypt",
            CoreError::InvalidHexEncoding => "failed to decode the hex message",
            CoreError::InvalidUtf8 => "failed to convert decrypted bytes to a string",
        }
    }
}

} // verus!
