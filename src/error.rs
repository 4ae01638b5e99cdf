use vstd::prelude::*;

verus! {

/// Why a request was refused. Every variant is a validation failure of the
/// caller's input.
#[derive(Debug, Clone, Copy, PartialEq, Eq, Structural)]
pub enum RequestError {
    InvalidAddress,
    InvalidEncoding,
    InvalidKeyLength,
    InvalidKeypair,
    InvalidBase64,
    InvalidSignatureEncoding,
    EmptyField,
    InvalidAmount,
}

/// The human-readable text reported for each error.
pub open spec fn message_of(e: RequestError) -> Seq<char> {
    match e {
        RequestError::InvalidAddress => "Invalid public key"@,
        RequestError::InvalidEncoding => "Invalid base58 encoding"@,
        RequestError::InvalidKeyLength => "Secret key must be 64 bytes"@,
        RequestError::InvalidKeypair => "Invalid keypair"@,
        RequestError::InvalidBase64 => "Invalid base64 signature"@,
        RequestError::InvalidSignatureEncoding => "Invalid signature: expected 64 bytes"@,
        RequestError::EmptyField => "Missing required fields"@,
        RequestError::InvalidAmount => "Lamports must be greater than 0"@,
    }
}

impl RequestError {
    pub fn message(&self) -> (r: String)
        ensures
            r@ == message_of(*self),
            r@.len() > 0,
    {
        match self {
            RequestError::InvalidAddress => {
                proof { reveal_strlit("Invalid public key"); }
                "Invalid public key".to_owned()
            },
            RequestError::InvalidEncoding => {
                proof { reveal_strlit("Invalid base58 encoding"); }
                "Invalid base58 encoding".to_owned()
            },
            RequestError::InvalidKeyLength => {
                proof { reveal_strlit("Secret key must be 64 bytes"); }
                "Secret key must be 64 bytes".to_owned()
            },
            RequestError::InvalidKeypair => {
                proof { reveal_strlit("Invalid keypair"); }
                "Invalid keypair".to_owned()
            },
            RequestError::InvalidBase64 => {
                proof { reveal_strlit("Invalid base64 signature"); }
                "Invalid base64 signature".to_owned()
            },
            RequestError::InvalidSignatureEncoding => {
                proof { reveal_strlit("Invalid signature: expected 64 bytes"); }
                "Invalid signature: expected 64 bytes".to_owned()
            },
            RequestError::EmptyField => {
                proof { reveal_strlit("Missing required fields"); }
                "Missing required fields".to_owned()
            },
            RequestError::InvalidAmount => {
                proof { reveal_strlit("Lamports must be greater than 0"); }
                "Lamports must be greater than 0".to_owned()
            },
        }
    }
}

} // verus!
