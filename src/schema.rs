use vstd::prelude::*;

verus! {

/// The uniform response envelope: exactly one of `data` and `error` is present.
#[derive(Debug)]
pub struct ApiResponse<T> {
    pub success: bool,
    pub data: Option<T>,
    pub error: Option<String>,
}

impl<T> ApiResponse<T> {
    /// Envelope of a successful result.
    pub open spec fn is_success_with(&self, data: T) -> bool {
        self.success && self.data == Some(data) && self.error is None
    }

    /// Envelope of a failure carrying `msg`.
    pub open spec fn is_error_with(&self, msg: Seq<char>) -> bool {
        !self.success && self.data is None && self.error is Some && self.error->0@ == msg
    }

    pub fn success(data: T) -> (r: Self)
        ensures
            r.is_success_with(data),
    {
        ApiResponse { success: true, data: Some(data), error: None }
    }

    pub fn error(error: String) -> (r: Self)
        ensures
            r.is_error_with(error@),
    {
        ApiResponse { success: false, data: None, error: Some(error) }
    }
}

/// A freshly generated key pair, both halves in base58.
#[derive(Debug)]
pub struct KeypairResponse {
    pub pubkey: String,
    pub secret: String,
}

/// An instruction as handed to clients: base58 program id, ordered accounts,
/// base64 payload.
#[derive(Debug)]
pub struct InstructionResponse {
    pub program_id: String,
    pub accounts: Vec<AccountMetaResponse>,
    pub instruction_data: String,
}

#[derive(Debug)]
pub struct AccountMetaResponse {
    pub pubkey: String,
    pub is_signer: bool,
    pub is_writable: bool,
}

#[derive(Debug)]
pub struct SignMessageResponse {
    pub signature: String,
    pub public_key: String,
    pub message: String,
}

#[derive(Debug)]
pub struct VerifyMessageResponse {
    pub valid: bool,
    pub message: String,
    pub pubkey: String,
}

#[derive(Debug)]
pub struct CreateTokenRequest {
    pub mint_authority: String,
    pub mint: String,
    pub decimals: u8,
}

#[derive(Debug)]
pub struct MintTokenRequest {
    pub mint: String,
    pub destination: String,
    pub authority: String,
    pub amount: u64,
}

#[derive(Debug)]
pub struct SignMessageRequest {
    pub message: String,
    pub secret: String,
}

#[derive(Debug)]
pub struct VerifyMessageRequest {
    pub message: String,
    pub signature: String,
    pub pubkey: String,
}

#[derive(Debug)]
pub struct SendSolRequest {
    pub from: String,
    pub to: String,
    pub lamports: u64,
}

#[derive(Debug)]
pub struct SendTokenRequest {
    pub destination: String,
    pub mint: String,
    pub owner: String,
    pub amount: u64,
}

} // verus!
