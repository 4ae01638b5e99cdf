use vstd::prelude::*;
use vstd::utf8::encode_utf8;
use crate::codec::{
    address_of, base58_of, base64_decoded, base64_of, decode_bytes_base64, encode_bytes_base58,
    encode_bytes_base64, parse_pubkey,
};
use crate::crypto::{
    keypair_valid, new_keypair, parse_keypair, public_half, public_of, secret_of, sign,
    signature_of, signature_verifies, verify,
};
use crate::error::{message_of, RequestError};
use crate::instruction::{
    initialize_mint, initialize_mint_data, instruction_to_response, mint_to, mint_to_data,
    rent_sysvar_bytes, response_is, system_program_bytes, system_transfer_data,
    token_program_bytes, transfer_checked_data, transfer_native, transfer_token, Instruction,
    TRANSFER_DECIMALS,
};
use crate::schema::{
    ApiResponse, CreateTokenRequest, InstructionResponse, KeypairResponse, MintTokenRequest,
    SendSolRequest, SendTokenRequest, SignMessageRequest, SignMessageResponse,
    VerifyMessageRequest, VerifyMessageResponse,
};

verus! {

pub const STATUS_OK: u16 = 200;

pub const STATUS_BAD_REQUEST: u16 = 400;

/// A reply: HTTP status and response envelope.
pub type Reply<T> = (u16, ApiResponse<T>);

/// Status 200 with a success envelope; the payload is `r.1.data->0`.
pub open spec fn is_ok_reply<T>(r: Reply<T>) -> bool {
    r.0 == STATUS_OK && r.1.success && r.1.data is Some && r.1.error is None
}

/// Status 400 with an error envelope carrying the text of `e`.
pub open spec fn is_err_reply<T>(r: Reply<T>, e: RequestError) -> bool {
    r.0 == STATUS_BAD_REQUEST && r.1.is_error_with(message_of(e))
}

fn error_reply<T>(e: RequestError) -> (r: Reply<T>)
    ensures
        is_err_reply(r, e),
{
    (STATUS_BAD_REQUEST, ApiResponse::error(e.message()))
}

fn instruction_reply(ix: Instruction) -> (r: Reply<InstructionResponse>)
    ensures
        is_ok_reply(r),
        response_is(r.1.data->0, ix.program_id@, ix.accounts_view(), ix.data@),
{
    (STATUS_OK, ApiResponse::success(instruction_to_response(ix)))
}

/// Both halves of key pair `k` in base58.
pub fn keypair_response(k: &Vec<u8>) -> (r: KeypairResponse)
    requires
        k@.len() == 64,
    ensures
        r.pubkey@ == base58_of(public_half(k@)),
        r.secret@ == base58_of(k@),
        address_of(r.pubkey@) == Some(public_half(k@)),
        keypair_valid(k@) ==> secret_of(r.secret@) == Ok::<Seq<u8>, RequestError>(k@),
{
    let public = public_of(k);
    KeypairResponse { pubkey: encode_bytes_base58(&public), secret: encode_bytes_base58(k) }
}

/// A fresh random key pair. Its public key reads back as an address and its
/// secret reads back as a valid 64-byte key pair.
pub fn generate_keypair() -> (r: Reply<KeypairResponse>)
    ensures
        is_ok_reply(r),
        address_of(r.1.data->0.pubkey@) is Some,
        secret_of(r.1.data->0.secret@) is Ok,
{
    let k = new_keypair();
    (STATUS_OK, ApiResponse::success(keypair_response(&k)))
}

/// InitializeMint from base58 `mintAuthority` and `mint`; any `u8` number of
/// decimals is accepted.
pub fn create_token(payload: CreateTokenRequest) -> (r: Reply<InstructionResponse>)
    ensures
        match (address_of(payload.mint_authority@), address_of(payload.mint@)) {
            (Some(authority), Some(mint)) => is_ok_reply(r) && response_is(
                r.1.data->0,
                token_program_bytes(),
                seq![(mint, false, true), (rent_sysvar_bytes(), false, false)],
                initialize_mint_data(authority, payload.decimals),
            ),
            _ => is_err_reply(r, RequestError::InvalidAddress),
        },
{
    let mint_authority = match parse_pubkey(payload.mint_authority.as_str()) {
        Ok(pk) => pk,
        Err(e) => return error_reply(e),
    };
    let mint = match parse_pubkey(payload.mint.as_str()) {
        Ok(pk) => pk,
        Err(e) => return error_reply(e),
    };
    instruction_reply(initialize_mint(&mint, &mint_authority, payload.decimals))
}

/// MintTo from base58 `mint`, `destination` and `authority`; any amount,
/// zero included.
pub fn mint_token(payload: MintTokenRequest) -> (r: Reply<InstructionResponse>)
    ensures
        match (
            address_of(payload.mint@),
            address_of(payload.destination@),
            address_of(payload.authority@),
        ) {
            (Some(mint), Some(destination), Some(authority)) => is_ok_reply(r) && response_is(
                r.1.data->0,
                token_program_bytes(),
                seq![(mint, false, true), (destination, false, true), (authority, true, false)],
                mint_to_data(payload.amount),
            ),
            _ => is_err_reply(r, RequestError::InvalidAddress),
        },
{
    let mint = match parse_pubkey(payload.mint.as_str()) {
        Ok(pk) => pk,
        Err(e) => return error_reply(e),
    };
    let destination = match parse_pubkey(payload.destination.as_str()) {
        Ok(pk) => pk,
        Err(e) => return error_reply(e),
    };
    let authority = match parse_pubkey(payload.authority.as_str()) {
        Ok(pk) => pk,
        Err(e) => return error_reply(e),
    };
    instruction_reply(mint_to(&mint, &destination, &authority, payload.amount))
}

/// Signs the UTF-8 bytes of `message` with a base58 secret key. Empty fields
/// are refused before the secret is decoded.
pub fn sign_message(payload: SignMessageRequest) -> (r: Reply<SignMessageResponse>)
    ensures
        payload.message@.len() == 0 || payload.secret@.len() == 0 ==> is_err_reply(
            r,
            RequestError::EmptyField,
        ),
        payload.message@.len() != 0 && payload.secret@.len() != 0 ==> match secret_of(
            payload.secret@,
        ) {
            Ok(k) => {
                &&& is_ok_reply(r)
                &&& r.1.data->0.signature@ == base64_of(signature_of(k, encode_utf8(payload.message@)))
                &&& base64_decoded(r.1.data->0.signature@) == Some(
                    signature_of(k, encode_utf8(payload.message@)),
                )
                &&& signature_of(k, encode_utf8(payload.message@)).len() == 64
                &&& signature_verifies(
                    signature_of(k, encode_utf8(payload.message@)),
                    public_half(k),
                    encode_utf8(payload.message@),
                )
                &&& r.1.data->0.public_key@ == base58_of(public_half(k))
                &&& r.1.data->0.message@ == payload.message@
            },
            Err(e) => is_err_reply(r, e),
        },
{
    if payload.message.as_str().is_empty() || payload.secret.as_str().is_empty() {
        return error_reply(RequestError::EmptyField);
    }
    let k = match parse_keypair(payload.secret.as_str()) {
        Ok(k) => k,
        Err(e) => return error_reply(e),
    };
    let signature = sign(payload.message.as_str().as_bytes(), &k);
    let public = public_of(&k);
    let data = SignMessageResponse {
        signature: encode_bytes_base64(&signature),
        public_key: encode_bytes_base58(&public),
        message: payload.message,
    };
    (STATUS_OK, ApiResponse::success(data))
}

/// Checks a base64 signature of the UTF-8 bytes of `message` under a base58
/// public key. A signature that does not match is a successful reply with
/// `valid == false`; only malformed input is refused.
pub fn verify_message(payload: VerifyMessageRequest) -> (r: Reply<VerifyMessageResponse>)
    ensures
        match address_of(payload.pubkey@) {
            None => is_err_reply(r, RequestError::InvalidAddress),
            Some(pk) => match base64_decoded(payload.signature@) {
                None => is_err_reply(r, RequestError::InvalidBase64),
                Some(sig) => if sig.len() != 64 {
                    is_err_reply(r, RequestError::InvalidSignatureEncoding)
                } else {
                    &&& is_ok_reply(r)
                    &&& r.1.data->0.valid == signature_verifies(sig, pk, encode_utf8(payload.message@))
                    &&& r.1.data->0.message@ == payload.message@
                    &&& r.1.data->0.pubkey@ == payload.pubkey@
                },
            },
        },
{
    let pubkey = match parse_pubkey(payload.pubkey.as_str()) {
        Ok(pk) => pk,
        Err(e) => return error_reply(e),
    };
    let signature = match decode_bytes_base64(payload.signature.as_str()) {
        Ok(bytes) => bytes,
        Err(e) => return error_reply(e),
    };
    let valid = match verify(&signature, payload.message.as_str().as_bytes(), &pubkey) {
        Ok(v) => v,
        Err(e) => return error_reply(e),
    };
    let data = VerifyMessageResponse { valid, message: payload.message, pubkey: payload.pubkey };
    (STATUS_OK, ApiResponse::success(data))
}

/// Native transfer from base58 `from` to `to`; zero lamports are refused
/// after both addresses are read.
pub fn send_sol(payload: SendSolRequest) -> (r: Reply<InstructionResponse>)
    ensures
        match (address_of(payload.from@), address_of(payload.to@)) {
            (Some(from), Some(to)) => if payload.lamports == 0 {
                is_err_reply(r, RequestError::InvalidAmount)
            } else {
                is_ok_reply(r) && response_is(
                    r.1.data->0,
                    system_program_bytes(),
                    seq![(from, true, true), (to, false, true)],
                    system_transfer_data(payload.lamports),
                )
            },
            _ => is_err_reply(r, RequestError::InvalidAddress),
        },
{
    let from = match parse_pubkey(payload.from.as_str()) {
        Ok(pk) => pk,
        Err(e) => return error_reply(e),
    };
    let to = match parse_pubkey(payload.to.as_str()) {
        Ok(pk) => pk,
        Err(e) => return error_reply(e),
    };
    match transfer_native(&from, &to, payload.lamports) {
        Ok(ix) => instruction_reply(ix),
        Err(e) => error_reply(e),
    }
}

/// Checked token transfer from base58 `destination`, `mint` and `owner`; the
/// owner's address also stands for the source account, with nine decimals.
pub fn send_token(payload: SendTokenRequest) -> (r: Reply<InstructionResponse>)
    ensures
        match (
            address_of(payload.destination@),
            address_of(payload.mint@),
            address_of(payload.owner@),
        ) {
            (Some(destination), Some(mint), Some(owner)) => is_ok_reply(r) && response_is(
                r.1.data->0,
                token_program_bytes(),
                seq![
                    (owner, false, true),
                    (mint, false, false),
                    (destination, false, true),
                    (owner, true, false),
                ],
                transfer_checked_data(payload.amount, TRANSFER_DECIMALS),
            ),
            _ => is_err_reply(r, RequestError::InvalidAddress),
        },
{
    let destination = match parse_pubkey(payload.destination.as_str()) {
        Ok(pk) => pk,
        Err(e) => return error_reply(e),
    };
    let mint = match parse_pubkey(payload.mint.as_str()) {
        Ok(pk) => pk,
        Err(e) => return error_reply(e),
    };
    let owner = match parse_pubkey(payload.owner.as_str()) {
        Ok(pk) => pk,
        Err(e) => return error_reply(e),
    };
    instruction_reply(transfer_token(&destination, &mint, &owner, payload.amount))
}

} // verus!
