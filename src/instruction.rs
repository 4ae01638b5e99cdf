use vstd::prelude::*;
use vstd::arithmetic::power2::pow2;
use solana_sdk::pubkey::Pubkey;
use spl_token::instruction as token_ix;
use crate::error::RequestError;
use crate::codec::{base58_of, base64_of, encode_bytes_base58, encode_bytes_base64};
use crate::schema::{AccountMetaResponse, InstructionResponse};

verus! {

/// One account that an instruction touches, with its access flags.
#[derive(Debug, Clone)]
pub struct AccountMeta {
    pub pubkey: Vec<u8>,
    pub is_signer: bool,
    pub is_writable: bool,
}

/// Description of one ledger operation: target program, ordered accounts and
/// opaque payload. It is never executed here.
#[derive(Debug, Clone)]
pub struct Instruction {
    pub program_id: Vec<u8>,
    pub accounts: Vec<AccountMeta>,
    pub data: Vec<u8>,
}

/// An account reference as plain values: (address, is_signer, is_writable).
pub type MetaView = (Seq<u8>, bool, bool);

pub open spec fn meta_view(m: AccountMeta) -> MetaView {
    (m.pubkey@, m.is_signer, m.is_writable)
}

impl Instruction {
    pub open spec fn accounts_view(&self) -> Seq<MetaView> {
        self.accounts@.map_values(|m: AccountMeta| meta_view(m))
    }

    /// The instruction targets `program`, lists `metas` in order and carries `data`.
    pub open spec fn is(&self, program: Seq<u8>, metas: Seq<MetaView>, data: Seq<u8>) -> bool {
        self.program_id@ == program && self.accounts_view() == metas && self.data@ == data
    }
}

/// Address of the token program.
pub open spec fn token_program_bytes() -> Seq<u8> {
    seq![
        6u8, 221, 246, 225, 215, 101, 161, 147, 217, 203, 225, 70, 206, 235, 121, 172,
        28, 180, 133, 237, 95, 91, 55, 145, 58, 140, 245, 133, 126, 255, 0, 169,
    ]
}

/// Address of the rent sysvar.
pub open spec fn rent_sysvar_bytes() -> Seq<u8> {
    seq![
        6u8, 167, 213, 23, 25, 44, 92, 81, 33, 140, 201, 76, 61, 74, 241, 127,
        88, 218, 238, 8, 155, 161, 253, 68, 227, 219, 217, 138, 0, 0, 0, 0,
    ]
}

/// Address of the system program: 32 zero bytes.
pub open spec fn system_program_bytes() -> Seq<u8> {
    Seq::new(32, |i: int| 0u8)
}

/// Little-endian bytes of a 64-bit value.
pub open spec fn le_bytes(a: u64) -> Seq<u8> {
    Seq::new(8, |i: int| ((a as int / pow2((8 * i) as nat) as int) % 256) as u8)
}

/// Payload of the token program's InitializeMint, without freeze authority.
pub open spec fn initialize_mint_data(authority: Seq<u8>, decimals: u8) -> Seq<u8> {
    seq![0u8, decimals] + authority + seq![0u8]
}

/// Payload of the token program's MintTo.
pub open spec fn mint_to_data(amount: u64) -> Seq<u8> {
    seq![7u8] + le_bytes(amount)
}

/// Payload of the token program's TransferChecked.
pub open spec fn transfer_checked_data(amount: u64, decimals: u8) -> Seq<u8> {
    seq![12u8] + le_bytes(amount) + seq![decimals]
}

/// Payload of the system program's Transfer: variant index 2 as a
/// little-endian u32, then the lamports.
pub open spec fn system_transfer_data(lamports: u64) -> Seq<u8> {
    seq![2u8, 0, 0, 0] + le_bytes(lamports)
}

/// Relies on `spl_token::instruction::initialize_mint` with the token
/// program's id and no freeze authority: mint (writable), rent sysvar
/// (read-only), payload `[0, decimals, authority, 0]`.
#[verifier::external_body]
fn sdk_initialize_mint(mint: &[u8], authority: &[u8], decimals: u8) -> (r: Instruction)
    requires
        mint@.len() == 32,
        authority@.len() == 32,
    ensures
        r.is(
            token_program_bytes(),
            seq![(mint@, false, true), (rent_sysvar_bytes(), false, false)],
            initialize_mint_data(authority@, decimals),
        ),
{
    let (m, a) = (Pubkey::try_from(mint).unwrap(), Pubkey::try_from(authority).unwrap());
    let ix = token_ix::initialize_mint(&spl_token::id(), &m, &a, None, decimals).unwrap();
    Instruction {
        program_id: ix.program_id.to_bytes().to_vec(),
        accounts: ix.accounts.iter().map(|k| AccountMeta {
            pubkey: k.pubkey.to_bytes().to_vec(), is_signer: k.is_signer, is_writable: k.is_writable,
        }).collect(),
        data: ix.data,
    }
}

/// Relies on `spl_token::instruction::mint_to` with the token program's id and
/// no multisig signers: mint and destination writable, authority a read-only
/// signer, payload `[7, amount]`.
#[verifier::external_body]
fn sdk_mint_to(mint: &[u8], destination: &[u8], authority: &[u8], amount: u64) -> (r: Instruction)
    requires
        mint@.len() == 32,
        destination@.len() == 32,
        authority@.len() == 32,
    ensures
        r.is(
            token_program_bytes(),
            seq![(mint@, false, true), (destination@, false, true), (authority@, true, false)],
            mint_to_data(amount),
        ),
{
    let (m, d) = (Pubkey::try_from(mint).unwrap(), Pubkey::try_from(destination).unwrap());
    let a = Pubkey::try_from(authority).unwrap();
    let ix = token_ix::mint_to(&spl_token::id(), &m, &d, &a, &[], amount).unwrap();
    Instruction {
        program_id: ix.program_id.to_bytes().to_vec(),
        accounts: ix.accounts.iter().map(|k| AccountMeta {
            pubkey: k.pubkey.to_bytes().to_vec(), is_signer: k.is_signer, is_writable: k.is_writable,
        }).collect(),
        data: ix.data,
    }
}

/// Relies on `spl_token::instruction::transfer_checked` with the token
/// program's id and no multisig signers: source writable, mint read-only,
/// destination writable, authority a read-only signer, payload
/// `[12, amount, decimals]`.
#[verifier::external_body]
fn sdk_transfer_checked(
    source: &[u8],
    mint: &[u8],
    destination: &[u8],
    authority: &[u8],
    amount: u64,
    decimals: u8,
) -> (r: Instruction)
    requires
        source@.len() == 32,
        mint@.len() == 32,
        destination@.len() == 32,
        authority@.len() == 32,
    ensures
        r.is(
            token_program_bytes(),
            seq![
                (source@, false, true),
                (mint@, false, false),
                (destination@, false, true),
                (authority@, true, false),
            ],
            transfer_checked_data(amount, decimals),
        ),
{
    let (s, m) = (Pubkey::try_from(source).unwrap(), Pubkey::try_from(mint).unwrap());
    let (d, a) = (Pubkey::try_from(destination).unwrap(), Pubkey::try_from(authority).unwrap());
    let ix = token_ix::transfer_checked(&spl_token::id(), &s, &m, &d, &a, &[], amount, decimals);
    let ix = ix.unwrap();
    Instruction {
        program_id: ix.program_id.to_bytes().to_vec(),
        accounts: ix.accounts.iter().map(|k| AccountMeta {
            pubkey: k.pubkey.to_bytes().to_vec(), is_signer: k.is_signer, is_writable: k.is_writable,
        }).collect(),
        data: ix.data,
    }
}

/// Relies on `solana_sdk::system_instruction::transfer`: system program, sender
/// a writable signer, recipient writable, payload the bincode of
/// `Transfer { lamports }`.
#[verifier::external_body]
fn sdk_system_transfer(from: &[u8], to: &[u8], lamports: u64) -> (r: Instruction)
    requires
        from@.len() == 32,
        to@.len() == 32,
    ensures
        r.is(
            system_program_bytes(),
            seq![(from@, true, true), (to@, false, true)],
            system_transfer_data(lamports),
        ),
{
    let (f, t) = (Pubkey::try_from(from).unwrap(), Pubkey::try_from(to).unwrap());
    let ix = solana_sdk::system_instruction::transfer(&f, &t, lamports);
    Instruction {
        program_id: ix.program_id.to_bytes().to_vec(),
        accounts: ix.accounts.iter().map(|k| AccountMeta {
            pubkey: k.pubkey.to_bytes().to_vec(), is_signer: k.is_signer, is_writable: k.is_writable,
        }).collect(),
        data: ix.data,
    }
}

/// Decimal places assumed for every token transfer, whatever the mint's own.
pub const TRANSFER_DECIMALS: u8 = 9;

/// InitializeMint for `mint` with `mint_authority` and no freeze authority.
pub fn initialize_mint(mint: &Vec<u8>, mint_authority: &Vec<u8>, decimals: u8) -> (r: Instruction)
    requires
        mint@.len() == 32,
        mint_authority@.len() == 32,
    ensures
        r.is(
            token_program_bytes(),
            seq![(mint@, false, true), (rent_sysvar_bytes(), false, false)],
            initialize_mint_data(mint_authority@, decimals),
        ),
{
    sdk_initialize_mint(mint.as_slice(), mint_authority.as_slice(), decimals)
}

/// MintTo of `amount` (zero included) from `mint` into `destination`,
/// signed by `authority`.
pub fn mint_to(mint: &Vec<u8>, destination: &Vec<u8>, authority: &Vec<u8>, amount: u64) -> (r: Instruction)
    requires
        mint@.len() == 32,
        destination@.len() == 32,
        authority@.len() == 32,
    ensures
        r.is(
            token_program_bytes(),
            seq![(mint@, false, true), (destination@, false, true), (authority@, true, false)],
            mint_to_data(amount),
        ),
{
    sdk_mint_to(mint.as_slice(), destination.as_slice(), authority.as_slice(), amount)
}

/// A native-currency transfer; a zero amount is refused.
pub fn transfer_native(from: &Vec<u8>, to: &Vec<u8>, lamports: u64) -> (r: Result<Instruction, RequestError>)
    requires
        from@.len() == 32,
        to@.len() == 32,
    ensures
        lamports == 0 ==> r == Err::<Instruction, RequestError>(RequestError::InvalidAmount),
        lamports > 0 ==> r is Ok && r->Ok_0.is(
            system_program_bytes(),
            seq![(from@, true, true), (to@, false, true)],
            system_transfer_data(lamports),
        ),
{
    if lamports == 0 {
        return Err(RequestError::InvalidAmount);
    }
    Ok(sdk_system_transfer(from.as_slice(), to.as_slice(), lamports))
}

/// A checked token transfer. The owner's address stands for the source token
/// account as well, and the mint is taken to have `TRANSFER_DECIMALS` places.
pub fn transfer_token(destination: &Vec<u8>, mint: &Vec<u8>, owner: &Vec<u8>, amount: u64) -> (r: Instruction)
    requires
        destination@.len() == 32,
        mint@.len() == 32,
        owner@.len() == 32,
    ensures
        r.is(
            token_program_bytes(),
            seq![
                (owner@, false, true),
                (mint@, false, false),
                (destination@, false, true),
                (owner@, true, false),
            ],
            transfer_checked_data(amount, TRANSFER_DECIMALS),
        ),
{
    sdk_transfer_checked(
        owner.as_slice(),
        mint.as_slice(),
        destination.as_slice(),
        owner.as_slice(),
        amount,
        TRANSFER_DECIMALS,
    )
}

/// `r` is the client form of an instruction with program `program`, accounts
/// `metas` and payload `data`: base58 addresses, same flags and order, base64
/// payload.
pub open spec fn response_is(
    r: InstructionResponse,
    program: Seq<u8>,
    metas: Seq<MetaView>,
    data: Seq<u8>,
) -> bool {
    &&& r.program_id@ == base58_of(program)
    &&& r.accounts@.len() == metas.len()
    &&& forall|i: int|
        0 <= i < metas.len() ==> {
            &&& (#[trigger] r.accounts@[i]).pubkey@ == base58_of(metas[i].0)
            &&& r.accounts@[i].is_signer == metas[i].1
            &&& r.accounts@[i].is_writable == metas[i].2
        }
    &&& r.instruction_data@ == base64_of(data)
}

/// The client form of an instruction.
pub fn instruction_to_response(instruction: Instruction) -> (r: InstructionResponse)
    ensures
        response_is(r, instruction.program_id@, instruction.accounts_view(), instruction.data@),
{
    let mut accounts: Vec<AccountMetaResponse> = Vec::new();
    let n = instruction.accounts.len();
    let mut i: usize = 0;
    while i < n
        invariant
            n == instruction.accounts@.len(),
            0 <= i <= n,
            accounts@.len() == i,
            forall|j: int|
                0 <= j < i ==> {
                    &&& (#[trigger] accounts@[j]).pubkey@ == base58_of(instruction.accounts@[j].pubkey@)
                    &&& accounts@[j].is_signer == instruction.accounts@[j].is_signer
                    &&& accounts@[j].is_writable == instruction.accounts@[j].is_writable
                },
        decreases n - i,
    {
        let meta = &instruction.accounts[i];
        accounts.push(AccountMetaResponse {
            pubkey: encode_bytes_base58(&meta.pubkey),
            is_signer: meta.is_signer,
            is_writable: meta.is_writable,
        });
        i += 1;
    }
    InstructionResponse {
        program_id: encode_bytes_base58(&instruction.program_id),
        accounts,
        instruction_data: encode_bytes_base64(&instruction.data),
    }
}

} // verus!
