//! What the auction takes from the ledger's own libraries: address derivation
//! and the layouts of token accounts. Each item here is trusted as stated.
use vstd::prelude::*;
use solana_program::program_error::ProgramError;
use solana_program::program_pack::Pack;
use solana_program::pubkey::Pubkey;

use crate::error::ProcessError;
use crate::instruction::u64_at;

verus! {

/// The program-derived address of `program_id` for one seed, if the seed's
/// hash is not a point on the curve.
pub uninterp spec fn program_address(seed: Seq<u8>, program_id: Seq<u8>) -> Option<Seq<u8>>;

/// The associated token account of a wallet for a mint.
pub uninterp spec fn associated_token_address(wallet: Seq<u8>, mint: Seq<u8>) -> Seq<u8>;

/// Relies on `Pubkey::create_program_address` with the single seed `seed`:
/// a hash of the seed and the program id, or an error where that hash lies on
/// the curve. It depends on its arguments alone.
#[verifier::external_body]
pub(crate) fn create_program_address(seed: &[u8; 32], program_id: &[u8; 32]) -> (r: Option<
    [u8; 32],
>)
    ensures
        match r {
            Some(k) => program_address(seed@, program_id@) == Some(k@),
            None => program_address(seed@, program_id@) is None,
        },
{
    let program_id = Pubkey::new_from_array(*program_id);
    Pubkey::create_program_address(&[seed.as_ref()], &program_id).ok().map(|k| k.to_bytes())
}

/// Relies on `spl_associated_token_account::get_associated_token_address`: a
/// derivation from the wallet and the mint alone. It searches the bump seeds
/// and panics only if none of the 255 gives an address off the curve.
#[verifier::external_body]
pub(crate) fn get_associated_token_address(wallet: &[u8; 32], mint: &[u8; 32]) -> (r: [u8; 32])
    ensures
        r@ == associated_token_address(wallet@, mint@),
{
    let wallet = Pubkey::new_from_array(*wallet);
    let mint = Pubkey::new_from_array(*mint);
    spl_associated_token_account::get_associated_token_address(&wallet, &mint).to_bytes()
}

/// Whether the four bytes of `s` from `at` are the tag of an absent (0) or a
/// present (1) optional field.
pub open spec fn option_tag_valid(s: Seq<u8>, at: int) -> bool {
    &&& s[at] <= 1
    &&& s[at + 1] == 0
    &&& s[at + 2] == 0
    &&& s[at + 3] == 0
}

/// Whether `d` has the 82-byte layout of a token mint: an optional mint
/// authority (tag at 0), the supply, the decimals (44), the initialized flag
/// (45, 0 or 1) and an optional freeze authority (tag at 46).
pub open spec fn mint_layout_valid(d: Seq<u8>) -> bool {
    &&& d.len() == 82
    &&& option_tag_valid(d, 0)
    &&& d[45] <= 1
    &&& option_tag_valid(d, 46)
}

/// The decimals of the mint whose data is `d`, which must be an initialized mint.
pub open spec fn spec_mint_decimals(d: Seq<u8>) -> Result<u8, ProcessError> {
    if !mint_layout_valid(d) {
        Err(ProcessError::InvalidAccountData)
    } else if d[45] == 0 {
        Err(ProcessError::UninitializedAccount)
    } else {
        Ok(d[44])
    }
}

/// Whether `d` has the 165-byte layout of a token account: mint, owner, the
/// amount (64), an optional delegate (tag at 72), the state (108, at most 2),
/// an optional native reserve (tag at 109), the delegated amount and an
/// optional close authority (tag at 129).
pub open spec fn token_account_layout_valid(d: Seq<u8>) -> bool {
    &&& d.len() == 165
    &&& option_tag_valid(d, 72)
    &&& d[108] <= 2
    &&& option_tag_valid(d, 109)
    &&& option_tag_valid(d, 129)
}

/// The balance of the token account whose data is `d`.
pub open spec fn spec_token_amount(d: Seq<u8>) -> Result<u64, ProcessError> {
    if token_account_layout_valid(d) {
        Ok(u64_at(d, 64))
    } else {
        Err(ProcessError::InvalidAccountData)
    }
}

/// Relies on `spl_token::state::Mint::unpack`: it refuses data that is not 82
/// bytes or has a bad option tag or flag (`InvalidAccountData`), then a mint
/// whose initialized flag is 0 (`UninitializedAccount`), and reads the
/// decimals from byte 44.
#[verifier::external_body]
pub(crate) fn unpack_mint_decimals(data: &[u8]) -> (r: Result<u8, ProcessError>)
    ensures
        r == spec_mint_decimals(data@),
{
    match spl_token::state::Mint::unpack(data) {
        Ok(mint) => Ok(mint.decimals),
        Err(ProgramError::UninitializedAccount) => Err(ProcessError::UninitializedAccount),
        Err(_) => Err(ProcessError::InvalidAccountData),
    }
}

/// Relies on `spl_token::state::Account::unpack_unchecked`: it refuses data
/// that is not 165 bytes, has a bad option tag or a state above 2
/// (`InvalidAccountData`), and reads the amount little-endian from byte 64.
#[verifier::external_body]
pub(crate) fn unpack_token_amount(data: &[u8]) -> (r: Result<u64, ProcessError>)
    ensures
        r == spec_token_amount(data@),
{
    match spl_token::state::Account::unpack_unchecked(data) {
        Ok(account) => Ok(account.amount),
        Err(_) => Err(ProcessError::InvalidAccountData),
    }
}

/// Relies on `solana_program::system_program::id`: the system program's address.
#[verifier::external_body]
pub(crate) fn system_program_id() -> (r: [u8; 32]) {
    solana_program::system_program::id().to_bytes()
}

/// Relies on `solana_program::sysvar::rent::id`: the rent sysvar's address.
#[verifier::external_body]
pub(crate) fn rent_sysvar_id() -> (r: [u8; 32]) {
    solana_program::sysvar::rent::id().to_bytes()
}

/// Relies on `spl_token::id`: the token program's address.
#[verifier::external_body]
pub(crate) fn token_program_id() -> (r: [u8; 32]) {
    spl_token::id().to_bytes()
}

/// Relies on `spl_associated_token_account::id`: the associated token account
/// program's address.
#[verifier::external_body]
pub(crate) fn associated_token_program_id() -> (r: [u8; 32]) {
    spl_associated_token_account::id().to_bytes()
}

} // verus!
