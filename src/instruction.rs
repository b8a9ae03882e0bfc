use vstd::prelude::*;
use vstd::bytes::{
    lemma_auto_spec_u64_to_from_le_bytes, spec_u64_from_le_bytes, spec_u64_to_le_bytes,
    u64_from_le_bytes, u64_to_le_bytes,
};

use crate::error::AuctionError;
use crate::ledger::{
    associated_token_program_id, rent_sysvar_id, system_program_id, token_program_id,
};

verus! {

/// The 64-bit pattern of a signed timestamp (two's complement).
pub open spec fn i64_to_bits(v: i64) -> u64 {
    if v >= 0 {
        v as u64
    } else {
        (v + 0x1_0000_0000_0000_0000int) as u64
    }
}

/// The signed timestamp whose two's-complement pattern is `u`.
pub open spec fn i64_from_bits(u: u64) -> i64 {
    if u < 0x8000_0000_0000_0000u64 {
        u as i64
    } else {
        (u - 0x1_0000_0000_0000_0000int) as i64
    }
}

/// The unsigned little-endian integer held by the eight bytes of `s` from `at`.
pub open spec fn u64_at(s: Seq<u8>, at: int) -> u64 {
    spec_u64_from_le_bytes(s.subrange(at, at + 8))
}

/// The signed little-endian integer held by the eight bytes of `s` from `at`.
pub open spec fn i64_at(s: Seq<u8>, at: int) -> i64 {
    i64_from_bits(u64_at(s, at))
}

/// The eight little-endian bytes of a signed integer.
pub open spec fn i64_le_bytes(v: i64) -> Seq<u8> {
    spec_u64_to_le_bytes(i64_to_bits(v))
}

pub proof fn lemma_i64_bits_round_trip(v: i64)
    ensures
        i64_from_bits(i64_to_bits(v)) == v,
{
}

pub proof fn lemma_i64_bits_inverse(u: u64)
    ensures
        i64_to_bits(i64_from_bits(u)) == u,
{
}

pub fn i64_to_u64_bits(v: i64) -> (r: u64)
    ensures
        r == i64_to_bits(v),
{
    if v >= 0 {
        v as u64
    } else {
        ((v as i128) + 0x1_0000_0000_0000_0000i128) as u64
    }
}

pub fn i64_from_u64_bits(u: u64) -> (r: i64)
    ensures
        r == i64_from_bits(u),
{
    if u < 0x8000_0000_0000_0000u64 {
        u as i64
    } else {
        ((u as i128) - 0x1_0000_0000_0000_0000i128) as i64
    }
}

/// The four commands of the auction. The accounts each one expects, in order:
///
/// `InitializeAuction`: the auction record (writable), its authority, the
/// system program, the funding account (writable), the rent sysvar, the
/// associated-token-account program, the token program, the token mint, the
/// token source (writable), the vault holding account (writable), the vault
/// authority (writable), and the token source's owner (signer).
///
/// `MakeBid`: the auction record, the system program, the bidder's funding
/// account (writable), the token program, the token mint, the vault holding
/// account (writable), the vault authority (writable), and the bidder's token
/// account (writable).
///
/// `WithdrawSOL`: the auction record, its authority (signer), the system
/// program, the token mint, the vault authority (writable), and the
/// destination (writable).
///
/// `WithdrawTokens`: the auction record, its authority (signer), the token
/// program, the token mint, the vault holding account (writable), the vault
/// authority, and the destination token account (writable).
#[derive(Clone, Copy, Debug, PartialEq, Eq, Structural)]
pub enum AuctionInstruction {
    /// Set the auction parameters and move the tokens for sale into the vault.
    InitializeAuction {
        token_amount: u64,
        time_start: i64,
        time_step: i64,
        price_start: u64,
        price_step: u64,
    },
    /// Buy up to `token_amount` tokens at the current price.
    MakeBid { token_amount: u64 },
    /// Drain the native currency that the bids paid into the vault authority.
    WithdrawSOL,
    /// Drain the unsold tokens from the vault.
    WithdrawTokens,
}

impl AuctionInstruction {
    /// The wire form: a tag byte, then the fixed-width little-endian fields.
    pub open spec fn spec_pack(self) -> Seq<u8> {
        match self {
            AuctionInstruction::InitializeAuction {
                token_amount,
                time_start,
                time_step,
                price_start,
                price_step,
            } => seq![0u8] + spec_u64_to_le_bytes(token_amount) + i64_le_bytes(time_start)
                + i64_le_bytes(time_step) + spec_u64_to_le_bytes(price_start)
                + spec_u64_to_le_bytes(price_step),
            AuctionInstruction::MakeBid { token_amount } => seq![1u8] + spec_u64_to_le_bytes(
                token_amount,
            ),
            AuctionInstruction::WithdrawSOL => seq![2u8],
            AuctionInstruction::WithdrawTokens => seq![3u8],
        }
    }
}

/// The length of the wire form of the command with tag `tag`.
pub open spec fn packed_len(tag: u8) -> int {
    if tag == 0 {
        41
    } else if tag == 1 {
        9
    } else {
        1
    }
}

/// The command that `s` encodes, if any: the tag must be known and the length
/// exactly that of the tag's fields, with nothing missing and nothing after.
pub open spec fn spec_unpack(s: Seq<u8>) -> Option<AuctionInstruction> {
    if s.len() == 0 || s[0] > 3 || s.len() != packed_len(s[0]) {
        None
    } else if s[0] == 0 {
        Some(
            AuctionInstruction::InitializeAuction {
                token_amount: u64_at(s, 1),
                time_start: i64_at(s, 9),
                time_step: i64_at(s, 17),
                price_start: u64_at(s, 25),
                price_step: u64_at(s, 33),
            },
        )
    } else if s[0] == 1 {
        Some(AuctionInstruction::MakeBid { token_amount: u64_at(s, 1) })
    } else if s[0] == 2 {
        Some(AuctionInstruction::WithdrawSOL)
    } else {
        Some(AuctionInstruction::WithdrawTokens)
    }
}

/// Reads a little-endian `u64` from the front of `input`.
pub fn unpack_u64(input: &[u8]) -> (r: Result<(u64, &[u8]), AuctionError>)
    ensures
        match r {
            Ok((v, rest)) => {
                &&& input@.len() >= 8
                &&& v == u64_at(input@, 0)
                &&& rest@ == input@.subrange(8, input@.len() as int)
            },
            Err(e) => input@.len() < 8 && e == AuctionError::InvalidInstruction,
        },
{
    if input.len() < 8 {
        return Err(AuctionError::InvalidInstruction);
    }
    let (value, rest) = input.split_at(8);
    Ok((u64_from_le_bytes(value), rest))
}

/// Reads a little-endian signed timestamp from the front of `input`.
pub fn unpack_unix_timestamp(input: &[u8]) -> (r: Result<(i64, &[u8]), AuctionError>)
    ensures
        match r {
            Ok((v, rest)) => {
                &&& input@.len() >= 8
                &&& v == i64_at(input@, 0)
                &&& rest@ == input@.subrange(8, input@.len() as int)
            },
            Err(e) => input@.len() < 8 && e == AuctionError::InvalidInstruction,
        },
{
    match unpack_u64(input) {
        Ok((bits, rest)) => Ok((i64_from_u64_bits(bits), rest)),
        Err(e) => Err(e),
    }
}

impl AuctionInstruction {
    /// Decodes a command; `InvalidInstruction` on an unknown tag, a missing
    /// byte or a trailing byte.
    pub fn unpack(input: &[u8]) -> (r: Result<AuctionInstruction, AuctionError>)
        ensures
            match spec_unpack(input@) {
                Some(c) => r == Ok::<AuctionInstruction, AuctionError>(c),
                None => r == Err::<AuctionInstruction, AuctionError>(
                    AuctionError::InvalidInstruction,
                ),
            },
    {
        if input.len() == 0 {
            return Err(AuctionError::InvalidInstruction);
        }
        let tag = input[0];
        let (_, rest) = input.split_at(1);
        let ghost s = input@;
        let (this, rest) = if tag == 0 {
            let (token_amount, r1) = match unpack_u64(rest) {
                Ok(p) => p,
                Err(e) => return Err(e),
            };
            let (time_start, r2) = match unpack_unix_timestamp(r1) {
                Ok(p) => p,
                Err(e) => return Err(e),
            };
            let (time_step, r3) = match unpack_unix_timestamp(r2) {
                Ok(p) => p,
                Err(e) => return Err(e),
            };
            let (price_start, r4) = match unpack_u64(r3) {
                Ok(p) => p,
                Err(e) => return Err(e),
            };
            let (price_step, r5) = match unpack_u64(r4) {
                Ok(p) => p,
                Err(e) => return Err(e),
            };
            assert(r5@ =~= s.subrange(41, s.len() as int));
            assert(s.subrange(1, 9) =~= rest@.subrange(0, 8));
            assert(s.subrange(9, 17) =~= r1@.subrange(0, 8));
            assert(s.subrange(17, 25) =~= r2@.subrange(0, 8));
            assert(s.subrange(25, 33) =~= r3@.subrange(0, 8));
            assert(s.subrange(33, 41) =~= r4@.subrange(0, 8));
            (
                AuctionInstruction::InitializeAuction {
                    token_amount,
                    time_start,
                    time_step,
                    price_start,
                    price_step,
                },
                r5,
            )
        } else if tag == 1 {
            let (token_amount, r1) = match unpack_u64(rest) {
                Ok(p) => p,
                Err(e) => return Err(e),
            };
            assert(r1@ =~= s.subrange(9, s.len() as int));
            assert(s.subrange(1, 9) =~= rest@.subrange(0, 8));
            (AuctionInstruction::MakeBid { token_amount }, r1)
        } else if tag == 2 {
            (AuctionInstruction::WithdrawSOL, rest)
        } else if tag == 3 {
            (AuctionInstruction::WithdrawTokens, rest)
        } else {
            return Err(AuctionError::InvalidInstruction);
        };
        if rest.len() != 0 {
            return Err(AuctionError::InvalidInstruction);
        }
        Ok(this)
    }

    /// Encodes the command in its wire form.
    pub fn pack(&self) -> (r: Vec<u8>)
        ensures
            r@ == self.spec_pack(),
    {
        let mut buf: Vec<u8> = Vec::new();
        match self {
            AuctionInstruction::InitializeAuction {
                token_amount,
                time_start,
                time_step,
                price_start,
                price_step,
            } => {
                buf.push(0u8);
                let mut b = u64_to_le_bytes(*token_amount);
                buf.append(&mut b);
                let mut b = u64_to_le_bytes(i64_to_u64_bits(*time_start));
                buf.append(&mut b);
                let mut b = u64_to_le_bytes(i64_to_u64_bits(*time_step));
                buf.append(&mut b);
                let mut b = u64_to_le_bytes(*price_start);
                buf.append(&mut b);
                let mut b = u64_to_le_bytes(*price_step);
                buf.append(&mut b);
            },
            AuctionInstruction::MakeBid { token_amount } => {
                buf.push(1u8);
                let mut b = u64_to_le_bytes(*token_amount);
                buf.append(&mut b);
            },
            AuctionInstruction::WithdrawSOL => buf.push(2u8),
            AuctionInstruction::WithdrawTokens => buf.push(3u8),
        }
        buf
    }
}

/// Decoding an encoded command gives the command back.
pub proof fn lemma_unpack_pack(c: AuctionInstruction)
    ensures
        spec_unpack(c.spec_pack()) == Some(c),
{
    lemma_auto_spec_u64_to_from_le_bytes();
    let s = c.spec_pack();
    match c {
        AuctionInstruction::InitializeAuction {
            token_amount,
            time_start,
            time_step,
            price_start,
            price_step,
        } => {
            assert(s.subrange(1, 9) =~= spec_u64_to_le_bytes(token_amount));
            assert(s.subrange(9, 17) =~= i64_le_bytes(time_start));
            assert(s.subrange(17, 25) =~= i64_le_bytes(time_step));
            assert(s.subrange(25, 33) =~= spec_u64_to_le_bytes(price_start));
            assert(s.subrange(33, 41) =~= spec_u64_to_le_bytes(price_step));
            lemma_i64_bits_round_trip(time_start);
            lemma_i64_bits_round_trip(time_step);
        },
        AuctionInstruction::MakeBid { token_amount } => {
            assert(s.subrange(1, 9) =~= spec_u64_to_le_bytes(token_amount));
        },
        _ => {},
    }
}

/// Whatever decodes is exactly the encoding of what it decodes to: no byte is
/// ignored and none is implied.
pub proof fn lemma_pack_unpack(s: Seq<u8>)
    requires
        spec_unpack(s) is Some,
    ensures
        spec_unpack(s)->Some_0.spec_pack() == s,
{
    lemma_auto_spec_u64_to_from_le_bytes();
    let c = spec_unpack(s)->Some_0;
    if s[0] == 0 {
        assert(s.subrange(1, 9).len() == 8);
        assert(s.subrange(9, 17).len() == 8);
        assert(s.subrange(17, 25).len() == 8);
        assert(s.subrange(25, 33).len() == 8);
        assert(s.subrange(33, 41).len() == 8);
        assert(i64_to_bits(i64_at(s, 9)) == u64_at(s, 9));
        assert(i64_to_bits(i64_at(s, 17)) == u64_at(s, 17));
        assert(c.spec_pack() =~= seq![0u8] + s.subrange(1, 9) + s.subrange(9, 17) + s.subrange(
            17,
            25,
        ) + s.subrange(25, 33) + s.subrange(33, 41));
        assert(s =~= seq![0u8] + s.subrange(1, 9) + s.subrange(9, 17) + s.subrange(17, 25)
            + s.subrange(25, 33) + s.subrange(33, 41));
    } else if s[0] == 1 {
        assert(s.subrange(1, 9).len() == 8);
        assert(c.spec_pack() =~= seq![1u8] + s.subrange(1, 9));
        assert(s =~= seq![1u8] + s.subrange(1, 9));
    } else {
        assert(s =~= seq![s[0]]);
    }
}

/// A tagged input of any length other than its tag's is refused: a truncated
/// or over-long payload never decodes.
pub proof fn lemma_unpack_rejects_wrong_length(s: Seq<u8>)
    requires
        s.len() > 0,
        s.len() != packed_len(s[0]),
    ensures
        spec_unpack(s) is None,
{
}

/// The auction program's own address.
pub const ID: [u8; 32] = [
    3, 78, 197, 196, 179, 151, 190, 157, 243, 155, 190, 70, 210, 50, 80, 254, 191, 243, 106, 92,
    9, 145, 30, 109, 226, 223, 142, 100, 128, 0, 0, 0,
];

/// The auction program's own address.
pub fn id() -> (r: [u8; 32])
    ensures
        r == ID,
{
    ID
}

/// One account that an instruction names, with its access.
#[derive(Clone, Copy, Debug, PartialEq, Eq)]
pub struct AccountMeta {
    pub pubkey: [u8; 32],
    pub is_signer: bool,
    pub is_writable: bool,
}

/// An instruction for the ledger: the program to run, its accounts, its data.
#[derive(Clone, Debug, PartialEq, Eq)]
pub struct Instruction {
    pub program_id: [u8; 32],
    pub accounts: Vec<AccountMeta>,
    pub data: Vec<u8>,
}

/// A writable account.
pub fn writable(pubkey: [u8; 32], is_signer: bool) -> (r: AccountMeta)
    ensures
        r == (AccountMeta { pubkey, is_signer, is_writable: true }),
{
    AccountMeta { pubkey, is_signer, is_writable: true }
}

/// A read-only account.
pub fn readonly(pubkey: [u8; 32], is_signer: bool) -> (r: AccountMeta)
    ensures
        r == (AccountMeta { pubkey, is_signer, is_writable: false }),
{
    AccountMeta { pubkey, is_signer, is_writable: false }
}

/// Whether `m` names `pubkey` with the given access.
pub open spec fn names(m: AccountMeta, pubkey: [u8; 32], is_signer: bool, is_writable: bool) -> bool {
    m == AccountMeta { pubkey, is_signer, is_writable }
}

/// Whether `m` is a read-only account that does not sign.
pub open spec fn plain_readonly(m: AccountMeta) -> bool {
    !m.is_signer && !m.is_writable
}

/// The instruction that initializes the auction at `auction_pubkey`, with its
/// accounts in the order that `InitializeAuction` lists.
pub fn initialize_auction(
    auction_pubkey: &[u8; 32],
    auction_authority_pubkey: &[u8; 32],
    funding_pubkey: &[u8; 32],
    token_pubkey: &[u8; 32],
    token_source_pubkey: &[u8; 32],
    token_auction_pubkey: &[u8; 32],
    token_auction_owner_pubkey: &[u8; 32],
    token_authority_pubkey: &[u8; 32],
    token_amount: u64,
    time_start: i64,
    time_step: i64,
    price_start: u64,
    price_step: u64,
) -> (r: Instruction)
    ensures
        r.program_id == ID,
        r.data@ == (AuctionInstruction::InitializeAuction {
            token_amount,
            time_start,
            time_step,
            price_start,
            price_step,
        }).spec_pack(),
        r.accounts@.len() == 12,
        names(r.accounts@[0], *auction_pubkey, false, true),
        names(r.accounts@[1], *auction_authority_pubkey, false, false),
        plain_readonly(r.accounts@[2]),
        names(r.accounts@[3], *funding_pubkey, false, true),
        plain_readonly(r.accounts@[4]),
        plain_readonly(r.accounts@[5]),
        plain_readonly(r.accounts@[6]),
        names(r.accounts@[7], *token_pubkey, false, false),
        names(r.accounts@[8], *token_source_pubkey, false, true),
        names(r.accounts@[9], *token_auction_pubkey, false, true),
        names(r.accounts@[10], *token_auction_owner_pubkey, false, true),
        names(r.accounts@[11], *token_authority_pubkey, true, true),
{
    let mut accounts: Vec<AccountMeta> = Vec::new();
    accounts.push(writable(*auction_pubkey, false));
    accounts.push(readonly(*auction_authority_pubkey, false));
    accounts.push(readonly(system_program_id(), false));
    accounts.push(writable(*funding_pubkey, false));
    accounts.push(readonly(rent_sysvar_id(), false));
    accounts.push(readonly(associated_token_program_id(), false));
    accounts.push(readonly(token_program_id(), false));
    accounts.push(readonly(*token_pubkey, false));
    accounts.push(writable(*token_source_pubkey, false));
    accounts.push(writable(*token_auction_pubkey, false));
    accounts.push(writable(*token_auction_owner_pubkey, false));
    accounts.push(writable(*token_authority_pubkey, true));
    let data = AuctionInstruction::InitializeAuction {
        token_amount,
        time_start,
        time_step,
        price_start,
        price_step,
    }.pack();
    Instruction { program_id: id(), accounts, data }
}

/// The instruction that bids for up to `token_amount` tokens, with its
/// accounts in the order that `MakeBid` lists.
pub fn make_bid(
    auction_pubkey: &[u8; 32],
    funding_pubkey: &[u8; 32],
    token_pubkey: &[u8; 32],
    token_auction_pubkey: &[u8; 32],
    token_auction_owner_pubkey: &[u8; 32],
    token_customer_pubkey: &[u8; 32],
    token_amount: u64,
) -> (r: Instruction)
    ensures
        r.program_id == ID,
        r.data@ == (AuctionInstruction::MakeBid { token_amount }).spec_pack(),
        r.accounts@.len() == 8,
        names(r.accounts@[0], *auction_pubkey, false, false),
        plain_readonly(r.accounts@[1]),
        names(r.accounts@[2], *funding_pubkey, false, true),
        plain_readonly(r.accounts@[3]),
        names(r.accounts@[4], *token_pubkey, false, false),
        names(r.accounts@[5], *token_auction_pubkey, false, true),
        names(r.accounts@[6], *token_auction_owner_pubkey, false, true),
        names(r.accounts@[7], *token_customer_pubkey, false, true),
{
    let mut accounts: Vec<AccountMeta> = Vec::new();
    accounts.push(readonly(*auction_pubkey, false));
    accounts.push(readonly(system_program_id(), false));
    accounts.push(writable(*funding_pubkey, false));
    accounts.push(readonly(token_program_id(), false));
    accounts.push(readonly(*token_pubkey, false));
    accounts.push(writable(*token_auction_pubkey, false));
    accounts.push(writable(*token_auction_owner_pubkey, false));
    accounts.push(writable(*token_customer_pubkey, false));
    let data = AuctionInstruction::MakeBid { token_amount }.pack();
    Instruction { program_id: id(), accounts, data }
}

/// The instruction that withdraws the proceeds, with its accounts in the
/// order that `WithdrawSOL` lists.
pub fn withdraw_sol(
    auction_pubkey: &[u8; 32],
    auction_authority_pubkey: &[u8; 32],
    token_pubkey: &[u8; 32],
    token_auction_owner_pubkey: &[u8; 32],
    dest_pubkey: &[u8; 32],
) -> (r: Instruction)
    ensures
        r.program_id == ID,
        r.data@ == AuctionInstruction::WithdrawSOL.spec_pack(),
        r.accounts@.len() == 6,
        names(r.accounts@[0], *auction_pubkey, false, false),
        names(r.accounts@[1], *auction_authority_pubkey, true, false),
        plain_readonly(r.accounts@[2]),
        names(r.accounts@[3], *token_pubkey, false, false),
        names(r.accounts@[4], *token_auction_owner_pubkey, false, true),
        names(r.accounts@[5], *dest_pubkey, false, true),
{
    let mut accounts: Vec<AccountMeta> = Vec::new();
    accounts.push(readonly(*auction_pubkey, false));
    accounts.push(readonly(*auction_authority_pubkey, true));
    accounts.push(readonly(system_program_id(), false));
    accounts.push(readonly(*token_pubkey, false));
    accounts.push(writable(*token_auction_owner_pubkey, false));
    accounts.push(writable(*dest_pubkey, false));
    let data = AuctionInstruction::WithdrawSOL.pack();
    Instruction { program_id: id(), accounts, data }
}

/// The instruction that withdraws the unsold tokens, with its accounts in
/// the order that `WithdrawTokens` lists.
pub fn withdraw_tokens(
    auction_pubkey: &[u8; 32],
    auction_authority_pubkey: &[u8; 32],
    token_pubkey: &[u8; 32],
    token_auction_pubkey: &[u8; 32],
    token_auction_owner_pubkey: &[u8; 32],
    token_dest_pubkey: &[u8; 32],
) -> (r: Instruction)
    ensures
        r.program_id == ID,
        r.data@ == AuctionInstruction::WithdrawTokens.spec_pack(),
        r.accounts@.len() == 7,
        names(r.accounts@[0], *auction_pubkey, false, false),
        names(r.accounts@[1], *auction_authority_pubkey, true, false),
        plain_readonly(r.accounts@[2]),
        names(r.accounts@[3], *token_pubkey, false, false),
        names(r.accounts@[4], *token_auction_pubkey, false, true),
        names(r.accounts@[5], *token_auction_owner_pubkey, false, false),
        names(r.accounts@[6], *token_dest_pubkey, false, true),
{
    let mut accounts: Vec<AccountMeta> = Vec::new();
    accounts.push(readonly(*auction_pubkey, false));
    accounts.push(readonly(*auction_authority_pubkey, true));
    accounts.push(readonly(token_program_id(), false));
    accounts.push(readonly(*token_pubkey, false));
    accounts.push(writable(*token_auction_pubkey, false));
    accounts.push(readonly(*token_auction_owner_pubkey, false));
    accounts.push(writable(*token_dest_pubkey, false));
    let data = AuctionInstruction::WithdrawTokens.pack();
    Instruction { program_id: id(), accounts, data }
}

} // verus!
