use vstd::prelude::*;

use crate::error::{AuctionError, ProcessError};
use crate::instruction::{spec_unpack, AuctionInstruction};
use crate::ledger::{
    associated_token_address, create_program_address, get_associated_token_address,
    program_address, spec_mint_decimals, spec_token_amount, unpack_mint_decimals,
    unpack_token_amount,
};
use crate::pricing::{current_price, spec_current_price, PriceState};
use crate::state::{spec_auction_from, Auction};

verus! {

/// What the processor sees of one account of the instruction.
#[derive(Clone, Debug, PartialEq, Eq)]
pub struct AccountSnapshot {
    pub key: [u8; 32],
    pub is_signer: bool,
    pub lamports: u64,
    pub data: Vec<u8>,
}

/// What the ledger must carry out for an accepted instruction. Nothing is to
/// be carried out for a refused one.
#[derive(Clone, Copy, Debug, PartialEq, Eq)]
pub enum Effect {
    /// Store `auction` in the auction account, create the vault authority
    /// with the minimum balance and the vault holding account, and move
    /// `token_amount` tokens (of `decimals` decimals) from the source into the
    /// vault.
    Initialize { auction: Auction, token_amount: u64, decimals: u8 },
    /// Move `lamports` from the bidder to the vault authority, and
    /// `token_amount` tokens from the vault to the bidder, signed by the vault
    /// authority.
    Bid { lamports: u64, token_amount: u64, decimals: u8 },
    /// Move `token_amount` tokens, the whole vault, to the destination,
    /// signed by the vault authority.
    WithdrawTokens { token_amount: u64, decimals: u8 },
    /// Move `lamports`, the vault authority's whole balance, to the
    /// destination, signed by the vault authority.
    WithdrawSol { lamports: u64 },
}

/// Whether `claimed` is the vault authority of the auction at `auction_key`:
/// the address derived from the auction's address alone.
pub open spec fn vault_authority_valid(
    program_id: Seq<u8>,
    auction_key: Seq<u8>,
    claimed: Seq<u8>,
) -> bool {
    program_address(auction_key, program_id) == Some(claimed)
}

/// Whether `claimed` is the vault holding account of `vault_authority` for
/// the mint `mint`.
pub open spec fn vault_account_valid(
    vault_authority: Seq<u8>,
    mint: Seq<u8>,
    claimed: Seq<u8>,
) -> bool {
    associated_token_address(vault_authority, mint) == claimed
}

/// The owner check: the account must be `expected` and must have signed.
pub open spec fn spec_validate_owner(expected: Seq<u8>, account: AccountSnapshot) -> Result<
    (),
    ProcessError,
> {
    if account.key@ != expected {
        Err(ProcessError::Auction(AuctionError::OwnerMismatch))
    } else if !account.is_signer {
        Err(ProcessError::MissingRequiredSignature)
    } else {
        Ok(())
    }
}

/// The record that an auction account holds, if it is a well-formed,
/// initialized record with a positive time step.
pub open spec fn spec_live_auction(data: Seq<u8>) -> Result<Auction, ProcessError> {
    match spec_auction_from(data) {
        None => Err(ProcessError::InvalidAccountData),
        Some(a) => if !a.is_initialized {
            Err(ProcessError::UninitializedAccount)
        } else if a.time_step <= 0 {
            Err(ProcessError::InvalidAccountData)
        } else {
            Ok(a)
        },
    }
}

/// Compares two keys byte by byte.
pub fn keys_equal(a: &[u8; 32], b: &[u8; 32]) -> (r: bool)
    ensures
        r == (a@ == b@),
{
    let mut i: usize = 0;
    while i < 32
        invariant
            i <= 32,
            a@.len() == 32,
            b@.len() == 32,
            forall|j: int| 0 <= j < i ==> a@[j] == b@[j],
        decreases 32 - i,
    {
        if a[i] != b[i] {
            return false;
        }
        i += 1;
    }
    assert(a@ =~= b@);
    true
}

/// What a bid of up to `token_amount` tokens does at time `now`. The accounts
/// are those listed for `MakeBid`: the record (0), the funding account (2),
/// the mint (4), the vault (5) and the vault authority (6) are read.
pub open spec fn spec_process_bid(
    program_id: Seq<u8>,
    acc: Seq<AccountSnapshot>,
    now: i64,
    token_amount: u64,
) -> Result<Effect, ProcessError> {
    if acc.len() < 8 {
        Err(ProcessError::NotEnoughAccountKeys)
    } else {
        match spec_live_auction(acc[0].data@) {
            Err(e) => Err(e),
            Ok(a) => match spec_current_price(a, now as int) {
                PriceState::NotStarted => Err(ProcessError::Auction(AuctionError::NotStarted)),
                PriceState::Finished => Err(ProcessError::Auction(AuctionError::Finished)),
                PriceState::Active(price) => if !vault_authority_valid(
                    program_id,
                    acc[0].key@,
                    acc[6].key@,
                ) {
                    Err(ProcessError::Auction(AuctionError::InvalidAuctionTokenOwnerAddress))
                } else if !vault_account_valid(acc[6].key@, a.token@, acc[5].key@) {
                    Err(ProcessError::Auction(AuctionError::InvalidAuctionTokenAddress))
                } else {
                    match spec_mint_decimals(acc[4].data@) {
                        Err(e) => Err(e),
                        Ok(decimals) => match spec_token_amount(acc[5].data@) {
                            Err(e) => Err(e),
                            Ok(balance) => if balance == 0 {
                                Err(ProcessError::Auction(AuctionError::EverythingSoldOut))
                            } else {
                                let n = if token_amount <= balance {
                                    token_amount
                                } else {
                                    balance
                                };
                                if n * price > u64::MAX {
                                    Err(ProcessError::ArithmeticOverflow)
                                } else {
                                    Ok(
                                        Effect::Bid {
                                            lamports: (n * price) as u64,
                                            token_amount: n,
                                            decimals,
                                        },
                                    )
                                }
                            },
                        },
                    }
                },
            },
        }
    }
}

/// What a withdrawal of the unsold tokens does at time `now`. The accounts
/// are those listed for `WithdrawTokens`: the record (0), the authority (1),
/// the mint (3), the vault (4) and the vault authority (5) are read.
pub open spec fn spec_process_withdraw_tokens(
    program_id: Seq<u8>,
    acc: Seq<AccountSnapshot>,
    now: i64,
) -> Result<Effect, ProcessError> {
    if acc.len() < 7 {
        Err(ProcessError::NotEnoughAccountKeys)
    } else {
        match spec_live_auction(acc[0].data@) {
            Err(e) => Err(e),
            Ok(a) => if !(spec_current_price(a, now as int) is Finished) {
                Err(ProcessError::Auction(AuctionError::NotFinished))
            } else {
                match spec_validate_owner(a.authority@, acc[1]) {
                    Err(e) => Err(e),
                    Ok(_) => if !vault_authority_valid(program_id, acc[0].key@, acc[5].key@) {
                        Err(ProcessError::Auction(AuctionError::InvalidAuctionTokenOwnerAddress))
                    } else if !vault_account_valid(acc[5].key@, a.token@, acc[4].key@) {
                        Err(ProcessError::Auction(AuctionError::InvalidAuctionTokenAddress))
                    } else {
                        match spec_mint_decimals(acc[3].data@) {
                            Err(e) => Err(e),
                            Ok(decimals) => match spec_token_amount(acc[4].data@) {
                                Err(e) => Err(e),
                                Ok(balance) => Ok(
                                    Effect::WithdrawTokens { token_amount: balance, decimals },
                                ),
                            },
                        }
                    },
                }
            },
        }
    }
}

/// What a withdrawal of the bids' proceeds does at time `now`. The accounts
/// are those listed for `WithdrawSOL`: the record (0), the authority (1) and
/// the vault authority (4) are read.
pub open spec fn spec_process_withdraw_sol(
    program_id: Seq<u8>,
    acc: Seq<AccountSnapshot>,
    now: i64,
) -> Result<Effect, ProcessError> {
    if acc.len() < 6 {
        Err(ProcessError::NotEnoughAccountKeys)
    } else {
        match spec_live_auction(acc[0].data@) {
            Err(e) => Err(e),
            Ok(a) => if !(spec_current_price(a, now as int) is Finished) {
                Err(ProcessError::Auction(AuctionError::NotFinished))
            } else {
                match spec_validate_owner(a.authority@, acc[1]) {
                    Err(e) => Err(e),
                    Ok(_) => if !vault_authority_valid(program_id, acc[0].key@, acc[4].key@) {
                        Err(ProcessError::Auction(AuctionError::InvalidAuctionTokenOwnerAddress))
                    } else {
                        Ok(Effect::WithdrawSol { lamports: acc[4].lamports })
                    },
                }
            },
        }
    }
}

/// The record that a successful initialization stores.
pub open spec fn initialized_record(
    authority: [u8; 32],
    token: [u8; 32],
    time_start: i64,
    time_step: i64,
    price_start: u64,
    price_step: u64,
) -> Auction {
    Auction {
        is_initialized: true,
        authority,
        token,
        time_start,
        time_step,
        price_start,
        price_step,
    }
}

/// What initializing an auction does at time `now`. The accounts are those
/// listed for `InitializeAuction`: the record (0), the authority (1), the
/// mint (7), the vault (9) and the vault authority (10) are read.
pub open spec fn spec_process_initialize_auction(
    program_id: Seq<u8>,
    acc: Seq<AccountSnapshot>,
    now: i64,
    token_amount: u64,
    time_start: i64,
    time_step: i64,
    price_start: u64,
    price_step: u64,
) -> Result<Effect, ProcessError> {
    if acc.len() < 12 {
        Err(ProcessError::NotEnoughAccountKeys)
    } else {
        match spec_auction_from(acc[0].data@) {
            None => Err(ProcessError::InvalidAccountData),
            Some(prior) => if prior.is_initialized {
                Err(ProcessError::Auction(AuctionError::AlreadyInUse))
            } else if time_start < now || time_step <= 0 {
                Err(ProcessError::Auction(AuctionError::InvalidInitializationTime))
            } else if !vault_authority_valid(program_id, acc[0].key@, acc[10].key@) {
                Err(ProcessError::Auction(AuctionError::InvalidAuctionTokenOwnerAddress))
            } else if !vault_account_valid(acc[10].key@, acc[7].key@, acc[9].key@) {
                Err(ProcessError::Auction(AuctionError::InvalidAuctionTokenAddress))
            } else {
                match spec_mint_decimals(acc[7].data@) {
                    Err(e) => Err(e),
                    Ok(decimals) => Ok(
                        Effect::Initialize {
                            auction: initialized_record(
                                acc[1].key,
                                acc[7].key,
                                time_start,
                                time_step,
                                price_start,
                                price_step,
                            ),
                            token_amount,
                            decimals,
                        },
                    ),
                }
            },
        }
    }
}

/// What the instruction `input` does at time `now`.
pub open spec fn spec_process(
    program_id: Seq<u8>,
    acc: Seq<AccountSnapshot>,
    input: Seq<u8>,
    now: i64,
) -> Result<Effect, ProcessError> {
    match spec_unpack(input) {
        None => Err(ProcessError::Auction(AuctionError::InvalidInstruction)),
        Some(AuctionInstruction::InitializeAuction {
            token_amount,
            time_start,
            time_step,
            price_start,
            price_step,
        }) => spec_process_initialize_auction(
            program_id,
            acc,
            now,
            token_amount,
            time_start,
            time_step,
            price_start,
            price_step,
        ),
        Some(AuctionInstruction::MakeBid { token_amount }) => spec_process_bid(
            program_id,
            acc,
            now,
            token_amount,
        ),
        Some(AuctionInstruction::WithdrawTokens) => spec_process_withdraw_tokens(
            program_id,
            acc,
            now,
        ),
        Some(AuctionInstruction::WithdrawSOL) => spec_process_withdraw_sol(program_id, acc, now),
    }
}

/// The transition processor of the auction.
pub struct Processor {}

impl Processor {
    /// Checks that `claimed` is the vault authority of the auction at
    /// `auction_key`.
    pub fn validate_vault_authority(
        program_id: &[u8; 32],
        auction_key: &[u8; 32],
        claimed: &[u8; 32],
    ) -> (r: Result<(), ProcessError>)
        ensures
            vault_authority_valid(program_id@, auction_key@, claimed@) ==> r is Ok,
            !vault_authority_valid(program_id@, auction_key@, claimed@) ==> r == Err::<
                (),
                ProcessError,
            >(ProcessError::Auction(AuctionError::InvalidAuctionTokenOwnerAddress)),
    {
        match create_program_address(auction_key, program_id) {
            Some(k) => {
                if keys_equal(&k, claimed) {
                    Ok(())
                } else {
                    Err(ProcessError::Auction(AuctionError::InvalidAuctionTokenOwnerAddress))
                }
            },
            None => Err(ProcessError::Auction(AuctionError::InvalidAuctionTokenOwnerAddress)),
        }
    }

    /// Checks that `claimed` is the vault holding account of
    /// `vault_authority` for the mint `mint`.
    pub fn validate_vault_account(
        vault_authority: &[u8; 32],
        mint: &[u8; 32],
        claimed: &[u8; 32],
    ) -> (r: Result<(), ProcessError>)
        ensures
            vault_account_valid(vault_authority@, mint@, claimed@) ==> r is Ok,
            !vault_account_valid(vault_authority@, mint@, claimed@) ==> r == Err::<
                (),
                ProcessError,
            >(ProcessError::Auction(AuctionError::InvalidAuctionTokenAddress)),
    {
        let k = get_associated_token_address(vault_authority, mint);
        if keys_equal(&k, claimed) {
            Ok(())
        } else {
            Err(ProcessError::Auction(AuctionError::InvalidAuctionTokenAddress))
        }
    }

    /// Checks that `account` is `expected_owner` and signed the transaction.
    pub fn validate_owner(expected_owner: &[u8; 32], account: &AccountSnapshot) -> (r: Result<
        (),
        ProcessError,
    >)
        ensures
            r == spec_validate_owner(expected_owner@, *account),
    {
        if !keys_equal(expected_owner, &account.key) {
            return Err(ProcessError::Auction(AuctionError::OwnerMismatch));
        }
        if !account.is_signer {
            return Err(ProcessError::MissingRequiredSignature);
        }
        Ok(())
    }

    /// Reads the auction record that a bid or a withdrawal works on.
    pub fn load_live_auction(data: &[u8]) -> (r: Result<Auction, ProcessError>)
        ensures
            r == spec_live_auction(data@),
    {
        let auction = match Auction::unpack_unchecked(data) {
            Ok(a) => a,
            Err(e) => return Err(e),
        };
        if !auction.is_initialized {
            return Err(ProcessError::UninitializedAccount);
        }
        if auction.time_step <= 0 {
            return Err(ProcessError::InvalidAccountData);
        }
        Ok(auction)
    }

    /// A bid: at the current price, buy `token_amount` tokens, or all that
    /// are left if fewer are.
    pub fn process_bid(
        program_id: &[u8; 32],
        accounts: &[AccountSnapshot],
        now: i64,
        token_amount: u64,
    ) -> (r: Result<Effect, ProcessError>)
        ensures
            r == spec_process_bid(program_id@, accounts@, now, token_amount),
    {
        if accounts.len() < 8 {
            return Err(ProcessError::NotEnoughAccountKeys);
        }
        let auction_info = &accounts[0];
        let token_info = &accounts[4];
        let token_auction_info = &accounts[5];
        let token_auction_owner_info = &accounts[6];
        let auction = match Self::load_live_auction(auction_info.data.as_slice()) {
            Ok(a) => a,
            Err(e) => return Err(e),
        };
        let price = match current_price(&auction, now) {
            PriceState::NotStarted => {
                return Err(ProcessError::Auction(AuctionError::NotStarted));
            },
            PriceState::Finished => {
                return Err(ProcessError::Auction(AuctionError::Finished));
            },
            PriceState::Active(p) => p,
        };
        match Self::validate_vault_authority(
            program_id,
            &auction_info.key,
            &token_auction_owner_info.key,
        ) {
            Ok(()) => {},
            Err(e) => return Err(e),
        }
        match Self::validate_vault_account(
            &token_auction_owner_info.key,
            &auction.token,
            &token_auction_info.key,
        ) {
            Ok(()) => {},
            Err(e) => return Err(e),
        }
        let decimals = match unpack_mint_decimals(token_info.data.as_slice()) {
            Ok(d) => d,
            Err(e) => return Err(e),
        };
        let balance = match unpack_token_amount(token_auction_info.data.as_slice()) {
            Ok(b) => b,
            Err(e) => return Err(e),
        };
        if balance == 0 {
            return Err(ProcessError::Auction(AuctionError::EverythingSoldOut));
        }
        let n = if token_amount <= balance {
            token_amount
        } else {
            balance
        };
        match n.checked_mul(price) {
            Some(lamports) => Ok(Effect::Bid { lamports, token_amount: n, decimals }),
            None => Err(ProcessError::ArithmeticOverflow),
        }
    }

    /// Withdrawal of the unsold tokens by the authority, once the auction has
    /// finished.
    pub fn process_withdraw_tokens(
        program_id: &[u8; 32],
        accounts: &[AccountSnapshot],
        now: i64,
    ) -> (r: Result<Effect, ProcessError>)
        ensures
            r == spec_process_withdraw_tokens(program_id@, accounts@, now),
    {
        if accounts.len() < 7 {
            return Err(ProcessError::NotEnoughAccountKeys);
        }
        let auction_info = &accounts[0];
        let auction_authority_info = &accounts[1];
        let token_info = &accounts[3];
        let token_auction_info = &accounts[4];
        let token_auction_owner_info = &accounts[5];
        let auction = match Self::load_live_auction(auction_info.data.as_slice()) {
            Ok(a) => a,
            Err(e) => return Err(e),
        };
        match current_price(&auction, now) {
            PriceState::Finished => {},
            _ => return Err(ProcessError::Auction(AuctionError::NotFinished)),
        }
        match Self::validate_owner(&auction.authority, auction_authority_info) {
            Ok(()) => {},
            Err(e) => return Err(e),
        }
        match Self::validate_vault_authority(
            program_id,
            &auction_info.key,
            &token_auction_owner_info.key,
        ) {
            Ok(()) => {},
            Err(e) => return Err(e),
        }
        match Self::validate_vault_account(
            &token_auction_owner_info.key,
            &auction.token,
            &token_auction_info.key,
        ) {
            Ok(()) => {},
            Err(e) => return Err(e),
        }
        let decimals = match unpack_mint_decimals(token_info.data.as_slice()) {
            Ok(d) => d,
            Err(e) => return Err(e),
        };
        let balance = match unpack_token_amount(token_auction_info.data.as_slice()) {
            Ok(b) => b,
            Err(e) => return Err(e),
        };
        Ok(Effect::WithdrawTokens { token_amount: balance, decimals })
    }

    /// Withdrawal of the bids' proceeds by the authority, once the auction
    /// has finished.
    pub fn process_withdraw_sol(
        program_id: &[u8; 32],
        accounts: &[AccountSnapshot],
        now: i64,
    ) -> (r: Result<Effect, ProcessError>)
        ensures
            r == spec_process_withdraw_sol(program_id@, accounts@, now),
    {
        if accounts.len() < 6 {
            return Err(ProcessError::NotEnoughAccountKeys);
        }
        let auction_info = &accounts[0];
        let auction_authority_info = &accounts[1];
        let token_auction_owner_info = &accounts[4];
        let auction = match Self::load_live_auction(auction_info.data.as_slice()) {
            Ok(a) => a,
            Err(e) => return Err(e),
        };
        match current_price(&auction, now) {
            PriceState::Finished => {},
            _ => return Err(ProcessError::Auction(AuctionError::NotFinished)),
        }
        match Self::validate_owner(&auction.authority, auction_authority_info) {
            Ok(()) => {},
            Err(e) => return Err(e),
        }
        match Self::validate_vault_authority(
            program_id,
            &auction_info.key,
            &token_auction_owner_info.key,
        ) {
            Ok(()) => {},
            Err(e) => return Err(e),
        }
        Ok(Effect::WithdrawSol { lamports: token_auction_owner_info.lamports })
    }

    /// Initialization: checks the record, the times and the vault addresses,
    /// and gives the record to store and the tokens to move.
    pub fn process_initialize_auction(
        program_id: &[u8; 32],
        accounts: &[AccountSnapshot],
        now: i64,
        token_amount: u64,
        time_start: i64,
        time_step: i64,
        price_start: u64,
        price_step: u64,
    ) -> (r: Result<Effect, ProcessError>)
        ensures
            r == spec_process_initialize_auction(
                program_id@,
                accounts@,
                now,
                token_amount,
                time_start,
                time_step,
                price_start,
                price_step,
            ),
    {
        if accounts.len() < 12 {
            return Err(ProcessError::NotEnoughAccountKeys);
        }
        let auction_info = &accounts[0];
        let auction_authority_info = &accounts[1];
        let token_info = &accounts[7];
        let token_auction_info = &accounts[9];
        let token_auction_owner_info = &accounts[10];
        let prior = match Auction::unpack_unchecked(auction_info.data.as_slice()) {
            Ok(a) => a,
            Err(e) => return Err(e),
        };
        if prior.is_initialized {
            return Err(ProcessError::Auction(AuctionError::AlreadyInUse));
        }
        if time_start < now || time_step <= 0 {
            return Err(ProcessError::Auction(AuctionError::InvalidInitializationTime));
        }
        match Self::validate_vault_authority(
            program_id,
            &auction_info.key,
            &token_auction_owner_info.key,
        ) {
            Ok(()) => {},
            Err(e) => return Err(e),
        }
        match Self::validate_vault_account(
            &token_auction_owner_info.key,
            &token_info.key,
            &token_auction_info.key,
        ) {
            Ok(()) => {},
            Err(e) => return Err(e),
        }
        let decimals = match unpack_mint_decimals(token_info.data.as_slice()) {
            Ok(d) => d,
            Err(e) => return Err(e),
        };
        let auction = Auction {
            is_initialized: true,
            authority: auction_authority_info.key,
            token: token_info.key,
            time_start,
            time_step,
            price_start,
            price_step,
        };
        Ok(Effect::Initialize { auction, token_amount, decimals })
    }

    /// Decodes the instruction `input` and processes it at time `now`.
    pub fn process(
        program_id: &[u8; 32],
        accounts: &[AccountSnapshot],
        input: &[u8],
        now: i64,
    ) -> (r: Result<Effect, ProcessError>)
        ensures
            r == spec_process(program_id@, accounts@, input@, now),
    {
        let instruction = match AuctionInstruction::unpack(input) {
            Ok(i) => i,
            Err(e) => return Err(ProcessError::Auction(e)),
        };
        match instruction {
            AuctionInstruction::InitializeAuction {
                token_amount,
                time_start,
                time_step,
                price_start,
                price_step,
            } => Self::process_initialize_auction(
                program_id,
                accounts,
                now,
                token_amount,
                time_start,
                time_step,
                price_start,
                price_step,
            ),
            AuctionInstruction::MakeBid { token_amount } => Self::process_bid(
                program_id,
                accounts,
                now,
                token_amount,
            ),
            AuctionInstruction::WithdrawTokens => Self::process_withdraw_tokens(
                program_id,
                accounts,
                now,
            ),
            AuctionInstruction::WithdrawSOL => Self::process_withdraw_sol(
                program_id,
                accounts,
                now,
            ),
        }
    }
}

/// While the price is active, both withdrawals are refused `NotFinished`,
/// whoever asks for them.
pub proof fn lemma_withdraw_refused_while_active(
    program_id: Seq<u8>,
    acc: Seq<AccountSnapshot>,
    now: i64,
    a: Auction,
)
    requires
        acc.len() >= 7,
        spec_auction_from(acc[0].data@) == Some(a),
        a.is_initialized,
        a.time_step > 0,
        spec_current_price(a, now as int) is Active,
    ensures
        spec_process_withdraw_tokens(program_id, acc, now) == Err::<Effect, ProcessError>(
            ProcessError::Auction(AuctionError::NotFinished),
        ),
        spec_process_withdraw_sol(program_id, acc, now) == Err::<Effect, ProcessError>(
            ProcessError::Auction(AuctionError::NotFinished),
        ),
{
}

/// Once the auction has finished, a withdrawal asked for by anyone but the
/// record's authority is refused `OwnerMismatch`.
pub proof fn lemma_withdraw_refused_to_others(
    program_id: Seq<u8>,
    acc: Seq<AccountSnapshot>,
    now: i64,
    a: Auction,
)
    requires
        acc.len() >= 7,
        spec_auction_from(acc[0].data@) == Some(a),
        a.is_initialized,
        a.time_step > 0,
        spec_current_price(a, now as int) is Finished,
        acc[1].key@ != a.authority@,
    ensures
        spec_process_withdraw_tokens(program_id, acc, now) == Err::<Effect, ProcessError>(
            ProcessError::Auction(AuctionError::OwnerMismatch),
        ),
        spec_process_withdraw_sol(program_id, acc, now) == Err::<Effect, ProcessError>(
            ProcessError::Auction(AuctionError::OwnerMismatch),
        ),
{
}

/// Initializing an initialized record is refused `AlreadyInUse`, so nothing
/// is stored and the record keeps its fields.
pub proof fn lemma_no_double_initialize(
    program_id: Seq<u8>,
    acc: Seq<AccountSnapshot>,
    now: i64,
    token_amount: u64,
    time_start: i64,
    time_step: i64,
    price_start: u64,
    price_step: u64,
    a: Auction,
)
    requires
        acc.len() >= 12,
        spec_auction_from(acc[0].data@) == Some(a),
        a.is_initialized,
    ensures
        spec_process_initialize_auction(
            program_id,
            acc,
            now,
            token_amount,
            time_start,
            time_step,
            price_start,
            price_step,
        ) == Err::<Effect, ProcessError>(ProcessError::Auction(AuctionError::AlreadyInUse)),
{
}

/// An accepted initialization starts from an uninitialized record and stores
/// an initialized one with a start no earlier than `now` and a positive step.
pub proof fn lemma_initialize_only_fresh(
    program_id: Seq<u8>,
    acc: Seq<AccountSnapshot>,
    now: i64,
    token_amount: u64,
    time_start: i64,
    time_step: i64,
    price_start: u64,
    price_step: u64,
)
    requires
        spec_process_initialize_auction(
            program_id,
            acc,
            now,
            token_amount,
            time_start,
            time_step,
            price_start,
            price_step,
        ) is Ok,
    ensures
        acc.len() >= 12,
        spec_auction_from(acc[0].data@) is Some,
        !spec_auction_from(acc[0].data@)->Some_0.is_initialized,
        ({
            let e = spec_process_initialize_auction(
                program_id,
                acc,
                now,
                token_amount,
                time_start,
                time_step,
                price_start,
                price_step,
            )->Ok_0;
            &&& e is Initialize
            &&& e->Initialize_auction.is_initialized
            &&& e->Initialize_auction.time_start >= now
            &&& e->Initialize_auction.time_step > 0
        }),
{
}

/// An accepted bid takes what was asked for, or the whole vault if it holds
/// less, and pays that many tokens at the current price.
pub proof fn lemma_bid_fills_to_available(
    program_id: Seq<u8>,
    acc: Seq<AccountSnapshot>,
    now: i64,
    token_amount: u64,
)
    requires
        spec_process_bid(program_id, acc, now, token_amount) is Ok,
    ensures
        ({
            let e = spec_process_bid(program_id, acc, now, token_amount)->Ok_0;
            let a = spec_live_auction(acc[0].data@)->Ok_0;
            let balance = spec_token_amount(acc[5].data@)->Ok_0;
            &&& e is Bid
            &&& balance > 0
            &&& e->Bid_token_amount == (if token_amount <= balance {
                token_amount
            } else {
                balance
            })
            &&& spec_current_price(a, now as int) is Active
            &&& e->Bid_lamports == e->Bid_token_amount * spec_current_price(
                a,
                now as int,
            )->Active_0
        }),
{
}

/// A bid before the start is refused `NotStarted`.
pub proof fn lemma_bid_refused_before_start(
    program_id: Seq<u8>,
    acc: Seq<AccountSnapshot>,
    now: i64,
    token_amount: u64,
    a: Auction,
)
    requires
        acc.len() >= 8,
        spec_auction_from(acc[0].data@) == Some(a),
        a.is_initialized,
        a.time_step > 0,
        now < a.time_start,
    ensures
        spec_process_bid(program_id, acc, now, token_amount) == Err::<Effect, ProcessError>(
            ProcessError::Auction(AuctionError::NotStarted),
        ),
{
}

/// A bid is never accepted on a record that is not initialized.
pub proof fn lemma_bid_needs_initialized_record(
    program_id: Seq<u8>,
    acc: Seq<AccountSnapshot>,
    now: i64,
    token_amount: u64,
)
    ensures
        spec_process_bid(program_id, acc, now, token_amount) is Ok ==> {
            &&& spec_auction_from(acc[0].data@) is Some
            &&& spec_auction_from(acc[0].data@)->Some_0.is_initialized
        },
        acc.len() >= 8 && spec_auction_from(acc[0].data@) is Some
            && !spec_auction_from(acc[0].data@)->Some_0.is_initialized ==> spec_process_bid(
            program_id,
            acc,
            now,
            token_amount,
        ) == Err::<Effect, ProcessError>(ProcessError::UninitializedAccount),
{
}

} // verus!
