use dutch_auction::error::{AuctionError, ProcessError};
use dutch_auction::instruction::{id, AuctionInstruction};
use dutch_auction::processor::{keys_equal, AccountSnapshot, Effect, Processor};
use dutch_auction::state::{Auction, AUCTION_LEN};
use solana_program::pubkey::Pubkey;

const NOW: i64 = 1_700_000_000;
const AUTHORITY: [u8; 32] = [0xa1; 32];
const MINT: [u8; 32] = [0xb2; 32];

fn program_id() -> [u8; 32] {
    id()
}

fn account(key: [u8; 32], is_signer: bool, lamports: u64, data: Vec<u8>) -> AccountSnapshot {
    AccountSnapshot { key, is_signer, lamports, data }
}

fn plain(key_byte: u8) -> AccountSnapshot {
    account([key_byte; 32], false, 0, vec![])
}

/// An auction address whose vault authority exists, with that authority.
fn auction_keys() -> ([u8; 32], [u8; 32]) {
    let program = Pubkey::new_from_array(program_id());
    for b in 1u8..=255 {
        let key = [b; 32];
        if let Ok(pda) = Pubkey::create_program_address(&[&key], &program) {
            return (key, pda.to_bytes());
        }
    }
    panic!("no auction address with a vault authority");
}

fn vault_of(owner: &[u8; 32], mint: &[u8; 32]) -> [u8; 32] {
    spl_associated_token_account::get_associated_token_address(
        &Pubkey::new_from_array(*owner),
        &Pubkey::new_from_array(*mint),
    )
    .to_bytes()
}

fn mint_data(decimals: u8, initialized: bool) -> Vec<u8> {
    let mut d = vec![0u8; 82];
    d[36..44].copy_from_slice(&1_000_000u64.to_le_bytes());
    d[44] = decimals;
    d[45] = initialized as u8;
    d
}

fn token_account_data(amount: u64) -> Vec<u8> {
    let mut d = vec![0u8; 165];
    d[0..32].copy_from_slice(&MINT);
    d[64..72].copy_from_slice(&amount.to_le_bytes());
    d[108] = 1;
    d
}

fn record(time_start: i64, time_step: i64, price_start: u64, price_step: u64) -> Auction {
    Auction {
        is_initialized: true,
        authority: AUTHORITY,
        token: MINT,
        time_start,
        time_step,
        price_start,
        price_step,
    }
}

fn record_data(a: Auction) -> Vec<u8> {
    let mut d = vec![0u8; AUCTION_LEN];
    Auction::pack(a, &mut d).unwrap();
    d
}

fn init_accounts(record_bytes: Vec<u8>) -> Vec<AccountSnapshot> {
    let (auction_key, owner) = auction_keys();
    let vault = vault_of(&owner, &MINT);
    vec![
        account(auction_key, false, 0, record_bytes),
        account(AUTHORITY, false, 0, vec![]),
        plain(0),
        account([0xc3; 32], true, 1_000_000_000, vec![]),
        plain(0x11),
        plain(0x12),
        plain(0x13),
        account(MINT, false, 0, mint_data(6, true)),
        plain(0x14),
        account(vault, false, 0, vec![]),
        account(owner, false, 0, vec![]),
        account([0xc4; 32], true, 0, vec![]),
    ]
}

fn bid_accounts(a: Auction, vault_balance: u64) -> Vec<AccountSnapshot> {
    let (auction_key, owner) = auction_keys();
    let vault = vault_of(&owner, &MINT);
    vec![
        account(auction_key, false, 0, record_data(a)),
        plain(0),
        account([0xd5; 32], true, u64::MAX, vec![]),
        plain(0x13),
        account(MINT, false, 0, mint_data(6, true)),
        account(vault, false, 0, token_account_data(vault_balance)),
        account(owner, false, 0, vec![]),
        plain(0x15),
    ]
}

fn withdraw_tokens_accounts(a: Auction, caller: [u8; 32], signed: bool) -> Vec<AccountSnapshot> {
    let (auction_key, owner) = auction_keys();
    let vault = vault_of(&owner, &MINT);
    vec![
        account(auction_key, false, 0, record_data(a)),
        account(caller, signed, 0, vec![]),
        plain(0x13),
        account(MINT, false, 0, mint_data(6, true)),
        account(vault, false, 0, token_account_data(42)),
        account(owner, false, 0, vec![]),
        plain(0x16),
    ]
}

fn withdraw_sol_accounts(a: Auction, caller: [u8; 32], signed: bool) -> Vec<AccountSnapshot> {
    let (auction_key, owner) = auction_keys();
    vec![
        account(auction_key, false, 0, record_data(a)),
        account(caller, signed, 0, vec![]),
        plain(0),
        account(MINT, false, 0, mint_data(6, true)),
        account(owner, false, 777_000, vec![]),
        plain(0x17),
    ]
}

fn init(accounts: &[AccountSnapshot], time_start: i64, time_step: i64) -> Result<Effect, ProcessError> {
    Processor::process_initialize_auction(
        &program_id(),
        accounts,
        NOW,
        500,
        time_start,
        time_step,
        10_000_000_000,
        1_000_000_000,
    )
}

#[test]
fn initialize_stores_the_parameters() {
    let accounts = init_accounts(vec![0u8; AUCTION_LEN]);
    let effect = init(&accounts, NOW + 10, 60).unwrap();
    assert_eq!(
        effect,
        Effect::Initialize {
            auction: Auction {
                is_initialized: true,
                authority: AUTHORITY,
                token: MINT,
                time_start: NOW + 10,
                time_step: 60,
                price_start: 10_000_000_000,
                price_step: 1_000_000_000,
            },
            token_amount: 500,
            decimals: 6,
        }
    );
}

#[test]
fn second_initialize_is_refused_and_record_kept() {
    let accounts = init_accounts(vec![0u8; AUCTION_LEN]);
    let first = match init(&accounts, NOW, 60).unwrap() {
        Effect::Initialize { auction, .. } => auction,
        other => panic!("unexpected {:?}", other),
    };
    let stored = record_data(first);
    let accounts = init_accounts(stored.clone());
    let again = Processor::process_initialize_auction(
        &program_id(), &accounts, NOW + 5, 1, NOW + 100, 1, 1, 1,
    );
    assert_eq!(again, Err(ProcessError::Auction(AuctionError::AlreadyInUse)));
    assert_eq!(accounts[0].data, stored);
    assert_eq!(Auction::unpack_unchecked(&accounts[0].data), Ok(first));
}

#[test]
fn initialize_refuses_bad_times() {
    let accounts = init_accounts(vec![0u8; AUCTION_LEN]);
    let bad = Err(ProcessError::Auction(AuctionError::InvalidInitializationTime));
    assert_eq!(init(&accounts, NOW - 1, 60), bad);
    assert_eq!(init(&accounts, NOW, 0), bad);
    assert_eq!(init(&accounts, NOW, -60), bad);
    assert!(init(&accounts, NOW, 1).is_ok());
}

#[test]
fn initialize_refuses_wrong_vault_addresses() {
    let mut accounts = init_accounts(vec![0u8; AUCTION_LEN]);
    let auction_key = accounts[0].key;
    accounts[10].key = auction_key;
    assert_eq!(
        init(&accounts, NOW, 60),
        Err(ProcessError::Auction(AuctionError::InvalidAuctionTokenOwnerAddress))
    );
    let mut accounts = init_accounts(vec![0u8; AUCTION_LEN]);
    let owner = accounts[10].key;
    accounts[9].key = owner;
    assert_eq!(
        init(&accounts, NOW, 60),
        Err(ProcessError::Auction(AuctionError::InvalidAuctionTokenAddress))
    );
}

#[test]
fn initialize_needs_accounts_and_an_initialized_mint() {
    let accounts = init_accounts(vec![0u8; AUCTION_LEN]);
    assert_eq!(init(&accounts[..11], NOW, 60), Err(ProcessError::NotEnoughAccountKeys));
    let mut accounts = init_accounts(vec![0u8; AUCTION_LEN]);
    accounts[7].data = mint_data(6, false);
    assert_eq!(init(&accounts, NOW, 60), Err(ProcessError::UninitializedAccount));
    accounts[7].data = vec![0u8; 81];
    assert_eq!(init(&accounts, NOW, 60), Err(ProcessError::InvalidAccountData));
    let accounts = init_accounts(vec![0u8; 10]);
    assert_eq!(init(&accounts, NOW, 60), Err(ProcessError::InvalidAccountData));
}

#[test]
fn partial_fill_then_sold_out() {
    let a = record(NOW - 60, 60, 10_000_000_000, 1_000_000_000);
    let accounts = bid_accounts(a, 100);
    let effect = Processor::process_bid(&program_id(), &accounts, NOW, 150).unwrap();
    assert_eq!(
        effect,
        Effect::Bid { lamports: 100 * 9_000_000_000, token_amount: 100, decimals: 6 }
    );
    let accounts = bid_accounts(a, 0);
    assert_eq!(
        Processor::process_bid(&program_id(), &accounts, NOW, 150),
        Err(ProcessError::Auction(AuctionError::EverythingSoldOut))
    );
}

#[test]
fn bid_below_balance_takes_what_is_asked() {
    let a = record(NOW, 60, 5, 1);
    let accounts = bid_accounts(a, 100);
    assert_eq!(
        Processor::process_bid(&program_id(), &accounts, NOW, 30),
        Ok(Effect::Bid { lamports: 150, token_amount: 30, decimals: 6 })
    );
}

#[test]
fn bid_before_start_is_not_started() {
    let a = record(NOW + 1, 60, 5, 1);
    let accounts = bid_accounts(a, 100);
    assert_eq!(
        Processor::process_bid(&program_id(), &accounts, NOW, 1),
        Err(ProcessError::Auction(AuctionError::NotStarted))
    );
}

#[test]
fn bid_after_finish_is_finished() {
    let a = record(NOW - 600, 60, 10_000_000_000, 1_000_000_000);
    let accounts = bid_accounts(a, 100);
    assert_eq!(
        Processor::process_bid(&program_id(), &accounts, NOW, 1),
        Err(ProcessError::Auction(AuctionError::Finished))
    );
}

#[test]
fn bid_on_uninitialized_record_is_refused() {
    let mut accounts = bid_accounts(record(NOW, 60, 5, 1), 100);
    accounts[0].data = vec![0u8; AUCTION_LEN];
    assert_eq!(
        Processor::process_bid(&program_id(), &accounts, NOW, 1),
        Err(ProcessError::UninitializedAccount)
    );
}

#[test]
fn bid_payment_overflow_is_refused() {
    let a = record(NOW, 60, u64::MAX, 1);
    let accounts = bid_accounts(a, 2);
    assert_eq!(
        Processor::process_bid(&program_id(), &accounts, NOW, 2),
        Err(ProcessError::ArithmeticOverflow)
    );
}

#[test]
fn bid_checks_the_vault() {
    let a = record(NOW, 60, 5, 1);
    let mut accounts = bid_accounts(a, 100);
    accounts[6].key = [0x99; 32];
    assert_eq!(
        Processor::process_bid(&program_id(), &accounts, NOW, 1),
        Err(ProcessError::Auction(AuctionError::InvalidAuctionTokenOwnerAddress))
    );
    let mut accounts = bid_accounts(a, 100);
    accounts[5].key = [0x98; 32];
    assert_eq!(
        Processor::process_bid(&program_id(), &accounts, NOW, 1),
        Err(ProcessError::Auction(AuctionError::InvalidAuctionTokenAddress))
    );
    let mut accounts = bid_accounts(a, 100);
    accounts[5].data[108] = 3;
    assert_eq!(
        Processor::process_bid(&program_id(), &accounts, NOW, 1),
        Err(ProcessError::InvalidAccountData)
    );
}

#[test]
fn withdrawals_wait_for_the_end_whoever_asks() {
    let active = record(NOW - 60, 60, 10_000_000_000, 1_000_000_000);
    let not_finished = Err(ProcessError::Auction(AuctionError::NotFinished));
    for caller in [AUTHORITY, [0x55; 32]] {
        let accounts = withdraw_tokens_accounts(active, caller, true);
        assert_eq!(Processor::process_withdraw_tokens(&program_id(), &accounts, NOW), not_finished);
        let accounts = withdraw_sol_accounts(active, caller, true);
        assert_eq!(Processor::process_withdraw_sol(&program_id(), &accounts, NOW), not_finished);
    }
    let upcoming = record(NOW + 60, 60, 10, 1);
    let accounts = withdraw_sol_accounts(upcoming, AUTHORITY, true);
    assert_eq!(Processor::process_withdraw_sol(&program_id(), &accounts, NOW), not_finished);
}

#[test]
fn withdrawals_refused_to_others_after_the_end() {
    let finished = record(NOW - 600, 60, 10_000_000_000, 1_000_000_000);
    let mismatch = Err(ProcessError::Auction(AuctionError::OwnerMismatch));
    let accounts = withdraw_tokens_accounts(finished, [0x55; 32], true);
    assert_eq!(Processor::process_withdraw_tokens(&program_id(), &accounts, NOW), mismatch);
    let accounts = withdraw_sol_accounts(finished, [0x55; 32], true);
    assert_eq!(Processor::process_withdraw_sol(&program_id(), &accounts, NOW), mismatch);
}

#[test]
fn withdrawals_need_the_signature() {
    let finished = record(NOW - 600, 60, 10_000_000_000, 1_000_000_000);
    let accounts = withdraw_tokens_accounts(finished, AUTHORITY, false);
    assert_eq!(
        Processor::process_withdraw_tokens(&program_id(), &accounts, NOW),
        Err(ProcessError::MissingRequiredSignature)
    );
    let accounts = withdraw_sol_accounts(finished, AUTHORITY, false);
    assert_eq!(
        Processor::process_withdraw_sol(&program_id(), &accounts, NOW),
        Err(ProcessError::MissingRequiredSignature)
    );
}

#[test]
fn withdrawals_drain_everything_after_the_end() {
    let finished = record(NOW - 600, 60, 10_000_000_000, 1_000_000_000);
    let accounts = withdraw_tokens_accounts(finished, AUTHORITY, true);
    assert_eq!(
        Processor::process_withdraw_tokens(&program_id(), &accounts, NOW),
        Ok(Effect::WithdrawTokens { token_amount: 42, decimals: 6 })
    );
    let accounts = withdraw_sol_accounts(finished, AUTHORITY, true);
    assert_eq!(
        Processor::process_withdraw_sol(&program_id(), &accounts, NOW),
        Ok(Effect::WithdrawSol { lamports: 777_000 })
    );
}

#[test]
fn process_dispatches_decoded_instructions() {
    let a = record(NOW - 60, 60, 10_000_000_000, 1_000_000_000);
    let accounts = bid_accounts(a, 100);
    let input = AuctionInstruction::MakeBid { token_amount: 150 }.pack();
    assert_eq!(
        Processor::process(&program_id(), &accounts, &input, NOW),
        Ok(Effect::Bid { lamports: 100 * 9_000_000_000, token_amount: 100, decimals: 6 })
    );
    assert_eq!(
        Processor::process(&program_id(), &accounts, &[1, 2, 3], NOW),
        Err(ProcessError::Auction(AuctionError::InvalidInstruction))
    );
    let input = AuctionInstruction::WithdrawSOL.pack();
    assert_eq!(
        Processor::process(&program_id(), &accounts[..5], &input, NOW),
        Err(ProcessError::NotEnoughAccountKeys)
    );
    let accounts = init_accounts(vec![0u8; AUCTION_LEN]);
    let input = AuctionInstruction::InitializeAuction {
        token_amount: 500,
        time_start: NOW,
        time_step: 60,
        price_start: 1,
        price_step: 1,
    }
    .pack();
    assert!(matches!(
        Processor::process(&program_id(), &accounts, &input, NOW),
        Ok(Effect::Initialize { token_amount: 500, decimals: 6, .. })
    ));
}

#[test]
fn validators_compare_derived_addresses() {
    let (auction_key, owner) = auction_keys();
    assert_eq!(Processor::validate_vault_authority(&program_id(), &auction_key, &owner), Ok(()));
    assert_eq!(
        Processor::validate_vault_authority(&program_id(), &auction_key, &auction_key),
        Err(ProcessError::Auction(AuctionError::InvalidAuctionTokenOwnerAddress))
    );
    let vault = vault_of(&owner, &MINT);
    assert_eq!(Processor::validate_vault_account(&owner, &MINT, &vault), Ok(()));
    assert_eq!(
        Processor::validate_vault_account(&owner, &MINT, &owner),
        Err(ProcessError::Auction(AuctionError::InvalidAuctionTokenAddress))
    );
    assert_eq!(
        Processor::validate_vault_account(&owner, &MINT, &MINT),
        Err(ProcessError::Auction(AuctionError::InvalidAuctionTokenAddress))
    );
}

#[test]
fn validate_owner_checks_key_then_signature() {
    let ok = account(AUTHORITY, true, 0, vec![]);
    assert_eq!(Processor::validate_owner(&AUTHORITY, &ok), Ok(()));
    let other = account([3u8; 32], false, 0, vec![]);
    assert_eq!(
        Processor::validate_owner(&AUTHORITY, &other),
        Err(ProcessError::Auction(AuctionError::OwnerMismatch))
    );
    let unsigned = account(AUTHORITY, false, 0, vec![]);
    assert_eq!(
        Processor::validate_owner(&AUTHORITY, &unsigned),
        Err(ProcessError::MissingRequiredSignature)
    );
}

#[test]
fn keys_equal_compares_every_byte() {
    let a = [4u8; 32];
    let mut b = a;
    assert!(keys_equal(&a, &b));
    b[31] = 5;
    assert!(!keys_equal(&a, &b));
}
