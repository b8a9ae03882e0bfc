use dutch_auction::pricing::{current_price, PriceState};
use dutch_auction::state::Auction;

fn auction(time_start: i64, time_step: i64, price_start: u64, price_step: u64) -> Auction {
    Auction {
        is_initialized: true,
        authority: [1u8; 32],
        token: [2u8; 32],
        time_start,
        time_step,
        price_start,
        price_step,
    }
}

#[test]
fn documented_price_example() {
    let t0 = 1_700_000_000;
    let a = auction(t0, 60, 10_000_000_000, 1_000_000_000);
    assert_eq!(current_price(&a, t0), PriceState::Active(10_000_000_000));
    assert_eq!(current_price(&a, t0 + 59), PriceState::Active(10_000_000_000));
    assert_eq!(current_price(&a, t0 + 60), PriceState::Active(9_000_000_000));
    assert_eq!(current_price(&a, t0 + 599), PriceState::Active(1_000_000_000));
    assert_eq!(current_price(&a, t0 + 600), PriceState::Finished);
    assert_eq!(current_price(&a, t0 + 6_000_000), PriceState::Finished);
}

#[test]
fn not_started_before_start() {
    let a = auction(100, 10, 50, 1);
    assert_eq!(current_price(&a, 99), PriceState::NotStarted);
    assert_eq!(current_price(&a, i64::MIN), PriceState::NotStarted);
    assert_eq!(current_price(&a, 100), PriceState::Active(50));
}

#[test]
fn price_never_rises() {
    let a = auction(0, 7, 1_000, 13);
    let mut last = u64::MAX;
    let mut finished = false;
    for now in 0..1_000i64 {
        match current_price(&a, now) {
            PriceState::Active(p) => {
                assert!(!finished);
                assert!(p <= last);
                last = p;
            }
            PriceState::Finished => finished = true,
            PriceState::NotStarted => panic!("started at 0"),
        }
    }
    assert!(finished);
}

#[test]
fn each_boundary_cuts_one_step() {
    let a = auction(10, 5, 100, 30);
    assert_eq!(current_price(&a, 14), PriceState::Active(100));
    assert_eq!(current_price(&a, 15), PriceState::Active(70));
    assert_eq!(current_price(&a, 20), PriceState::Active(40));
    assert_eq!(current_price(&a, 25), PriceState::Active(10));
    assert_eq!(current_price(&a, 30), PriceState::Finished);
}

#[test]
fn zero_start_price_is_finished_at_once() {
    let a = auction(0, 1, 0, 0);
    assert_eq!(current_price(&a, 0), PriceState::Finished);
}

#[test]
fn zero_price_step_never_finishes() {
    let a = auction(0, 1, 5, 0);
    assert_eq!(current_price(&a, i64::MAX), PriceState::Active(5));
}

#[test]
fn huge_cut_does_not_wrap() {
    let a = auction(0, 1, u64::MAX, u64::MAX / 2 + 1);
    assert_eq!(current_price(&a, 1), PriceState::Active(u64::MAX / 2));
    assert_eq!(current_price(&a, 2), PriceState::Finished);
    assert_eq!(current_price(&a, 1_000), PriceState::Finished);
}

#[test]
fn extreme_times_do_not_overflow() {
    let a = auction(i64::MIN, 1, 10, 1);
    assert_eq!(current_price(&a, i64::MAX), PriceState::Finished);
    let b = auction(i64::MIN, i64::MAX, 10, 1);
    assert_eq!(current_price(&b, i64::MAX), PriceState::Active(8));
}
