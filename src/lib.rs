//! A descending-price ("Dutch") auction engine: the instruction codec, the
//! fixed-layout auction record, the price-decay rule, the address checks and
//! the state machine that decides what each instruction does.
pub mod error;
pub mod instruction;
pub mod state;
pub mod pricing;
pub mod ledger;
pub mod processor;
