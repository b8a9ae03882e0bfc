use vstd::prelude::*;

verus! {

/// The domain failures of the auction, in the order of their stable codes.
#[derive(Clone, Copy, Debug, PartialEq, Eq, Structural)]
pub enum AuctionError {
    AlreadyInUse,
    InvalidInstruction,
    InvalidInitializationTime,
    InvalidAuctionTokenOwnerAddress,
    InvalidAuctionTokenAddress,
    NotStarted,
    Finished,
    EverythingSoldOut,
    OwnerMismatch,
    NotFinished,
}

/// The stable integer code of each domain failure.
pub open spec fn error_code(e: AuctionError) -> u32 {
    match e {
        AuctionError::AlreadyInUse => 0,
        AuctionError::InvalidInstruction => 1,
        AuctionError::InvalidInitializationTime => 2,
        AuctionError::InvalidAuctionTokenOwnerAddress => 3,
        AuctionError::InvalidAuctionTokenAddress => 4,
        AuctionError::NotStarted => 5,
        AuctionError::Finished => 6,
        AuctionError::EverythingSoldOut => 7,
        AuctionError::OwnerMismatch => 8,
        AuctionError::NotFinished => 9,
    }
}

impl AuctionError {
    /// The code under which the failure crosses the ledger boundary.
    pub fn code(&self) -> (r: u32)
        ensures
            r == error_code(*self),
    {
        match self {
            AuctionError::AlreadyInUse => 0,
            AuctionError::InvalidInstruction => 1,
            AuctionError::InvalidInitializationTime => 2,
            AuctionError::InvalidAuctionTokenOwnerAddress => 3,
            AuctionError::InvalidAuctionTokenAddress => 4,
            AuctionError::NotStarted => 5,
            AuctionError::Finished => 6,
            AuctionError::EverythingSoldOut => 7,
            AuctionError::OwnerMismatch => 8,
            AuctionError::NotFinished => 9,
        }
    }
}

/// Why an instruction was refused: a domain failure of the auction, or one of
/// the ledger-level conditions that stop processing in the same way.
#[derive(Clone, Copy, Debug, PartialEq, Eq, Structural)]
pub enum ProcessError {
    Auction(AuctionError),
    /// Fewer accounts than the instruction needs were supplied.
    NotEnoughAccountKeys,
    /// An account's data does not have the layout it must have.
    InvalidAccountData,
    /// An account that must be initialized is not.
    UninitializedAccount,
    /// The authority account did not sign the transaction.
    MissingRequiredSignature,
    /// The payment for a bid does not fit in 64 bits.
    ArithmeticOverflow,
}

impl From<AuctionError> for ProcessError {
    fn from(e: AuctionError) -> (r: ProcessError) {
        ProcessError::Auction(e)
    }
}

impl vstd::std_specs::convert::FromSpecImpl<AuctionError> for ProcessError {
    open spec fn obeys_from_spec() -> bool {
        true
    }

    open spec fn from_spec(e: AuctionError) -> ProcessError {
        ProcessError::Auction(e)
    }
}

} // verus!
