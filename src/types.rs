use vstd::prelude::*;

verus! {

/// A 256-bit party identifier (an account or a program), as four 64-bit words,
/// least significant first.
#[derive(Clone, Copy, Debug, PartialEq, Eq, Structural)]
pub struct ActorId {
    pub w0: u64,
    pub w1: u64,
    pub w2: u64,
    pub w3: u64,
}

/// A 256-bit asset identifier inside a registry, as four 64-bit words, least
/// significant first.
#[derive(Clone, Copy, Debug, PartialEq, Eq, Structural)]
pub struct TokenId {
    pub w0: u64,
    pub w1: u64,
    pub w2: u64,
    pub w3: u64,
}

/// The asset on sale: which token, who owns it, and which registry keeps it.
#[derive(Clone, Copy, Debug, PartialEq, Eq, Structural)]
pub struct Nft {
    pub token_id: TokenId,
    pub owner: ActorId,
    pub contract_id: ActorId,
}

/// Lifecycle of the auction.
#[derive(Clone, Copy, Debug, PartialEq, Eq, Structural)]
pub enum Status {
    /// No auction has been started yet.
    Uninitialized,
    IsRunning,
    Purchased { price: u128 },
    Expired,
    Stopped,
}

/// How long an auction runs, in hierarchical fields.
#[derive(Clone, Copy, Debug, PartialEq, Eq, Structural)]
pub struct Duration {
    pub hours: u64,
    pub minutes: u64,
    pub seconds: u64,
}

/// The terms of a new auction.
#[derive(Clone, Copy, Debug, PartialEq, Eq, Structural)]
pub struct CreateConfig {
    pub nft_contract_actor_id: ActorId,
    pub token_id: TokenId,
    pub starting_price: u128,
    pub discount_rate: u128,
    pub duration: Duration,
}

/// An inbound request.
#[derive(Clone, Copy, Debug, PartialEq, Eq, Structural)]
pub enum Action {
    Buy,
    Create(CreateConfig),
    ForceStop,
}

/// The result of an operation that succeeded.
#[derive(Clone, Copy, Debug, PartialEq, Eq, Structural)]
pub enum Event {
    AuctionStarted { token_owner: ActorId, price: u128, token_id: TokenId },
    Bought { price: u128 },
    AuctionStopped { token_owner: ActorId, token_id: TokenId },
}

/// Why an operation failed.
#[derive(Clone, Copy, Debug, PartialEq, Eq, Structural)]
pub enum Error {
    /// A force stop asked by someone other than the auction's owner.
    NotOwner,
    AuctionAlreadyRunning,
    AuctionNotActive,
    Expired,
    InsufficientPayment,
    /// The starting price is below `discount_rate * duration`.
    StartingPriceBelowMinimum,
    AssetNotApproved,
    AssetTransferFailed,
    RewardSendFailed,
    /// A registry query (approval or owner) failed; it may be retried.
    RegistryCallFailed,
    /// The caller already has a different operation in flight.
    PreviousTransactionPending,
}

/// Milliseconds in one time unit of pricing and duration (one second).
pub const MILLIS_PER_UNIT: u64 = 1000;

/// Refunds below this many value units are not worth sending and become zero.
pub const DUST_THRESHOLD: u128 = 500;

/// The length of a duration in whole seconds.
pub open spec fn duration_secs(d: Duration) -> int {
    (d.hours * 60 + d.minutes) * 60 + d.seconds
}

impl Duration {
    /// The length of the duration in whole seconds.
    pub fn in_seconds(&self) -> (r: u128)
        ensures
            r as int == duration_secs(*self),
            r <= 0x1_0000_0000_0000_0000 * 3661,
    {
        let h = self.hours as u128;
        let m = self.minutes as u128;
        let s = self.seconds as u128;
        assert(h * 60 + m <= 0x1_0000_0000_0000_0000 * 61) by (nonlinear_arith)
            requires h < 0x1_0000_0000_0000_0000, m < 0x1_0000_0000_0000_0000;
        let mins = h * 60 + m;
        assert(mins * 60 + s <= 0x1_0000_0000_0000_0000 * 61 * 61) by (nonlinear_arith)
            requires mins <= 0x1_0000_0000_0000_0000 * 61, s < 0x1_0000_0000_0000_0000;
        mins * 60 + s
    }
}

} // verus!
