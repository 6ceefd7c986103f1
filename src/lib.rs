//! A single time-decaying ("Dutch") auction for one transferable asset.
//!
//! The auction talks to an external asset registry only through messages.
//! Every multi-step operation is a saga whose checkpoints live in a
//! per-caller transaction ledger, so that retries are idempotent and a
//! resumed saga never repeats a registry call that was already confirmed.
//! The library decides; the host runs the registry calls it asks for and
//! hands the replies back.

pub mod types;
pub mod price;
pub mod ledger;
pub mod auction;
pub mod guarantees;

pub use types::{Action, ActorId, CreateConfig, Duration, Error, Event, Nft, Status, TokenId};
pub use price::current_price;
pub use ledger::{BuyStage, StartAuctionStage, Transaction, TransactionLedger, TransactionStage};
pub use auction::{Auction, AuctionInfo, RegistryCall, Response, Step};
