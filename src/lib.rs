//! A dice-wager settlement engine: wager decoding, account checks and a
//! conservation-preserving transfer between a prize pool and a player balance.

pub mod accounts;
pub mod codec;
pub mod error;
pub mod processor;
pub mod settlement;

pub use accounts::{AccountRecord, Address};
pub use codec::{Dice, PlayerBalance, PrizePool};
pub use error::DiceErr;
pub use processor::{process_instruction, Settlement};
