//! A deterministic core for driving on-chain programs against a simulated
//! ledger: it assembles, budgets and signs transactions, and decides what the
//! answers of the ledger mean. It performs no input or output of its own; the
//! session that talks to the ledger hands in what it fetched.

pub mod account;
pub mod clock;
pub mod errors;
pub mod instruction;
pub mod keys;
pub mod message;
pub mod outcome;
pub mod roles;
pub mod signing;
pub mod simulator;

pub use account::{Account, AccountEncoding};
pub use clock::Clock;
pub use errors::{into_transaction_error, into_transaction_error_with_index};
pub use instruction::{AccountMeta, Instruction};
pub use keys::{Blockhash, Pubkey, Signature};
pub use outcome::SimulatorError;
pub use simulator::ProgramSimulator;
