//! Authority and state-transition core of a two-party token escrow.
//!
//! A maker deposits tokens of one mint into a vault that only the escrow's own
//! derived address may spend from, and names how much of another mint is wanted
//! in return. A refund hands the deposit back and tears the escrow down.
//!
//! The crate decides and validates; it performs no effect on the host itself.
//! Each transition validates a snapshot of the accounts it was handed and
//! answers with the ordered list of [`Action`]s that the caller has to carry
//! out against the host, stopping at the first one that fails.

pub mod account;
pub mod action;
pub mod address;
pub mod error;
pub mod helper;
pub mod host;
pub mod instruction;
pub mod laws;
pub mod state;

pub use account::{Account, MINT_LEN, TOKEN_ACCOUNT_LEN, TOKEN_AMOUNT_OFFSET};
pub use action::{Action, Authority, EscrowSigner};
pub use address::{
    address_eq, find_associated_token_address, find_escrow_address, Address,
    ASSOCIATED_TOKEN_PROGRAM_ID, ESCROW_TAG, SYSTEM_PROGRAM_ID, TOKEN_PROGRAM_ID,
};
pub use error::ProgramError;
pub use helper::AssociatedTokenAccount;
pub use instruction::make_offer::{Make, MakeAccount, MakeInstructionData};
pub use instruction::refund::{Refund, RefundAccounts};
pub use state::{Escrow, CLOSED_LEN, TOMBSTONE};
