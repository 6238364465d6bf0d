//! A two-party token escrow: a sender locks a fixed amount of a Token-2022
//! mint for a receiver, then either releases it to the receiver or cancels
//! the deal and takes the tokens back.
//!
//! The library holds the escrow program's rules as verified functions over
//! plain snapshots of the accounts an instruction receives: which accounts an
//! instruction accepts (and which error rejects the others), how each
//! instruction moves the deal through its states, and which token transfers,
//! vault closure and account writes it asks for.
use vstd::prelude::*;

pub mod address;
pub mod error;
pub mod state;
pub mod pda;
pub mod extensions;
pub mod accounts;
pub mod instructions;
pub mod token_cpi;
pub mod escrow;
pub mod laws;

verus! {

} // verus!
