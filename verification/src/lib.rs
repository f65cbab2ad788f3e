//! Fair-launch escrow: a program that locks a buyer's lamports in a vault
//! account until the platform finishes the escrow (paying the destination)
//! or someone cancels it (refunding the buyer).
//!
//! The library holds the program's logic over plain account values; the
//! runtime glue (reading accounts, invoking the system program, logging,
//! writing balances) performs the effects that the logic decides.

pub mod codec;
pub mod errors;
pub mod state;
pub mod events;
pub mod instruction;
pub mod processor;
pub mod laws;
