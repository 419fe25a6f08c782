//! Binary wire codec for a fungible-token ledger contract: the tagged
//! instruction encoding, the fixed-offset layouts of the three persisted
//! record types (mint, token account, multisignature account), and the
//! builders that assemble encoded instructions with their account lists.

pub mod builders;
pub mod error;
pub mod instruction;
pub mod option_codec;
pub mod pubkey;
pub mod state;
pub mod wire;

use vstd::prelude::*;

verus! {

/// Minimum number of multisignature signers.
pub const MIN_SIGNERS: usize = 1;

/// Maximum number of multisignature signers.
pub const MAX_SIGNERS: usize = 11;

} // verus!
