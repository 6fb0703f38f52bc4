//! Token-economy controller: converts spent fungible tokens into
//! non-transferable usage credits, recycles a fraction of spent value into a
//! reward pool, and distributes that pool to registered creators on a lazy
//! weekly cycle, weighted by a tier multiplier and bounded by an emission cap.
//!
//! The on-chain ledger (burn/transfer/mint), record storage, signature checks
//! and the clock are external collaborators: every operation here is a pure
//! state transition over plain records, taking the caller identity and the
//! current timestamp as arguments and returning the event to emit. The host
//! glue performs the ledger calls that the returned event describes.

pub mod errors;
pub mod events;
pub mod ops;
pub mod state;
