//! Two small deterministic ledger engines meant to sit inside a larger
//! state-transition host: a fungible-balance token ledger (`token`) and a
//! bounded reputation ledger (`reputation`).
//!
//! Each public operation is one atomic transition: every precondition is
//! checked before any write, so a failing call leaves the ledger exactly as
//! it was. The host's collaborators are modelled as plain values: the
//! authorization oracle's verdict arrives as an [`Origin`], the persistent
//! store is the ledger's own keyed table, and the event sink receives the
//! record that a successful operation returns.

use vstd::prelude::*;

pub mod table;
pub mod token;
pub mod reputation;

verus! {

/// Account identifier supplied by the host. The ledgers compare identifiers
/// but never interpret them.
pub type AccountId = u64;

/// The provenance of a call, as the host's authorization oracle reports it:
/// the privileged root origin, a self-attesting signed account, or an
/// unauthenticated call.
#[derive(Clone, Copy, Debug, PartialEq, Eq, Structural)]
pub enum Origin {
    Root,
    Signed(AccountId),
    Unsigned,
}

} // verus!
