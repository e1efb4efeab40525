//! A capability-gated transfer authorization hook: transfers under a mint are
//! allowed only when the destination account's owner holds a previously
//! issued, non-transferable badge. Storage slots are program-derived
//! addresses; a per-mint descriptor declares, ahead of time, how the badge
//! slot is derived from the transfer's own accounts.

pub mod addr;
pub mod badge;
pub mod error;
pub mod meta;
pub mod state;
