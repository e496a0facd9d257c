//! A peer-to-peer token marketplace engine: sellers post sell orders,
//! buyers execute atomic swaps (asset for native currency plus a
//! marketplace fee), sellers may cancel or reprice open orders, and an
//! administrator collects a configurable cut of each trade.
//!
//! The library is the order lifecycle and settlement engine: the state
//! machine governing a sell order's life, the fee and proceeds
//! computation, and the command router. External collaborators (the
//! asset ledger, the native-currency ledger, signature verification,
//! storage allocation, the clock) are consumed at their interface
//! boundary: handlers take the values those collaborators report as
//! plain arguments and return the transfers the host must perform.

pub mod codec;
pub mod error;
pub mod guard;
pub mod handlers;
pub mod ident;
pub mod keys;
pub mod persist;
pub mod router;
pub mod settlement;
pub mod state;
