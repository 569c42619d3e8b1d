//! A persistent counter service with explicit storage-entry lifetime
//! management: one unsigned 32-bit counter held under a single well-known key
//! of a keyed persistent store, mutated only by a read-modify-write
//! `increment`, with the entry's time-to-live refreshed by a watermark policy
//! on every successful call.

pub mod codec;
pub mod counter;
pub mod diag;
pub mod hello;
pub mod laws;
pub mod store;

pub use codec::decode_u32;
pub use codec::encode_u32;
pub use counter::CounterError;
pub use counter::IncrementContract;
pub use counter::TTL_EXTEND_TO;
pub use counter::TTL_THRESHOLD;
pub use diag::DiagnosticLog;
pub use diag::format_count_line;
pub use hello::Contract;
pub use store::Store;
pub use store::StoreError;
