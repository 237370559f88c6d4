//! Core logic of a proof-of-capacity mining client: plot file descriptors,
//! read planning, buffer padding, worker reply processing, round
//! coordination, nonce submission with bounded retries, and decoding of the
//! upstream mining-info JSON.

pub mod buffers;
pub mod coordinator;
pub mod digits;
pub mod logger;
pub mod plot;
pub mod reader;
pub mod requests;
pub mod utils;
pub mod worker;
