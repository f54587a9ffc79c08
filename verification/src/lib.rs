//! Tamper-evident evidence records for jitter computations, and the
//! append-only ledger that folds them into one rolling authentication code.

pub mod chain;
pub mod clock;
pub mod crypto;
pub mod encoding;
pub mod evidence;
pub mod laws;
pub mod traits;
pub mod types;

pub use chain::{ChainView, EvidenceChain, Ratio};
pub use crypto::{HmacSha256, Sha256Hasher};
pub use evidence::Evidence;
pub use traits::{EntropySource, JitterEngine};
pub use types::{Error, Jitter, PhysHash};
