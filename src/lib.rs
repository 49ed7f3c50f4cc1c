//! An append-only text logger: timestamped, severity-tagged records, one
//! complete line per record.
//!
//! The library renders records and their parts; opening the file and
//! writing under the lock is left to the host.

pub mod error;
pub mod level;
pub mod record;
pub mod stamp;
pub mod timestamp;

pub use error::BlackBoxError;
pub use level::Level;
pub use stamp::Stamp;
