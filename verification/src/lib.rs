//! A small production-line scan tracker: a pure barcode classifier, a durable
//! append-only scan log with a settings singleton (backed by SQLite through a
//! connection pool), and a counter that derives the number of successful scans
//! since local midnight from the stored timestamps.

pub mod classify;
pub mod counter;
pub mod process;
pub mod settings;
pub mod store;
pub mod time;

pub use classify::mock_external_service;
