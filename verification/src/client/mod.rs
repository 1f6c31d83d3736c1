//! SFTP client: error classification, request bookkeeping and session
//! metrics.

pub mod error;
pub mod metrics;
pub mod rawsession;
pub mod fs;
pub mod session;
