//! SFTP client-side protocol logic: message framing checks, error
//! classification, request bookkeeping and session metrics.

pub mod buf;
pub mod client;
pub mod error;
pub mod extensions;
pub mod protocol;
pub mod text;
pub mod utils;
