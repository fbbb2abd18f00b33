//! The fixed settings of the server, and the one that the environment can
//! change.

use vstd::prelude::*;

verus! {

/// The address that the server listens on: the loopback address.
pub const LISTEN_ADDRESS: [u8; 4] = [127, 0, 0, 1];

/// The port that the server listens on.
pub const LISTEN_PORT: u16 = 3000;

/// The log level where the environment names none.
pub open spec fn default_log_level() -> Seq<char> {
    "info"@
}

/// The log level to run with: the configured one as it is, or `info` where
/// none is configured.
pub fn log_level(configured: Option<String>) -> (level: String)
    ensures
        match configured {
            Some(value) => level@ == value@,
            None => level@ == default_log_level(),
        },
{
    match configured {
        Some(value) => value,
        None => "info".to_owned(),
    }
}

} // verus!
