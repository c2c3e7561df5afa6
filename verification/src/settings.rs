//! Settings: the agent's configuration values with their defaults.
//!
//! Reading and parsing the configuration file happens outside this crate;
//! the loader hands over whatever fields it found, and this module resolves
//! them against the defaults.

use vstd::prelude::*;
use vstd::string::*;

verus! {

/// The agent's configuration: display name, authorized sender identifiers
/// (bech32), verification string, relay addresses, and the requested output
/// format and quality.
pub struct BotConfig {
    /// Display name of the agent.
    pub name: String,
    /// Authorized sender identifiers, bech32-encoded.
    pub allowed_senders: Vec<String>,
    /// Verification string published with the profile.
    pub nip05: String,
    /// Relay addresses the transport connects to.
    pub relays: Vec<String>,
    /// Requested output audio format.
    pub format: String,
    /// Requested output quality parameter.
    pub quality: String,
}

impl BotConfig {
    /// Resolve loaded fields against the defaults: each absent value falls
    /// back to its default, each present value is taken unchanged.
    pub fn resolve(
        name: Option<String>,
        allowed_senders: Option<Vec<String>>,
        nip05: Option<String>,
        relays: Option<Vec<String>>,
        format: Option<String>,
        quality: Option<String>,
    ) -> (r: BotConfig)
        ensures
            (match name {
                Some(v) => r.name@ == v@,
                None => r.name@ == "YouTube Downloader Bot"@,
            }),
            (match allowed_senders {
                Some(v) => r.allowed_senders == v,
                None => r.allowed_senders@.len() == 0,
            }),
            (match nip05 {
                Some(v) => r.nip05@ == v@,
                None => r.nip05@ == ""@,
            }),
            (match relays {
                Some(v) => r.relays == v,
                None => r.relays@.len() == 0,
            }),
            (match format {
                Some(v) => r.format@ == v@,
                None => r.format@ == "mp3"@,
            }),
            (match quality {
                Some(v) => r.quality@ == v@,
                None => r.quality@ == "0"@,
            }),
    {
        BotConfig {
            name: match name {
                Some(v) => v,
                None => String::from_str("YouTube Downloader Bot"),
            },
            allowed_senders: match allowed_senders {
                Some(v) => v,
                None => Vec::new(),
            },
            nip05: match nip05 {
                Some(v) => v,
                None => String::from_str(""),
            },
            relays: match relays {
                Some(v) => v,
                None => Vec::new(),
            },
            format: match format {
                Some(v) => v,
                None => String::from_str("mp3"),
            },
            quality: match quality {
                Some(v) => v,
                None => String::from_str("0"),
            },
        }
    }
}

} // verus!
