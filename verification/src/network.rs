//! The network settings of a node.
use vstd::prelude::*;

use crate::config::SecretKey;

verus! {

/// How the node reaches relays.
pub enum RelayMode {
    /// The default relays.
    Default,
    /// The relay at this URL.
    Custom(String),
}

/// The network settings: the endpoint's key, and a relay to use in place of
/// the default ones.
pub struct Config {
    pub key: Option<SecretKey>,
    pub custom_relay_url: Option<String>,
}

impl Config {
    /// The custom relay where one is set, else the default relays.
    pub fn relay_mode(&self) -> (res: RelayMode)
        ensures
            match self.custom_relay_url {
                Some(u) => res matches RelayMode::Custom(v) && v@ == u@,
                None => res is Default,
            },
    {
        match &self.custom_relay_url {
            Some(url) => RelayMode::Custom(url.clone()),
            None => RelayMode::Default,
        }
    }
}

} // verus!
