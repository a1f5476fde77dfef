//! Startup configuration: which bridge address and application key the
//! session uses. The surrounding program reads command-line arguments,
//! the environment and the configuration file; this module owns the
//! precedence rule that combines them, and says exactly when startup must
//! fail instead.

use vstd::prelude::*;

verus! {

/// The resolved startup configuration.
#[derive(Debug, PartialEq, Eq)]
pub struct Config {
    pub bridge_addr: String,
    pub app_key: String,
}

/// Why no configuration could be resolved. Any of these is fatal at
/// startup, before the interactive loop begins; none can occur mid-session.
#[derive(Clone, Copy, Debug, PartialEq, Eq, Structural)]
pub enum ConfigError {
    /// No arguments given and no configuration file present.
    MissingConfig,
    /// A configuration file is present but carries no bridge address, and
    /// none was given as an argument.
    MissingBridgeAddr,
    /// A configuration file is present but carries no application key, and
    /// none was given as an argument.
    MissingAppKey,
}

impl Config {
    /// Resolve the configuration. Arguments win over the file; with both
    /// the address and the key given as arguments the file is not
    /// consulted at all. Succeeds exactly when an address and a key can
    /// both be found.
    pub fn try_init(
        arg_addr: Option<String>,
        arg_key: Option<String>,
        file_present: bool,
        file_addr: Option<String>,
        file_key: Option<String>,
    ) -> (r: Result<Config, ConfigError>)
        ensures
            r is Ok <==> ((arg_addr is Some && arg_key is Some) || (file_present && (arg_addr
                is Some || file_addr is Some) && (arg_key is Some || file_key is Some))),
            r matches Ok(c) ==> (if arg_addr is Some {
                c.bridge_addr@ == arg_addr->0@
            } else {
                c.bridge_addr@ == file_addr->0@
            }),
            r matches Ok(c) ==> (if arg_key is Some {
                c.app_key@ == arg_key->0@
            } else {
                c.app_key@ == file_key->0@
            }),
            !(arg_addr is Some && arg_key is Some) && !file_present ==> r == Err::<
                Config,
                ConfigError,
            >(ConfigError::MissingConfig),
            !(arg_addr is Some && arg_key is Some) && file_present && arg_addr is None && file_addr
                is None ==> r == Err::<Config, ConfigError>(ConfigError::MissingBridgeAddr),
            !(arg_addr is Some && arg_key is Some) && file_present && (arg_addr is Some || file_addr
                is Some) && arg_key is None && file_key is None ==> r == Err::<
                Config,
                ConfigError,
            >(ConfigError::MissingAppKey),
    {
        if arg_addr.is_some() && arg_key.is_some() {
            let addr = match arg_addr {
                Some(a) => a,
                None => String::new(),
            };
            let key = match arg_key {
                Some(k) => k,
                None => String::new(),
            };
            return Ok(Config { bridge_addr: addr, app_key: key });
        }
        if !file_present {
            return Err(ConfigError::MissingConfig);
        }
        let addr = match arg_addr {
            Some(a) => Some(a),
            None => file_addr,
        };
        let key = match arg_key {
            Some(k) => Some(k),
            None => file_key,
        };
        match addr {
            Some(a) => match key {
                Some(k) => Ok(Config { bridge_addr: a, app_key: k }),
                None => Err(ConfigError::MissingAppKey),
            },
            None => Err(ConfigError::MissingBridgeAddr),
        }
    }
}

} // verus!
