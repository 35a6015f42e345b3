//! The user settings that the text service reads for itself.
//!
//! The service runs inside every application's process and cannot reach the server's copy
//! of the settings, yet two values are needed before the first key arrives: the
//! Chinese/English switch key and whether the built-in English mode is on. They are read once
//! on activation and read again whenever the file's modification time changes.
use vstd::prelude::*;

verus! {

/// Directory under the roaming application-data directory that holds the config file.
pub const CONFIG_DIR: &'static str = "Qingjian";

/// Name of the config file, shared with the server and the settings program.
pub const CONFIG_FILE: &'static str = "config.toml";

/// Settings chosen on activation, with the read error to report when the file could not be
/// read.
pub struct Loaded<C, E> {
    pub config: C,
    pub failure: Option<E>,
}

/// The settings to use, given what reading the config file gave: `None` when there is no
/// application-data directory, else the file's settings or the error that reading or parsing
/// it gave. Without a directory, or when the read failed, the defaults `fallback` are used; a
/// failed read is handed back to be reported.
pub fn load<C, E>(read: Option<Result<C, E>>, fallback: C) -> (loaded: Loaded<C, E>)
    ensures
        match read {
            None => loaded.config == fallback && loaded.failure is None,
            Some(Ok(config)) => loaded.config == config && loaded.failure is None,
            Some(Err(error)) => loaded.config == fallback && loaded.failure == Some(error),
        },
{
    match read {
        None => Loaded { config: fallback, failure: None },
        Some(Ok(config)) => Loaded { config, failure: None },
        Some(Err(error)) => Loaded { config: fallback, failure: Some(error) },
    }
}

} // verus!
