//! A set-once store for the bot configuration: loaded exactly once at
//! startup, then read for the rest of the process's life.
use vstd::prelude::*;

verus! {

/// The bot configuration, as plain values. The surrounding runtime reads
/// and parses the configuration file and hands the result over as one of
/// these.
#[derive(Clone, Debug)]
pub struct BotConfig {
    /// The token the bot authenticates with.
    pub token: String,
    /// Where the bot's database lives.
    pub database_url: String,
}

/// Holds the configuration once it has been loaded. A store starts
/// empty, is filled exactly once by `load_config`, and is read by
/// `get_config`.
#[derive(Debug)]
pub struct ConfigStore {
    pub config: Option<BotConfig>,
}

impl ConfigStore {
    /// A store with no configuration loaded yet.
    pub fn new() -> (s: ConfigStore)
        ensures
            s.config is None,
    {
        ConfigStore { config: None }
    }
}

/// Load the configuration into the store. Loading is a set-once step:
/// the caller must not load more than once into the same store.
pub fn load_config(store: &mut ConfigStore, cfg: BotConfig)
    requires
        old(store).config is None,
    ensures
        final(store).config == Some(cfg),
{
    store.config = Some(cfg);
}

/// Read the configuration. The caller must have loaded it first.
pub fn get_config(store: &ConfigStore) -> (r: &BotConfig)
    requires
        store.config is Some,
    ensures
        store.config == Some(*r),
{
    match &store.config {
        Some(cfg) => cfg,
        None => vstd::pervasive::unreached(),
    }
}

} // verus!
