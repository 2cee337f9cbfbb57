//! The configuration store: holds the current configuration version, hands
//! out full snapshots, and swaps in a new version wholesale. A snapshot is an
//! owned copy, so a reader that took one before a replacement keeps working
//! with the version it read; a reader that asks afterwards sees the new one.
//! The surrounding process guards the store with a mutual-exclusion lock and
//! holds it only for the duration of one snapshot or one replacement.

use vstd::prelude::*;

use crate::config::{Config, ConfigView};

verus! {

/// The shared configuration store.
pub struct ConfigStore {
    config: Config,
}

impl ConfigStore {
    /// The configuration version the store currently holds.
    pub closed spec fn spec_current(&self) -> ConfigView {
        self.config@
    }

    /// The held configuration keeps its mappings' keys unique.
    pub closed spec fn wf(&self) -> bool {
        self.config.wf()
    }

    /// A store starting from the configuration loaded at startup.
    pub fn new(config: Config) -> (r: ConfigStore)
        ensures
            r.spec_current() == config@,
            r.wf() == config.wf(),
    {
        ConfigStore { config }
    }

    /// A snapshot of the current configuration: an owned copy, read-locked
    /// only while it is taken, unaffected by later replacements.
    pub fn current(&self) -> (r: Config)
        ensures
            r@ == self.spec_current(),
            r.wf() == self.wf(),
    {
        self.config.duplicate()
    }

    /// Atomically replaces the whole configuration. Snapshots taken earlier
    /// are owned copies and keep their pre-replacement contents.
    pub fn replace(&mut self, new_config: Config)
        ensures
            final(self).spec_current() == new_config@,
            final(self).wf() == new_config.wf(),
    {
        self.config = new_config;
    }

    /// The reload step behind the configuration watcher: a successfully
    /// loaded configuration replaces the held one; a failed reload leaves the
    /// prior configuration in effect.
    pub fn apply_reload(&mut self, loaded: Option<Config>) -> (replaced: bool)
        ensures
            match loaded {
                Some(new_config) => replaced && final(self).spec_current() == new_config@
                    && final(self).wf() == new_config.wf(),
                None => !replaced && final(self).spec_current() == old(self).spec_current()
                    && final(self).wf() == old(self).wf(),
            },
    {
        match loaded {
            Some(new_config) => {
                self.replace(new_config);
                true
            },
            None => false,
        }
    }
}
} // verus!
