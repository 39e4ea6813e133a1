//! The owner of the configuration that is in force.
//!
//! A registry starts empty, is initialised once, by `init` and by nothing
//! else, and from then on always holds a configuration. Loading again
//! replaces the configuration as a whole, or leaves it as it is when the new
//! document is unusable.

use crate::error::Error;
use crate::schema::{Config, Document};
use vstd::prelude::*;

verus! {

/// What `Registry::init` has to tell its caller.
#[derive(Debug, PartialEq, Eq)]
pub struct InitReport {
    /// Why the built-in configuration was installed, if it was.
    pub problem: Option<Error>,
    /// Whether the directory of the configuration file is to be watched.
    pub watch: bool,
}

/// Holds the configuration that is in force.
#[derive(Debug)]
pub struct Registry {
    current: Option<Config>,
}

impl Registry {
    /// Whether `init` has run.
    pub closed spec fn is_initialized(&self) -> bool {
        self.current is Some
    }

    /// The configuration in force. It means something only once the
    /// registry is initialised.
    pub closed spec fn config(&self) -> Config
        recommends
            self.is_initialized(),
    {
        self.current->0
    }

    /// The configuration that `init` takes from what was found: the one of
    /// a usable document, and else the reason why there is none.
    pub open spec fn found_config(found: Option<Document>) -> Result<Config, Error> {
        match found {
            None => Err(Error::NotFound),
            Some(doc) => Config::loaded(doc),
        }
    }

    /// A registry that holds nothing yet.
    pub fn new() -> (registry: Registry)
        ensures
            !registry.is_initialized(),
    {
        Registry { current: None }
    }

    /// Whether `init` has run.
    pub fn initialized(&self) -> (b: bool)
        ensures
            b == self.is_initialized(),
    {
        self.current.is_some()
    }

    /// Installs the first configuration. `found` is `None` where no
    /// configuration file was found, and else what came of reading and
    /// parsing the one that was.
    ///
    /// A usable document is installed as it is. In every other case the
    /// built-in configuration is installed and the report says why. The
    /// file that was found is to be watched even if it was unusable.
    pub fn init(&mut self, found: Option<Document>) -> (report: InitReport)
        requires
            !old(self).is_initialized(),
        ensures
            final(self).is_initialized(),
            final(self).config().is_valid(),
            match Registry::found_config(found) {
                Ok(config) => final(self).config() == config && report.problem is None,
                Err(e) => final(self).config()@ == Config::default_view() && report.problem
                    == Some(e),
            },
            report.watch == (found is Some),
    {
        match found {
            Some(doc) => {
                match Config::load(doc) {
                    Ok(config) => {
                        self.current = Some(config);
                        InitReport { problem: None, watch: true }
                    },
                    Err(e) => {
                        self.current = Some(Config::default());
                        InitReport { problem: Some(e), watch: true }
                    },
                }
            },
            None => {
                self.current = Some(Config::default());
                InitReport { problem: Some(Error::NotFound), watch: false }
            },
        }
    }

    /// The configuration in force.
    pub fn get(&self) -> (config: &Config)
        requires
            self.is_initialized(),
        ensures
            *config == self.config(),
    {
        self.current.as_ref().unwrap()
    }

    /// The configuration in force, for a caller that adjusts it in place.
    /// What the caller leaves behind is the configuration in force from
    /// then on.
    pub fn get_mut(&mut self) -> (config: &mut Config)
        requires
            old(self).is_initialized(),
        ensures
            *config == old(self).config(),
            final(self).is_initialized(),
            final(self).config() == *final(config),
    {
        self.current.as_mut().unwrap()
    }

    /// Replaces the configuration in force by the one that `doc` holds, if
    /// it is usable. If it is not, the registry stays exactly as it was and
    /// the reason is handed back. Only `init` makes a registry hold a
    /// configuration: there is nothing to load again before it.
    pub fn try_reload(&mut self, doc: Document) -> (r: Result<(), Error>)
        requires
            old(self).is_initialized(),
        ensures
            final(self).is_initialized(),
            match Config::loaded(doc) {
                Ok(config) => r is Ok && final(self).config() == config,
                Err(e) => r == Err::<(), Error>(e) && *final(self) == *old(self),
            },
    {
        match Config::load(doc) {
            Ok(config) => {
                self.current = Some(config);
                Ok(())
            },
            Err(e) => Err(e),
        }
    }
}

} // verus!
