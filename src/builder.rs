//! The caller-side part of a builder of WAF instances.
use vstd::prelude::*;
use vstd::string::StringSliceAdditionalSpecFns;

use crate::config::{Config, Limits, Obfuscator};

verus! {

/// The caller-side state of a builder of WAF instances.
///
/// A builder maintains a live view over configuration fragments, each identified by a path.
/// It keeps its own copy of the [`Config`] it was created with, so that the obfuscation
/// settings the engine refers to live as long as the builder does.
pub struct Builder {
    config: Config,
}

impl Builder {
    /// Creates the state of a builder for the provided configuration.
    pub fn new(config: &Config) -> (r: Self)
        ensures
            r.config_spec().limits_spec() == config.limits_spec(),
            r.config_spec().obfuscator_spec().key_regex_spec() == config.obfuscator_spec().key_regex_spec(),
            r.config_spec().obfuscator_spec().value_regex_spec() == config.obfuscator_spec().value_regex_spec(),
    {
        let limits: Limits = config.limits();
        let obfuscator: Obfuscator = config.obfuscator().copy();
        Builder { config: Config::new(limits, obfuscator) }
    }

    /// The configuration this builder was created with.
    pub closed spec fn config_spec(&self) -> Config {
        self.config
    }

    /// Returns the configuration this builder was created with.
    pub fn config(&self) -> (r: &Config)
        ensures
            *r == self.config_spec(),
    {
        &self.config
    }

    /// Returns the length field the engine receives for a configuration path, or `None` for an
    /// empty path: the engine refuses it in every case, so adding or updating configuration
    /// under it fails without the engine being asked.
    pub fn config_path_length(path: &str) -> (r: Option<u32>)
        requires
            path.spec_bytes().len() <= u32::MAX,
        ensures
            r is None <==> path.spec_bytes().len() == 0,
            r is Some ==> r->0 == path.spec_bytes().len(),
    {
        let len = path.as_bytes().len();
        if len == 0 {
            None
        } else {
            Some(len as u32)
        }
    }

    /// Returns the length field the engine receives for a path when removing configuration.
    pub fn removal_path_length(path: &str) -> (r: u32)
        requires
            path.spec_bytes().len() <= u32::MAX,
        ensures
            r == path.spec_bytes().len(),
    {
        path.as_bytes().len() as u32
    }

    /// Returns the length field the engine receives for an optional filter on configuration
    /// paths; no filter is the empty filter.
    pub fn filter_length(filter: Option<&str>) -> (r: u32)
        requires
            filter matches Some(f) ==> f.spec_bytes().len() <= u32::MAX,
        ensures
            r == (match filter {
                Some(f) => f.spec_bytes().len(),
                None => 0,
            }),
    {
        match filter {
            Some(f) => f.as_bytes().len() as u32,
            None => 0,
        }
    }
}

} // verus!
