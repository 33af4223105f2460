//! Shared command-line parameters and the base-path choice they imply.

use vstd::prelude::*;

use crate::base_path::BasePath;

verus! {

/// Where the node's base path comes from, as decided by the shared
/// parameters. Creating a temporary directory is filesystem work that
/// the caller performs when it sees [`BasePathSource::Temporary`].
pub enum BasePathSource {
    /// An explicitly given base path.
    Explicit(BasePath),
    /// No path was given and the development chain was chosen: a
    /// temporary directory is to be created and used.
    Temporary,
    /// No path was given: the platform's default project directory is
    /// to be used.
    Unset,
}

/// Shared parameters used by all commands.
pub struct SharedParams {
    /// Specify the development chain.
    pub dev: bool,
    /// Specify custom base path.
    pub base_path: Option<String>,
    /// Custom logging filters, each of the form `<target>=<level>`.
    pub log: Vec<String>,
    /// Enable detailed log output.
    pub detailed_log_output: bool,
    /// Disable log color output.
    pub disable_log_color: bool,
}

impl SharedParams {
    /// The base path these parameters call for: the explicitly given
    /// path when there is one; else, on the development chain, a
    /// temporary directory; else the platform default.
    pub fn base_path(&self) -> (r: BasePathSource)
        ensures
            match self.base_path {
                Some(p) => r matches BasePathSource::Explicit(b) && b.spec_path() == p@,
                None => if self.dev {
                    r matches BasePathSource::Temporary
                } else {
                    r matches BasePathSource::Unset
                },
            },
    {
        match &self.base_path {
            Some(p) => BasePathSource::Explicit(BasePath::new(p.clone())),
            None => if self.dev {
                BasePathSource::Temporary
            } else {
                BasePathSource::Unset
            },
        }
    }

    /// Specify the development chain.
    pub fn is_dev(&self) -> (r: bool)
        ensures
            r == self.dev,
    {
        self.dev
    }

    /// Get the filters for the logging.
    pub fn log_filters(&self) -> (r: &Vec<String>)
        ensures
            r@ == self.log@,
    {
        &self.log
    }

    /// Should the detailed log output be enabled.
    pub fn detailed_log_output(&self) -> (r: bool)
        ensures
            r == self.detailed_log_output,
    {
        self.detailed_log_output
    }

    /// Should the log color output be disabled?
    pub fn disable_log_color(&self) -> (r: bool)
        ensures
            r == self.disable_log_color,
    {
        self.disable_log_color
    }
}

} // verus!
