//! The base path used for everything a node writes on disk.
//!
//! Paths are held as plain strings; components are joined with `/`
//! separators. Creating a temporary base directory, and deriving one
//! from the platform's project directories, is filesystem work that
//! the caller performs; it hands the resulting path to [`BasePath::new`].

use vstd::prelude::*;
use vstd::string::*;

verus! {

/// The base path that is used for everything that needs to be written
/// on disk to run a node.
pub struct BasePath {
    path: String,
}

impl BasePath {
    /// The path, as characters.
    pub closed spec fn spec_path(&self) -> Seq<char> {
        self.path@
    }

    /// Create a `BasePath` instance based on an existing path on disk.
    ///
    /// Note: this function will not ensure that the directory exists
    /// nor create the directory. It will also not delete the directory
    /// when the instance is dropped.
    pub fn new(path: String) -> (r: BasePath)
        ensures
            r.spec_path() == path@,
    {
        BasePath { path }
    }

    /// Retrieve the base path.
    pub fn path(&self) -> (r: &String)
        ensures
            r@ == self.spec_path(),
    {
        &self.path
    }

    /// Returns the configuration directory inside this base path.
    ///
    /// The path looks like `$base_path/chains/$chain_id`.
    pub fn config_dir(&self, chain_id: &str) -> (r: String)
        ensures
            r@ == self.spec_path() + "/chains/"@ + chain_id@,
    {
        String::from_str(self.path.as_str()).concat("/chains/").concat(chain_id)
    }
}

} // verus!
