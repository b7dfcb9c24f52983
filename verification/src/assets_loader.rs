//! Asset loading support.  The verified part is the path arithmetic;
//! the host performs the actual image fetch against the computed source
//! path.

use vstd::prelude::*;
use vstd::string::StringExecFns;

verus! {

/// Resolves asset names under a base path.
pub struct AssetsLoader {
    pub base_path: String,
}

impl AssetsLoader {
    /// A loader that resolves names under `base_path`.
    pub fn new(base_path: &str) -> (r: AssetsLoader)
        ensures
            r.base_path@ == base_path@,
    {
        AssetsLoader { base_path: base_path.to_owned() }
    }

    /// The full source path of a named asset: the base path followed by
    /// the name.
    pub fn image_src(&self, name: &str) -> (r: String)
        ensures
            r@ == self.base_path@ + name@,
    {
        self.base_path.clone().concat(name)
    }
}

impl Default for AssetsLoader {
    /// A loader over the default assets directory.
    fn default() -> (r: AssetsLoader)
        ensures
            r.base_path@ == "/assets/"@,
    {
        AssetsLoader::new("/assets/")
    }
}

} // verus!
