//! Resource-path resolution. The loader is explicit configuration: it is
//! handed the root directory at construction (resolving a root from the
//! process environment is the caller's concern), and it derives the file name
//! of a named resource in a category from it.

use vstd::prelude::*;
use vstd::string::*;

verus! {

/// Derives resource file names from a fixed root directory.
pub struct ResourceLoader {
    root: String,
}

impl ResourceLoader {
    /// The root directory this loader was built with.
    pub closed spec fn spec_root(&self) -> Seq<char> {
        self.root@
    }

    /// A loader rooted at the given directory.
    pub fn new_with_path(path: String) -> (r: ResourceLoader)
        ensures
            r.spec_root() == path@,
    {
        ResourceLoader { root: path }
    }

    /// The file name of resource `name` in directory `category` under the
    /// root: `root/category/name`.
    pub fn get_filename(&self, category: &str, name: &str) -> (r: String)
        ensures
            r@ == self.spec_root() + "/"@ + category@ + "/"@ + name@,
    {
        let mut r = self.root.clone();
        r.append("/");
        r.append(category);
        r.append("/");
        r.append(name);
        r
    }
}

} // verus!
