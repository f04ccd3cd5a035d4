//! How an index describes itself.

use crate::package::resolution::IndexRes;
use crate::util::text::{join, join_path};
use vstd::prelude::*;

verus! {

/// The configuration that an index carries.
#[derive(Debug)]
pub struct IndexConfig {
    secure: bool,
    dependencies: Vec<IndexRes>,
}

/// An `IndexConfig` as plain values.
pub struct IndexConfigView {
    /// Whether the index declares itself secure.
    pub secure: bool,
    /// The indices that this index depends on, in their order.
    pub dependencies: Seq<Seq<char>>,
}

impl View for IndexConfig {
    type V = IndexConfigView;

    closed spec fn view(&self) -> IndexConfigView {
        IndexConfigView {
            secure: self.secure,
            dependencies: self.dependencies@.map_values(|d: IndexRes| d@),
        }
    }
}

/// The name of the file that holds the configuration of an index.
pub open spec fn config_file_name() -> Seq<char> {
    "index.toml"@
}

impl IndexConfig {
    /// The path of the configuration of the index in the directory `dir`.
    pub fn path(dir: &str) -> (r: String)
        ensures
            r@ == join(dir@, config_file_name()),
    {
        join_path(dir, "index.toml")
    }

    pub fn new(secure: bool, dependencies: Vec<IndexRes>) -> (r: IndexConfig)
        ensures
            r@ == (IndexConfigView {
                secure,
                dependencies: dependencies@.map_values(|d: IndexRes| d@),
            }),
    {
        IndexConfig { secure, dependencies }
    }

    pub fn secure(&self) -> (r: bool)
        ensures
            r == self@.secure,
    {
        self.secure
    }

    pub fn dependencies(&self) -> (r: &[IndexRes])
        ensures
            r@.map_values(|d: IndexRes| d@) == self@.dependencies,
    {
        self.dependencies.as_slice()
    }
}

impl Default for IndexConfig {
    /// An index that is not secure and depends on no other.
    fn default() -> (r: IndexConfig)
        ensures
            r@ == (IndexConfigView { secure: false, dependencies: seq![] }),
    {
        let r = IndexConfig { secure: false, dependencies: Vec::new() };
        assert(r@.dependencies =~= seq![]);
        r
    }
}

} // verus!
