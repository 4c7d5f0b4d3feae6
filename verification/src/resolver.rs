//! Resolution of benchmark-relative fixture identifiers to absolute
//! resource locations under one fixed root directory.

use vstd::prelude::*;

verus! {

/// Maps a benchmark-relative identifier to an absolute resource location.
///
/// Every fixture lives under `<root>/benches/resources/`; the resolver
/// owns the fixed root (without a trailing separator) and concatenates,
/// performing no I/O and never failing. Malformed paths are detected
/// later, by whatever opens the resolved location.
pub struct ResourceResolver {
    /// The fixed root directory, without a trailing separator.
    pub root: String,
}

/// The fixed subdirectory, below the root, that holds every fixture.
pub open spec fn resources_prefix() -> Seq<char> {
    "/benches/resources/"@
}

/// The location a relative fixture identifier resolves to: the fixed
/// root, then the fixture subdirectory, then the identifier.
pub open spec fn resolved_path(root: Seq<char>, relative: Seq<char>) -> Seq<char> {
    root + resources_prefix() + relative
}

impl ResourceResolver {
    /// Creates a resolver for the given root directory, which should
    /// carry no trailing separator.
    pub fn new(root: String) -> (r: ResourceResolver)
        ensures
            r.root@ == root@,
    {
        ResourceResolver { root }
    }

    /// Concatenates the fixed root, the fixture subdirectory and the
    /// caller-supplied relative identifier.
    pub fn resolve(&self, relative: &str) -> (r: String)
        ensures
            r@ == resolved_path(self.root@, relative@),
    {
        let base: String = self.root.clone();
        let with_prefix: String = base.concat("/benches/resources/");
        with_prefix.concat(relative)
    }
}

} // verus!
