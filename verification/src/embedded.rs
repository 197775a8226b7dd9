//! Resources baked into the binary instead of read from disk.
//!
//! An application may embed its shader sources and resource files; the trait
//! is what such an application implements, and `NoEmbedded` is the empty
//! implementation for applications that read everything from disk.

use vstd::prelude::*;

verus! {

/// Access to resources baked into the binary, keyed by file name.
pub trait EmbeddedResources {
    /// Indicates whether there are embedded resources or not.
    fn use_me(&self) -> bool;

    /// Accessor for the embedded resources.
    fn resources(&self) -> &Vec<(String, String)>;
}

/// The empty implementation, for applications that do not embed resources.
pub struct NoEmbedded {
    /// Always false: nothing is embedded.
    pub use_me: bool,
    /// Always empty.
    pub resources: Vec<(String, String)>,
}

impl NoEmbedded {
    /// An empty embedded-resources table.
    pub fn new() -> (r: NoEmbedded)
        ensures
            !r.use_me,
            r.resources@.len() == 0,
    {
        NoEmbedded { use_me: false, resources: Vec::new() }
    }
}

impl EmbeddedResources for NoEmbedded {
    fn use_me(&self) -> bool {
        self.use_me
    }

    fn resources(&self) -> &Vec<(String, String)> {
        &self.resources
    }
}

/// The embedded text stored under a file name: the first entry with that
/// name, or nothing.
pub fn lookup_resource<'a>(resources: &'a Vec<(String, String)>, filename: &str) -> (r: Option<
    &'a String,
>)
    ensures
        match r {
            Some(text) => exists|i: int|
                0 <= i < resources@.len() && #[trigger] resources@[i].0@ == filename@ && text@
                    == resources@[i].1@,
            None => forall|i: int|
                0 <= i < resources@.len() ==> #[trigger] resources@[i].0@ != filename@,
        },
{
    let key: String = filename.to_owned();
    let n = resources.len();
    let mut i: usize = 0;
    while i < n
        invariant
            i <= n,
            n == resources@.len(),
            key@ == filename@,
            forall|t: int| 0 <= t < i ==> #[trigger] resources@[t].0@ != filename@,
        decreases n - i,
    {
        if resources[i].0 == key {
            return Some(&resources[i].1);
        }
        i = i + 1;
    }
    None
}

} // verus!
