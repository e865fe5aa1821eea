//! How a component is found and what it imports.
use std::collections::BTreeMap;

use vstd::prelude::*;

verus! {

/// What an import of a component is satisfied by.
#[derive(Clone, Debug, PartialEq, Eq)]
pub enum Import {
    /// The exports of another workload.
    Workload { target: String },
    /// The exports of a plugin.
    Plugin { target: String },
}

/// A component: where its code comes from, and its imports by name.
pub struct Config<T> {
    pub src: T,
    pub imports: BTreeMap<String, Import>,
}

impl<T> Config<T> {
    /// Splits off the source, keeping the imports.
    pub fn take_src(self) -> (r: (T, Config<()>))
        ensures
            r.0 == self.src,
            r.1.imports == self.imports,
    {
        let Config { src, imports } = self;
        (src, Config { src: (), imports })
    }

    /// Replaces the source by what `f` makes of it, keeping the imports.
    pub fn map_src<U, F: FnOnce(T) -> U>(self, f: F) -> (r: Config<U>)
        requires
            call_requires(f, (self.src,)),
        ensures
            call_ensures(f, (self.src,), r.src),
            r.imports == self.imports,
    {
        let Config { src, imports } = self;
        let src = f(src);
        Config { src, imports }
    }
}

} // verus!
