//! Fatal compile errors. Unresolvable references and unresolvable lengths
//! degrade locally and never surface here; only a unit-support gap or a
//! reference chain deeper than the recursion bound aborts a compile.

use vstd::prelude::*;

verus! {

#[derive(Clone, Copy, Debug, PartialEq, Eq, Structural)]
pub enum Error {
    /// A font-relative or legacy typographic unit that this compiler
    /// deliberately does not support.
    UnsupportedUnit,
    /// A `use` or clip-path reference chain exceeded the recursion bound,
    /// which only an id cycle can cause.
    RecursionLimit,
}

} // verus!
