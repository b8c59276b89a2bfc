use vstd::prelude::*;

verus! {

/// Provenance of one syntax element in the specification text.
///
/// Carried on every raw node and attached to every diagnostic; it has no
/// semantic weight of its own, is cheap to copy and immutable.
#[derive(Clone, Copy, Debug, PartialEq, Eq)]
pub struct InputSource {
    /// Line of the element within its specification fragment.
    pub line: u64,
    /// Column of the element within that line.
    pub column: u64,
}

} // verus!
