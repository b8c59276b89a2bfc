use vstd::prelude::*;

verus! {

/// A strictly positive operand width.
///
/// Widths are compared wherever the result shapes of two constructors must
/// agree; two exports have the same shape only if both kind and width match.
#[derive(Clone, Copy, Debug, PartialEq, Eq)]
pub struct NonZeroTypeU {
    val: u64,
}

impl NonZeroTypeU {
    /// The width as a plain integer; always at least one.
    pub closed spec fn spec_get(self) -> u64 {
        self.val
    }

    #[verifier::type_invariant]
    spec fn inv(self) -> bool {
        self.val >= 1
    }

    /// Widths are nothing but their integer value: equal values, same width.
    pub proof fn lemma_get_injective(a: Self, b: Self)
        ensures
            (a == b) <==> (a.spec_get() == b.spec_get()),
    {
    }

    /// A width from a plain integer; zero is no width.
    pub fn new(val: u64) -> (r: Option<Self>)
        ensures
            match r {
                Some(w) => val >= 1 && w.spec_get() == val,
                None => val == 0,
            },
    {
        if val >= 1 {
            Some(NonZeroTypeU { val })
        } else {
            None
        }
    }

    pub fn get(self) -> (r: u64)
        ensures
            r == self.spec_get(),
            r >= 1,
    {
        proof {
            use_type_invariant(self);
        }
        self.val
    }
}

} // verus!
