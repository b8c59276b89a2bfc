use vstd::prelude::*;

use crate::width::NonZeroTypeU;

verus! {

/// The externally visible result shape of a table: the kind and width of
/// value it yields when another table's rule references it as an operand.
///
/// Callers reference a table by name before any specific constructor is
/// chosen, so a table built from several alternatives must expose one
/// consistent descriptor; [`ExecutionExport::combine`] unifies them.
#[derive(Clone, Copy, Debug, PartialEq, Eq)]
pub enum ExecutionExport {
    /// No produced value: a pure control table.
    NoReturn,
    /// A value already known at elaboration time.
    Const(NonZeroTypeU),
    /// A value known only at decode/execution time.
    Value(NonZeroTypeU),
    /// An address- or register-like location, not a value.
    Reference(NonZeroTypeU),
    /// The constructors disagree on the kind but agree on the width.
    Multiple(NonZeroTypeU),
}

impl ExecutionExport {
    /// Width of the produced value, if the table produces one at all.
    pub open spec fn spec_len(self) -> Option<NonZeroTypeU> {
        match self {
            ExecutionExport::NoReturn => None,
            ExecutionExport::Const(len) => Some(len),
            ExecutionExport::Value(len) => Some(len),
            ExecutionExport::Reference(len) => Some(len),
            ExecutionExport::Multiple(len) => Some(len),
        }
    }

    pub fn len(&self) -> (r: Option<NonZeroTypeU>)
        ensures
            r == self.spec_len(),
    {
        match self {
            ExecutionExport::NoReturn => None,
            ExecutionExport::Const(len)
            | ExecutionExport::Value(len)
            | ExecutionExport::Reference(len)
            | ExecutionExport::Multiple(len) => Some(*len),
        }
    }

    /// Whether two exports are of the same kind, widths aside.
    pub open spec fn spec_same_kind(self, other: Self) -> bool {
        match (self, other) {
            (ExecutionExport::NoReturn, ExecutionExport::NoReturn) => true,
            (ExecutionExport::Const(_), ExecutionExport::Const(_)) => true,
            (ExecutionExport::Value(_), ExecutionExport::Value(_)) => true,
            (ExecutionExport::Reference(_), ExecutionExport::Reference(_)) => true,
            (ExecutionExport::Multiple(_), ExecutionExport::Multiple(_)) => true,
            _ => false,
        }
    }

    pub fn same_kind(&self, other: &Self) -> (r: bool)
        ensures
            r == self.spec_same_kind(*other),
    {
        match (self, other) {
            (ExecutionExport::NoReturn, ExecutionExport::NoReturn) => true,
            (ExecutionExport::Const(_), ExecutionExport::Const(_)) => true,
            (ExecutionExport::Value(_), ExecutionExport::Value(_)) => true,
            (ExecutionExport::Reference(_), ExecutionExport::Reference(_)) => true,
            (ExecutionExport::Multiple(_), ExecutionExport::Multiple(_)) => true,
            _ => false,
        }
    }

    /// Unification of an established export with one more constructor's
    /// export. Same kind and width: unchanged. Different kind, same width:
    /// promoted to [`ExecutionExport::Multiple`], since callers then only need
    /// the width. Different widths fail: a table cannot present two widths to
    /// callers that do not know which constructor matched. A missing export
    /// against an established one fails the same way, in either direction: no
    /// common width exists.
    pub open spec fn spec_combine(self, new: Self) -> Option<Self> {
        match (self.spec_len(), new.spec_len()) {
            (None, None) => Some(self),
            (Some(w1), Some(w2)) => if w1 != w2 {
                None
            } else if self.spec_same_kind(new) {
                Some(self)
            } else {
                Some(ExecutionExport::Multiple(w1))
            },
            _ => None,
        }
    }

    pub fn combine(&self, new: &Self) -> (r: Option<Self>)
        ensures
            r == self.spec_combine(*new),
    {
        match (self.len(), new.len()) {
            (None, None) => Some(*self),
            (Some(w1), Some(w2)) => {
                proof {
                    NonZeroTypeU::lemma_get_injective(w1, w2);
                }
                if w1.get() != w2.get() {
                    None
                } else if self.same_kind(new) {
                    Some(*self)
                } else {
                    Some(ExecutionExport::Multiple(w1))
                }
            },
            _ => None,
        }
    }
}

impl Default for ExecutionExport {
    /// A fresh table exports nothing.
    fn default() -> (r: Self)
        ensures
            r == ExecutionExport::NoReturn,
    {
        ExecutionExport::NoReturn
    }
}

/// The export a whole table presents, determined by the exports of its
/// constructors folded in registration order: the first constructor's export
/// is taken verbatim, each later one is unified in; an empty table exports
/// nothing.
pub open spec fn spec_fold_exports(exports: Seq<ExecutionExport>) -> Option<ExecutionExport>
    decreases exports.len(),
{
    if exports.len() == 0 {
        Some(ExecutionExport::NoReturn)
    } else if exports.len() == 1 {
        Some(exports[0])
    } else {
        match spec_fold_exports(exports.drop_last()) {
            Some(cur) => cur.spec_combine(exports.last()),
            None => None,
        }
    }
}

/// One more export folds in at the end: verbatim into an empty sequence,
/// by unification otherwise.
pub proof fn lemma_fold_push(exports: Seq<ExecutionExport>, new: ExecutionExport)
    ensures
        spec_fold_exports(exports.push(new)) == (if exports.len() == 0 {
            Some(new)
        } else {
            match spec_fold_exports(exports) {
                Some(cur) => cur.spec_combine(new),
                None => None::<ExecutionExport>,
            }
        }),
{
    let p = exports.push(new);
    assert(p.drop_last() =~= exports);
    assert(p.last() == new);
    if exports.len() == 0 {
        assert(p[0] == new);
    }
}

/// Unifying two established exports does not depend on their order.
pub proof fn lemma_combine_commutes(a: ExecutionExport, b: ExecutionExport)
    ensures
        a.spec_combine(b) == b.spec_combine(a),
{
}

/// Same width but different kind promotes the export to
/// [`ExecutionExport::Multiple`] of that width.
pub proof fn lemma_same_width_promotes(cur: ExecutionExport, new: ExecutionExport, w: NonZeroTypeU)
    requires
        cur.spec_len() == Some(w),
        new.spec_len() == Some(w),
        !cur.spec_same_kind(new),
    ensures
        cur.spec_combine(new) == Some(ExecutionExport::Multiple(w)),
{
}

/// Same kind and same width leave the established export unchanged.
pub proof fn lemma_same_shape_keeps(cur: ExecutionExport, new: ExecutionExport, w: NonZeroTypeU)
    requires
        cur.spec_len() == Some(w),
        new.spec_len() == Some(w),
        cur.spec_same_kind(new),
    ensures
        cur.spec_combine(new) == Some(cur),
{
}

/// Two different widths never unify, whatever the kinds.
pub proof fn lemma_width_mismatch_fails(
    cur: ExecutionExport,
    new: ExecutionExport,
    w1: NonZeroTypeU,
    w2: NonZeroTypeU,
)
    requires
        cur.spec_len() == Some(w1),
        new.spec_len() == Some(w2),
        w1 != w2,
    ensures
        cur.spec_combine(new) is None,
{
}

/// A missing export never unifies with an established present one, in either
/// direction: unification fails closed, as a width mismatch does.
pub proof fn lemma_mixed_presence_fails(cur: ExecutionExport, new: ExecutionExport)
    requires
        (cur.spec_len() is None) != (new.spec_len() is None),
    ensures
        cur.spec_combine(new) is None,
{
}

/// A sequence of export-less constructors folds to no export: a table whose
/// every constructor exports nothing ends exporting nothing.
pub proof fn lemma_all_none_folds_none(exports: Seq<ExecutionExport>)
    requires
        forall|i: int| 0 <= i < exports.len() ==> exports[i] == ExecutionExport::NoReturn,
    ensures
        spec_fold_exports(exports) == Some(ExecutionExport::NoReturn),
    decreases exports.len(),
{
    if exports.len() == 0 {
    } else if exports.len() == 1 {
        assert(exports[0] == ExecutionExport::NoReturn);
    } else {
        assert(forall|i: int|
            0 <= i < exports.drop_last().len() ==> exports.drop_last()[i]
                == ExecutionExport::NoReturn);
        lemma_all_none_folds_none(exports.drop_last());
        assert(exports.last() == ExecutionExport::NoReturn);
    }
}

} // verus!
