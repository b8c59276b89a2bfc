use vstd::prelude::*;

use crate::elaboration::Disassembly;
use crate::elaboration::DisassemblyError;
use crate::elaboration::Display;
use crate::elaboration::DisplayError;
use crate::elaboration::Execution;
use crate::elaboration::ExecutionError;
use crate::elaboration::Pattern;
use crate::elaboration::PatternError;
use crate::elaboration::RawConstructor;
use crate::export::lemma_fold_push;
use crate::export::spec_fold_exports;
use crate::export::ExecutionExport;
use crate::source::InputSource;

verus! {

/// Failure of one constructor's registration: the source position of the
/// offending constructor together with the structured cause.
#[derive(Clone, Copy, Debug, PartialEq, Eq)]
pub struct TableError {
    pub table_pos: InputSource,
    pub sub: TableErrorSub,
}

/// Cause of a registration failure. The two structural causes are detected at
/// this layer; a subsystem cause is embedded verbatim, so callers can branch
/// on the root cause instead of a flattened message.
#[derive(Clone, Copy, Debug, PartialEq, Eq)]
pub enum TableErrorSub {
    /// No constructor can be registered into a table with an invalid name.
    TableNameInvalid,
    /// The constructor's export has no common width with the export the table
    /// has established so far.
    TableConstructorExportSizeInvalid,
    Pattern(PatternError),
    Disassembly(DisassemblyError),
    Display(DisplayError),
    Execution(ExecutionError),
}

impl TableErrorSub {
    /// Attach the offending constructor's source position to a cause.
    pub fn to_table(self, table_pos: InputSource) -> (r: TableError)
        ensures
            r == (TableError { table_pos, sub: self }),
    {
        TableError { table_pos, sub: self }
    }
}

/// Adapter attaching a source position to any subsystem failure, turning it
/// into a table-level error without duplicated wrapping logic at each call
/// site.
pub trait ToTableError<X>: Sized {
    /// The wrapped result this adapter yields.
    spec fn spec_to_table(self, table_pos: InputSource) -> Result<X, TableError>;

    fn to_table(self, table_pos: InputSource) -> (r: Result<X, TableError>)
        ensures
            r == self.spec_to_table(table_pos),
    ;
}

impl<X> ToTableError<X> for Result<X, PatternError> {
    open spec fn spec_to_table(self, table_pos: InputSource) -> Result<X, TableError> {
        match self {
            Ok(x) => Ok(x),
            Err(e) => Err(TableError { table_pos, sub: TableErrorSub::Pattern(e) }),
        }
    }

    fn to_table(self, table_pos: InputSource) -> (r: Result<X, TableError>) {
        match self {
            Ok(x) => Ok(x),
            Err(e) => Err(TableErrorSub::Pattern(e).to_table(table_pos)),
        }
    }
}

impl<X> ToTableError<X> for Result<X, DisassemblyError> {
    open spec fn spec_to_table(self, table_pos: InputSource) -> Result<X, TableError> {
        match self {
            Ok(x) => Ok(x),
            Err(e) => Err(TableError { table_pos, sub: TableErrorSub::Disassembly(e) }),
        }
    }

    fn to_table(self, table_pos: InputSource) -> (r: Result<X, TableError>) {
        match self {
            Ok(x) => Ok(x),
            Err(e) => Err(TableErrorSub::Disassembly(e).to_table(table_pos)),
        }
    }
}

impl<X> ToTableError<X> for Result<X, DisplayError> {
    open spec fn spec_to_table(self, table_pos: InputSource) -> Result<X, TableError> {
        match self {
            Ok(x) => Ok(x),
            Err(e) => Err(TableError { table_pos, sub: TableErrorSub::Display(e) }),
        }
    }

    fn to_table(self, table_pos: InputSource) -> (r: Result<X, TableError>) {
        match self {
            Ok(x) => Ok(x),
            Err(e) => Err(TableErrorSub::Display(e).to_table(table_pos)),
        }
    }
}

impl<X> ToTableError<X> for Result<X, ExecutionError> {
    open spec fn spec_to_table(self, table_pos: InputSource) -> Result<X, TableError> {
        match self {
            Ok(x) => Ok(x),
            Err(e) => Err(TableError { table_pos, sub: TableErrorSub::Execution(e) }),
        }
    }

    fn to_table(self, table_pos: InputSource) -> (r: Result<X, TableError>) {
        match self {
            Ok(x) => Ok(x),
            Err(e) => Err(TableErrorSub::Execution(e).to_table(table_pos)),
        }
    }
}

/// One elaborated decode rule: its bit pattern, rendering template,
/// context-update actions, optional operational semantics (absent for a pure
/// structural or selector rule) and provenance. Immutable once built.
#[derive(Clone, Copy, Debug, PartialEq, Eq)]
pub struct Constructor {
    pub pattern: Pattern,
    pub display: Display,
    pub disassembly: Disassembly,
    pub execution: Option<Execution>,
    pub src: InputSource,
}

impl Constructor {
    /// The export this rule contributes to its table: its semantics' export
    /// when semantics are declared, and no export otherwise.
    pub open spec fn spec_export(self) -> ExecutionExport {
        match self.execution {
            Some(e) => e.export,
            None => ExecutionExport::NoReturn,
        }
    }

    pub fn export(&self) -> (r: ExecutionExport)
        ensures
            r == self.spec_export(),
    {
        match &self.execution {
            Some(e) => e.export,
            None => ExecutionExport::NoReturn,
        }
    }

    /// Outcome of elaborating one raw rule: a fully formed constructor, or
    /// the pattern subsystem's error wrapped with the rule's own position.
    pub open spec fn spec_elaborate(raw: RawConstructor) -> Result<Constructor, TableError> {
        match raw.pattern.spec_elaborate() {
            Ok(pattern) => Ok(
                Constructor {
                    pattern,
                    display: raw.display.spec_elaborate(),
                    disassembly: raw.disassembly.spec_elaborate(),
                    execution: match raw.execution {
                        Some(x) => Some(x.spec_elaborate()),
                        None => None,
                    },
                    src: raw.src,
                },
            ),
            Err(e) => Err(TableError { table_pos: raw.src, sub: TableErrorSub::Pattern(e) }),
        }
    }

    /// Elaborate one raw rule: the bit pattern first — the only fallible step
    /// at this layer, whose failure becomes the table-level error's cause —
    /// then the display template, the optional operational semantics, and the
    /// context-update actions. No partial constructor is ever exposed.
    pub fn elaborate(raw: RawConstructor) -> (r: Result<Constructor, TableError>)
        ensures
            r == Constructor::spec_elaborate(raw),
    {
        let src = raw.src;
        let pattern = match raw.pattern.elaborate().to_table(src) {
            Ok(p) => p,
            Err(e) => {
                return Err(e);
            },
        };
        let display = raw.display.elaborate();
        let execution = match raw.execution {
            Some(x) => Some(x.elaborate()),
            None => None,
        };
        let disassembly = raw.disassembly.elaborate();
        Ok(Constructor { pattern, display, disassembly, execution, src })
    }
}

/// The reserved identifier naming the whole-instruction entry-point table;
/// every other table is a sub-table reached from rule patterns.
pub open spec fn spec_root_ident() -> Seq<char> {
    "instruction"@
}

pub fn root_ident() -> (r: &'static str)
    ensures
        r@ == spec_root_ident(),
{
    "instruction"
}

/// A table name the front end may register into. The front end lexes
/// identifiers, so the only malformation visible at this layer is emptiness.
pub open spec fn spec_valid_name(name: Seq<char>) -> bool {
    name.len() > 0
}

/// A named collection of the alternative decode rules matchable inside one
/// instruction table, together with the unified export they present.
///
/// A registry outside this layer owns each table by name and hands each
/// specification fragment that reopens the name exclusive access in turn;
/// constructors accumulate in source-encounter order and nothing is deleted.
#[derive(Clone, Debug)]
pub struct Table {
    /// Shared immutable identifier of the table.
    pub name: String,
    /// The registered rules, in registration order, append-only.
    pub constructors: Vec<Constructor>,
    /// The unified export established by the constructors so far.
    pub export: ExecutionExport,
}

impl Table {
    /// Exports of the registered constructors, in registration order.
    pub open spec fn spec_exports(self) -> Seq<ExecutionExport> {
        self.constructors@.map_values(|c: Constructor| c.spec_export())
    }

    /// The table's export is exactly the unification, in registration order,
    /// of its constructors' exports: established by [`Table::new_empty`] and
    /// preserved by every [`Table::register`].
    pub open spec fn spec_wf(self) -> bool {
        spec_fold_exports(self.spec_exports()) == Some(self.export)
    }

    /// The unification step one more constructor export goes through: the
    /// first export ever observed is taken verbatim; later ones are unified
    /// with the established export.
    pub open spec fn spec_unify(self, new: ExecutionExport) -> Option<ExecutionExport> {
        if self.constructors@.len() == 0 {
            Some(new)
        } else {
            self.export.spec_combine(new)
        }
    }

    /// An empty table under the given name, exporting nothing; never fails.
    pub fn new_empty(name: String) -> (r: Self)
        ensures
            r.name == name,
            r.constructors@ == Seq::<Constructor>::empty(),
            r.export == ExecutionExport::NoReturn,
            r.spec_wf(),
    {
        let r = Table { name, constructors: Vec::new(), export: ExecutionExport::NoReturn };
        proof {
            assert(r.constructors@ =~= Seq::<Constructor>::empty());
            assert(r.spec_exports() =~= Seq::<ExecutionExport>::empty());
        }
        r
    }

    /// Whether this is the whole-instruction entry-point table.
    pub fn is_root(&self) -> (r: bool)
        ensures
            r == (self.name@ == spec_root_ident()),
    {
        let root: String = root_ident().to_owned();
        self.name == root
    }

    /// Register one raw decode alternative: check the table name, elaborate
    /// the rule, unify its export into the table's, append. All-or-nothing:
    /// on any failure neither the constructor sequence nor the export
    /// changes, and the error carries the offending constructor's position.
    pub fn register(&mut self, raw: RawConstructor) -> (r: Result<(), TableError>)
        requires
            old(self).spec_wf(),
        ensures
            final(self).spec_wf(),
            final(self).name == old(self).name,
            match r {
                Ok(_) => {
                    &&& spec_valid_name(old(self).name@)
                    &&& Constructor::spec_elaborate(raw) matches Ok(c)
                        && final(self).constructors@ == old(self).constructors@.push(c)
                        && old(self).spec_unify(c.spec_export()) == Some(final(self).export)
                },
                Err(e) => {
                    &&& final(self).constructors@ == old(self).constructors@
                    &&& final(self).export == old(self).export
                    &&& e.table_pos == raw.src
                    &&& match e.sub {
                        TableErrorSub::TableNameInvalid => !spec_valid_name(old(self).name@),
                        TableErrorSub::Pattern(pe) => spec_valid_name(old(self).name@)
                            && raw.pattern.spec_elaborate() == Err::<Pattern, PatternError>(pe),
                        TableErrorSub::TableConstructorExportSizeInvalid => spec_valid_name(
                            old(self).name@,
                        ) && (Constructor::spec_elaborate(raw) matches Ok(c)
                            && old(self).spec_unify(c.spec_export()) is None),
                        _ => false,
                    }
                },
            },
    {
        if self.name.as_str().is_empty() {
            return Err(TableErrorSub::TableNameInvalid.to_table(raw.src));
        }
        let ctor = match Constructor::elaborate(raw) {
            Ok(c) => c,
            Err(e) => {
                return Err(e);
            },
        };
        let new_export = ctor.export();
        let unified: ExecutionExport;
        if self.constructors.len() == 0 {
            unified = new_export;
        } else {
            match self.export.combine(&new_export) {
                Some(u) => {
                    unified = u;
                },
                None => {
                    return Err(
                        TableErrorSub::TableConstructorExportSizeInvalid.to_table(raw.src),
                    );
                },
            }
        }
        proof {
            lemma_fold_push(self.spec_exports(), ctor.spec_export());
            assert(self.constructors@.push(ctor).map_values(|c: Constructor| c.spec_export())
                =~= self.spec_exports().push(ctor.spec_export()));
        }
        self.export = unified;
        self.constructors.push(ctor);
        Ok(())
    }
}

/// The export of the first constructor ever registered becomes the table's
/// export verbatim, whatever kind and width it has.
pub proof fn lemma_first_export_verbatim(t: Table, e: ExecutionExport)
    requires
        t.constructors@.len() == 0,
    ensures
        t.spec_unify(e) == Some(e),
{
}

/// A table whose every constructor exports nothing itself exports nothing.
pub proof fn lemma_all_none_table(t: Table)
    requires
        t.spec_wf(),
        forall|i: int|
            0 <= i < t.constructors@.len() ==> t.constructors@[i].spec_export()
                == ExecutionExport::NoReturn,
    ensures
        t.export == ExecutionExport::NoReturn,
{
    assert forall|i: int|
        0 <= i < t.spec_exports().len() implies t.spec_exports()[i]
        == ExecutionExport::NoReturn by {
        assert(t.spec_exports()[i] == t.constructors@[i].spec_export());
    }
    crate::export::lemma_all_none_folds_none(t.spec_exports());
}

} // verus!
