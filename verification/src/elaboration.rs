use vstd::prelude::*;

use crate::export::ExecutionExport;
use crate::source::InputSource;

verus! {

/// Structured diagnostic of the pattern subsystem, embedded verbatim in a
/// table error so callers can branch on the root cause.
#[derive(Clone, Copy, Debug, PartialEq, Eq)]
pub struct PatternError {
    /// Position of the offending pattern element, as the subsystem reported it.
    pub src: InputSource,
}

/// Structured diagnostic of the display subsystem. Display elaboration cannot
/// fail at this layer; such an error is produced upstream and only carried
/// through.
#[derive(Clone, Copy, Debug, PartialEq, Eq)]
pub struct DisplayError {
    /// Position of the offending display element, as the subsystem reported it.
    pub src: InputSource,
}

/// Structured diagnostic of the context-update subsystem. Disassembly
/// elaboration cannot fail at this layer; such an error is produced upstream
/// and only carried through.
#[derive(Clone, Copy, Debug, PartialEq, Eq)]
pub struct DisassemblyError {
    /// Position of the offending action, as the subsystem reported it.
    pub src: InputSource,
}

/// Structured diagnostic of the operational-semantics subsystem. Execution
/// elaboration cannot fail at this layer; such an error is produced upstream
/// and only carried through.
#[derive(Clone, Copy, Debug, PartialEq, Eq)]
pub struct ExecutionError {
    /// Position of the offending semantics element, as the subsystem reported it.
    pub src: InputSource,
}

/// An elaborated bit-level match condition. Its internal structure belongs to
/// the pattern subsystem; this layer carries it as an opaque artifact.
#[derive(Clone, Copy, Debug, PartialEq, Eq)]
pub struct Pattern {
    /// Handle of the elaborated artifact within the pattern subsystem.
    pub artifact: u64,
}

/// An elaborated rendering template. Its internal structure belongs to the
/// display subsystem; this layer carries it as an opaque artifact.
#[derive(Clone, Copy, Debug, PartialEq, Eq)]
pub struct Display {
    /// Handle of the elaborated artifact within the display subsystem.
    pub artifact: u64,
}

/// An elaborated set of decoding-context updates. Its internal structure
/// belongs to the context-update subsystem; this layer carries it as an
/// opaque artifact.
#[derive(Clone, Copy, Debug, PartialEq, Eq)]
pub struct Disassembly {
    /// Handle of the elaborated artifact within the context-update subsystem.
    pub artifact: u64,
}

/// Elaborated operational semantics of one rule. This layer reads nothing of
/// it but its export: the kind and width of value the rule produces.
#[derive(Clone, Copy, Debug, PartialEq, Eq)]
pub struct Execution {
    /// Handle of the elaborated artifact within the semantics subsystem.
    pub artifact: u64,
    /// The result shape the semantics produce.
    pub export: ExecutionExport,
}

/// A raw bit-pattern node together with the pattern subsystem's verdict on
/// it. Pattern elaboration is the one fallible step of rule elaboration at
/// this layer; the subsystem decides it, this layer consumes the outcome.
#[derive(Clone, Copy, Debug, PartialEq, Eq)]
pub enum RawPattern {
    /// The subsystem elaborates the node to this artifact.
    Wellformed { pattern: Pattern },
    /// The subsystem rejects the node with this diagnostic.
    Malformed { error: PatternError },
}

impl RawPattern {
    /// Outcome of the pattern subsystem for this node.
    pub open spec fn spec_elaborate(self) -> Result<Pattern, PatternError> {
        match self {
            RawPattern::Wellformed { pattern } => Ok(pattern),
            RawPattern::Malformed { error } => Err(error),
        }
    }

    /// Entry point of the pattern subsystem: the elaborated pattern, or the
    /// subsystem's own error.
    pub fn elaborate(self) -> (r: Result<Pattern, PatternError>)
        ensures
            r == self.spec_elaborate(),
    {
        match self {
            RawPattern::Wellformed { pattern } => Ok(pattern),
            RawPattern::Malformed { error } => Err(error),
        }
    }
}

/// A raw display-template node. Display elaboration is infallible at this
/// layer.
#[derive(Clone, Copy, Debug, PartialEq, Eq)]
pub struct RawDisplay {
    /// Handle of the raw node within the display subsystem.
    pub artifact: u64,
}

impl RawDisplay {
    pub open spec fn spec_elaborate(self) -> Display {
        Display { artifact: self.artifact }
    }

    /// Entry point of the display subsystem; infallible at this layer.
    pub fn elaborate(self) -> (r: Display)
        ensures
            r == self.spec_elaborate(),
    {
        Display { artifact: self.artifact }
    }
}

/// A raw set of context-update actions. Disassembly elaboration is infallible
/// at this layer.
#[derive(Clone, Copy, Debug, PartialEq, Eq)]
pub struct RawDisassembly {
    /// Handle of the raw actions within the context-update subsystem.
    pub artifact: u64,
}

impl RawDisassembly {
    pub open spec fn spec_elaborate(self) -> Disassembly {
        Disassembly { artifact: self.artifact }
    }

    /// Entry point of the context-update subsystem; infallible at this layer.
    pub fn elaborate(self) -> (r: Disassembly)
        ensures
            r == self.spec_elaborate(),
    {
        Disassembly { artifact: self.artifact }
    }
}

/// A raw operational-semantics node. Execution elaboration is infallible at
/// this layer; this layer reads only the export it declares.
#[derive(Clone, Copy, Debug, PartialEq, Eq)]
pub struct RawExecution {
    /// Handle of the raw semantics within the semantics subsystem.
    pub artifact: u64,
    /// The result shape the semantics declare.
    pub export: ExecutionExport,
}

impl RawExecution {
    pub open spec fn spec_elaborate(self) -> Execution {
        Execution { artifact: self.artifact, export: self.export }
    }

    /// Entry point of the operational-semantics subsystem; infallible at this
    /// layer.
    pub fn elaborate(self) -> (r: Execution)
        ensures
            r == self.spec_elaborate(),
    {
        Execution { artifact: self.artifact, export: self.export }
    }
}

/// One raw decode alternative as the front end hands it over, with its
/// provenance. Declared semantics are optional: a rule without them is a pure
/// structural or selector rule.
#[derive(Clone, Copy, Debug, PartialEq, Eq)]
pub struct RawConstructor {
    pub pattern: RawPattern,
    pub display: RawDisplay,
    pub disassembly: RawDisassembly,
    pub execution: Option<RawExecution>,
    /// Position of the whole alternative in the specification text.
    pub src: InputSource,
}

} // verus!
