//! Semantic-elaboration core for the table layer of an instruction-set
//! description compiler.
//!
//! A front end parses specification text into raw syntax nodes; this crate
//! promotes each raw decode alternative (a "constructor") into a validated
//! semantic rule and registers it into its owning [`table::Table`]. A table
//! unifies the exports of all its constructors into one externally visible
//! [`export::ExecutionExport`] descriptor: the kind and width of value the
//! table yields when another table's rule references it as an operand.
//!
//! The four elaboration subsystems (bit patterns, display templates,
//! context-update actions, operational semantics) are collaborators outside
//! this layer; [`elaboration`] carries their artifacts and verdicts. Error
//! wrapping attaches a source position to any failure while preserving the
//! structured cause ([`table::TableError`]).

pub mod elaboration;
pub mod export;
pub mod source;
pub mod table;
pub mod width;

pub use crate::elaboration::Disassembly;
pub use crate::elaboration::DisassemblyError;
pub use crate::elaboration::Display;
pub use crate::elaboration::DisplayError;
pub use crate::elaboration::Execution;
pub use crate::elaboration::ExecutionError;
pub use crate::elaboration::Pattern;
pub use crate::elaboration::PatternError;
pub use crate::elaboration::RawConstructor;
pub use crate::elaboration::RawDisassembly;
pub use crate::elaboration::RawDisplay;
pub use crate::elaboration::RawExecution;
pub use crate::elaboration::RawPattern;
pub use crate::export::ExecutionExport;
pub use crate::source::InputSource;
pub use crate::table::Constructor;
pub use crate::table::Table;
pub use crate::table::TableError;
pub use crate::table::TableErrorSub;
pub use crate::table::ToTableError;
pub use crate::width::NonZeroTypeU;
