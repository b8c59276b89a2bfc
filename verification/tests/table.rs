use semantic_tables::ExecutionExport;
use semantic_tables::InputSource;
use semantic_tables::NonZeroTypeU;
use semantic_tables::Pattern;
use semantic_tables::PatternError;
use semantic_tables::RawConstructor;
use semantic_tables::RawDisassembly;
use semantic_tables::RawDisplay;
use semantic_tables::RawExecution;
use semantic_tables::RawPattern;
use semantic_tables::Table;
use semantic_tables::TableErrorSub;

fn width(v: u64) -> NonZeroTypeU {
    NonZeroTypeU::new(v).unwrap()
}

fn src(line: u64) -> InputSource {
    InputSource { line, column: 1 }
}

/// A raw constructor whose pattern is well-formed and whose semantics, when
/// given, declare the export.
fn raw_ok(artifact: u64, export: Option<ExecutionExport>, line: u64) -> RawConstructor {
    RawConstructor {
        pattern: RawPattern::Wellformed {
            pattern: Pattern { artifact },
        },
        display: RawDisplay { artifact },
        disassembly: RawDisassembly { artifact },
        execution: export.map(|e| RawExecution { artifact, export: e }),
        src: src(line),
    }
}

#[test]
fn new_empty_table_is_blank() {
    let t = Table::new_empty("ops".to_owned());
    assert_eq!(t.name, "ops");
    assert!(t.constructors.is_empty());
    assert_eq!(t.export, ExecutionExport::NoReturn);
    assert_eq!(t.export.len(), None);
}

#[test]
fn root_table_is_recognised_by_name() {
    let root = Table::new_empty("instruction".to_owned());
    assert!(root.is_root());
    let sub = Table::new_empty("reg8".to_owned());
    assert!(!sub.is_root());
}

#[test]
fn width_rejects_zero() {
    assert!(NonZeroTypeU::new(0).is_none());
}

#[test]
fn width_keeps_its_value() {
    assert_eq!(width(4).get(), 4);
    assert_eq!(width(1).get(), 1);
}

#[test]
fn export_len_is_the_carried_width() {
    let w = width(8);
    assert_eq!(ExecutionExport::NoReturn.len(), None);
    assert_eq!(ExecutionExport::Const(w).len(), Some(w));
    assert_eq!(ExecutionExport::Value(w).len(), Some(w));
    assert_eq!(ExecutionExport::Reference(w).len(), Some(w));
    assert_eq!(ExecutionExport::Multiple(w).len(), Some(w));
}

#[test]
fn default_export_is_no_return() {
    assert_eq!(ExecutionExport::default(), ExecutionExport::NoReturn);
}

#[test]
fn combine_keeps_same_shape() {
    let v4 = ExecutionExport::Value(width(4));
    assert_eq!(v4.combine(&ExecutionExport::Value(width(4))), Some(v4));
}

#[test]
fn combine_promotes_same_width_other_kind() {
    let v4 = ExecutionExport::Value(width(4));
    let c4 = ExecutionExport::Const(width(4));
    assert_eq!(v4.combine(&c4), Some(ExecutionExport::Multiple(width(4))));
    assert_eq!(c4.combine(&v4), Some(ExecutionExport::Multiple(width(4))));
}

#[test]
fn combine_rejects_width_mismatch() {
    let v4 = ExecutionExport::Value(width(4));
    let v8 = ExecutionExport::Value(width(8));
    let r8 = ExecutionExport::Reference(width(8));
    assert_eq!(v4.combine(&v8), None);
    assert_eq!(v4.combine(&r8), None);
}

#[test]
fn combine_rejects_mixed_presence_either_way() {
    let v4 = ExecutionExport::Value(width(4));
    assert_eq!(v4.combine(&ExecutionExport::NoReturn), None);
    assert_eq!(ExecutionExport::NoReturn.combine(&v4), None);
}

#[test]
fn registering_into_invalid_name_fails_without_mutation() {
    let mut t = Table::new_empty(String::new());
    let raw = raw_ok(1, Some(ExecutionExport::Value(width(4))), 3);
    let err = t.register(raw).unwrap_err();
    assert_eq!(err.sub, TableErrorSub::TableNameInvalid);
    assert_eq!(err.table_pos, src(3));
    assert!(t.constructors.is_empty());
    assert_eq!(t.export, ExecutionExport::NoReturn);
    // the same table keeps failing the same way, whatever the constructor
    let err = t
        .register(raw_ok(2, Some(ExecutionExport::NoReturn), 4))
        .unwrap_err();
    assert_eq!(err.sub, TableErrorSub::TableNameInvalid);
    assert!(t.constructors.is_empty());
}

#[test]
fn first_registration_sets_export_verbatim() {
    let mut t = Table::new_empty("ops".to_owned());
    t.register(raw_ok(1, Some(ExecutionExport::Value(width(4))), 1))
        .unwrap();
    assert_eq!(t.export, ExecutionExport::Value(width(4)));
}

#[test]
fn same_width_other_kind_promotes_to_multiple() {
    let mut t = Table::new_empty("ops".to_owned());
    t.register(raw_ok(1, Some(ExecutionExport::Value(width(4))), 1))
        .unwrap();
    t.register(raw_ok(2, Some(ExecutionExport::Const(width(4))), 2))
        .unwrap();
    assert_eq!(t.export, ExecutionExport::Multiple(width(4)));
    assert_eq!(t.constructors.len(), 2);
}

#[test]
fn width_mismatch_fails_and_appends_nothing() {
    let mut t = Table::new_empty("ops".to_owned());
    t.register(raw_ok(1, Some(ExecutionExport::Value(width(4))), 1))
        .unwrap();
    let err = t
        .register(raw_ok(2, Some(ExecutionExport::Value(width(8))), 2))
        .unwrap_err();
    assert_eq!(err.sub, TableErrorSub::TableConstructorExportSizeInvalid);
    assert_eq!(err.table_pos, src(2));
    assert_eq!(t.export, ExecutionExport::Value(width(4)));
    assert_eq!(t.constructors.len(), 1);
}

#[test]
fn all_export_less_constructors_leave_no_export() {
    let mut t = Table::new_empty("ops".to_owned());
    t.register(raw_ok(1, None, 1)).unwrap();
    t.register(raw_ok(2, Some(ExecutionExport::NoReturn), 2))
        .unwrap();
    t.register(raw_ok(3, None, 3)).unwrap();
    assert_eq!(t.export, ExecutionExport::NoReturn);
    assert_eq!(t.constructors.len(), 3);
}

#[test]
fn established_export_rejects_export_less_constructor() {
    let mut t = Table::new_empty("ops".to_owned());
    t.register(raw_ok(1, Some(ExecutionExport::Value(width(4))), 1))
        .unwrap();
    let err = t.register(raw_ok(2, None, 2)).unwrap_err();
    assert_eq!(err.sub, TableErrorSub::TableConstructorExportSizeInvalid);
    assert_eq!(t.export, ExecutionExport::Value(width(4)));
    assert_eq!(t.constructors.len(), 1);
}

#[test]
fn export_less_table_rejects_exporting_constructor() {
    let mut t = Table::new_empty("ops".to_owned());
    t.register(raw_ok(1, None, 1)).unwrap();
    let err = t
        .register(raw_ok(2, Some(ExecutionExport::Value(width(4))), 2))
        .unwrap_err();
    assert_eq!(err.sub, TableErrorSub::TableConstructorExportSizeInvalid);
    assert_eq!(t.export, ExecutionExport::NoReturn);
    assert_eq!(t.constructors.len(), 1);
}

#[test]
fn registration_keeps_source_order() {
    let mut t = Table::new_empty("ops".to_owned());
    t.register(raw_ok(11, Some(ExecutionExport::Value(width(4))), 1))
        .unwrap();
    t.register(raw_ok(22, Some(ExecutionExport::Const(width(4))), 2))
        .unwrap();
    t.register(raw_ok(33, Some(ExecutionExport::Reference(width(4))), 3))
        .unwrap();
    let artifacts: Vec<u64> = t.constructors.iter().map(|c| c.pattern.artifact).collect();
    assert_eq!(artifacts, vec![11, 22, 33]);
    let lines: Vec<u64> = t.constructors.iter().map(|c| c.src.line).collect();
    assert_eq!(lines, vec![1, 2, 3]);
}

#[test]
fn pattern_failure_carries_exact_cause_and_position() {
    let mut t = Table::new_empty("ops".to_owned());
    let cause = PatternError { src: src(40) };
    let raw = RawConstructor {
        pattern: RawPattern::Malformed { error: cause },
        display: RawDisplay { artifact: 1 },
        disassembly: RawDisassembly { artifact: 1 },
        execution: None,
        src: src(7),
    };
    let err = t.register(raw).unwrap_err();
    assert_eq!(err.sub, TableErrorSub::Pattern(cause));
    // the error is positioned at the constructor, not at the pattern element
    assert_eq!(err.table_pos, src(7));
    assert!(t.constructors.is_empty());
    assert_eq!(t.export, ExecutionExport::NoReturn);
}

#[test]
fn reg8_scenario_runs_as_described() {
    let mut t = Table::new_empty("reg8".to_owned());
    t.register(raw_ok(1, Some(ExecutionExport::Reference(width(1))), 1))
        .unwrap();
    assert_eq!(t.export, ExecutionExport::Reference(width(1)));
    t.register(raw_ok(2, Some(ExecutionExport::Value(width(1))), 2))
        .unwrap();
    assert_eq!(t.export, ExecutionExport::Multiple(width(1)));
    let err = t
        .register(raw_ok(3, Some(ExecutionExport::Value(width(2))), 3))
        .unwrap_err();
    assert_eq!(err.sub, TableErrorSub::TableConstructorExportSizeInvalid);
    assert_eq!(t.constructors.len(), 2);
    let artifacts: Vec<u64> = t.constructors.iter().map(|c| c.pattern.artifact).collect();
    assert_eq!(artifacts, vec![1, 2]);
    assert_eq!(t.export, ExecutionExport::Multiple(width(1)));
}

#[test]
fn elaboration_builds_the_whole_constructor() {
    let mut t = Table::new_empty("ops".to_owned());
    let raw = RawConstructor {
        pattern: RawPattern::Wellformed {
            pattern: Pattern { artifact: 5 },
        },
        display: RawDisplay { artifact: 6 },
        disassembly: RawDisassembly { artifact: 7 },
        execution: Some(RawExecution {
            artifact: 8,
            export: ExecutionExport::Const(width(2)),
        }),
        src: src(9),
    };
    t.register(raw).unwrap();
    let c = &t.constructors[0];
    assert_eq!(c.pattern.artifact, 5);
    assert_eq!(c.display.artifact, 6);
    assert_eq!(c.disassembly.artifact, 7);
    assert_eq!(c.execution.unwrap().artifact, 8);
    assert_eq!(c.src, src(9));
    assert_eq!(c.export(), ExecutionExport::Const(width(2)));
}

#[test]
fn selector_rule_exports_nothing() {
    let mut t = Table::new_empty("ops".to_owned());
    t.register(raw_ok(1, None, 1)).unwrap();
    assert!(t.constructors[0].execution.is_none());
    assert_eq!(t.constructors[0].export(), ExecutionExport::NoReturn);
}
