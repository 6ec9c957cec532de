use transform_imports::model::ImportDeclaration;
use transform_imports::model::ImportSpecifier;
use transform_imports::model::ModuleStatement;
use transform_imports::TransformMember;
use transform_imports::TransformVisitor;
use transform_imports::TransformVisitorConfigs;
use transform_imports::TransformVisitorSubConfig;

fn antd_config() -> TransformVisitorSubConfig {
    TransformVisitorSubConfig {
        transform: String::from("antd/es/${member}"),
        skip_default_conversion: false,
        prevent_full_import: true,
        style: Some(String::from("antd/es/${member}/style")),
        member_transformers: vec![TransformMember::DashedCase],
    }
}

fn antd_visitor() -> TransformVisitor {
    let mut configs = TransformVisitorConfigs::new();
    configs.insert_config(String::from("antd"), antd_config());
    TransformVisitor { configs }
}

fn named(local: &str, imported: Option<&str>) -> ImportSpecifier {
    ImportSpecifier::NamedImport {
        local: String::from(local),
        imported: imported.map(String::from),
        is_type_only: false,
    }
}

fn import_stmt(source: &str, specifiers: Vec<ImportSpecifier>, host_data: u64) -> ModuleStatement {
    ModuleStatement::ImportStmt(ImportDeclaration {
        source: String::from(source),
        specifiers,
        type_only: false,
        host_data,
    })
}

#[test]
fn base_transform() {
    let visitor = antd_visitor();
    let input = vec![import_stmt("antd", vec![named("MyButton", None)], 7)];
    let output = visitor.rewrite_module_items(&input).unwrap();
    let expected = vec![
        ModuleStatement::ImportStmt(ImportDeclaration {
            source: String::from("antd/es/my-button"),
            specifiers: vec![ImportSpecifier::DefaultImport { local: String::from("MyButton") }],
            type_only: false,
            host_data: 7,
        }),
        ModuleStatement::ImportStmt(ImportDeclaration {
            source: String::from("antd/es/my-button/style"),
            specifiers: vec![],
            type_only: false,
            host_data: 7,
        }),
    ];
    assert_eq!(output, expected);
}

#[test]
fn base_transform_with_alias() {
    let visitor = antd_visitor();
    let input = vec![import_stmt("antd", vec![named("NewButton", Some("MyButton"))], 3)];
    let output = visitor.rewrite_module_items(&input).unwrap();
    let expected = vec![
        ModuleStatement::ImportStmt(ImportDeclaration {
            source: String::from("antd/es/my-button"),
            specifiers: vec![ImportSpecifier::DefaultImport { local: String::from("NewButton") }],
            type_only: false,
            host_data: 3,
        }),
        ModuleStatement::ImportStmt(ImportDeclaration {
            source: String::from("antd/es/my-button/style"),
            specifiers: vec![],
            type_only: false,
            host_data: 3,
        }),
    ];
    assert_eq!(output, expected);
}

#[test]
fn base_transform_with_others() {
    let visitor = antd_visitor();
    let input = vec![import_stmt("abc", vec![named("NewButton", Some("MyButton"))], 1)];
    let output = visitor.rewrite_module_items(&input).unwrap();
    assert_eq!(output, input);
}

#[test]
fn non_import_statements_pass_through() {
    let visitor = antd_visitor();
    let input = vec![
        ModuleStatement::OtherStmt(11),
        import_stmt("antd", vec![named("MyButton", None)], 2),
        ModuleStatement::OtherStmt(12),
    ];
    let output = visitor.rewrite_module_items(&input).unwrap();
    assert_eq!(output.len(), 4);
    assert_eq!(output[0], ModuleStatement::OtherStmt(11));
    assert_eq!(output[3], ModuleStatement::OtherStmt(12));
}

#[test]
fn empty_config_table_is_identity() {
    let visitor = TransformVisitor { configs: TransformVisitorConfigs::new() };
    let input = vec![
        import_stmt("antd", vec![named("MyButton", None)], 0),
        ModuleStatement::OtherStmt(5),
    ];
    let output = visitor.rewrite_module_items(&input).unwrap();
    assert_eq!(output, input);
}

#[test]
fn statement_count_without_style() {
    let mut config = antd_config();
    config.style = None;
    let mut configs = TransformVisitorConfigs::new();
    configs.insert_config(String::from("antd"), config);
    let visitor = TransformVisitor { configs };
    let input = vec![import_stmt(
        "antd",
        vec![named("MyButton", None), named("MyTable", None)],
        0,
    )];
    let output = visitor.rewrite_module_items(&input).unwrap();
    assert_eq!(output.len(), 2);
    let expected_first = ModuleStatement::ImportStmt(ImportDeclaration {
        source: String::from("antd/es/my-button"),
        specifiers: vec![ImportSpecifier::DefaultImport { local: String::from("MyButton") }],
        type_only: false,
        host_data: 0,
    });
    assert_eq!(output[0], expected_first);
}

#[test]
fn statement_count_with_style() {
    let visitor = antd_visitor();
    let input = vec![import_stmt(
        "antd",
        vec![named("MyButton", None), named("MyTable", None)],
        0,
    )];
    let output = visitor.rewrite_module_items(&input).unwrap();
    assert_eq!(output.len(), 4);
}

#[test]
fn skip_default_conversion_keeps_named_form() {
    let mut config = antd_config();
    config.skip_default_conversion = true;
    let mut configs = TransformVisitorConfigs::new();
    configs.insert_config(String::from("antd"), config);
    let visitor = TransformVisitor { configs };
    let input = vec![import_stmt("antd", vec![named("NewButton", Some("MyButton"))], 0)];
    let output = visitor.rewrite_module_items(&input).unwrap();
    let expected_first = ModuleStatement::ImportStmt(ImportDeclaration {
        source: String::from("antd/es/my-button"),
        specifiers: vec![named("NewButton", Some("MyButton"))],
        type_only: false,
        host_data: 0,
    });
    assert_eq!(output[0], expected_first);
}

#[test]
fn default_policy_forbids_full_import_and_converts_named() {
    let mut configs = TransformVisitorConfigs::new();
    configs.insert_config(
        String::from("antd"),
        TransformVisitorSubConfig::new(String::from("antd/lib/${member}")),
    );
    let visitor = TransformVisitor { configs };
    let named_input = vec![import_stmt("antd", vec![named("Row", None)], 0)];
    let output = visitor.rewrite_module_items(&named_input).unwrap();
    let expected = ModuleStatement::ImportStmt(ImportDeclaration {
        source: String::from("antd/lib/Row"),
        specifiers: vec![ImportSpecifier::DefaultImport { local: String::from("Row") }],
        type_only: false,
        host_data: 0,
    });
    assert_eq!(output, vec![expected]);
    let full_input = vec![import_stmt(
        "antd",
        vec![ImportSpecifier::DefaultImport { local: String::from("antd") }],
        0,
    )];
    let err = visitor.rewrite_module_items(&full_input).unwrap_err();
    assert_eq!(err.source, "antd");
}

#[test]
fn prevent_full_import_aborts_on_default_specifier() {
    let visitor = antd_visitor();
    let input = vec![import_stmt(
        "antd",
        vec![
            named("MyButton", None),
            ImportSpecifier::DefaultImport { local: String::from("antd") },
        ],
        0,
    )];
    let err = visitor.rewrite_module_items(&input).unwrap_err();
    assert_eq!(err.source, "antd");
}

#[test]
fn prevent_full_import_aborts_on_namespace_specifier() {
    let visitor = antd_visitor();
    let input = vec![import_stmt(
        "antd",
        vec![ImportSpecifier::NamespaceImport { local: String::from("everything") }],
        0,
    )];
    let err = visitor.rewrite_module_items(&input).unwrap_err();
    assert_eq!(err.source, "antd");
}

#[test]
fn allowed_full_import_passes_specifier_through() {
    let mut config = antd_config();
    config.prevent_full_import = false;
    let mut configs = TransformVisitorConfigs::new();
    configs.insert_config(String::from("antd"), config);
    let visitor = TransformVisitor { configs };
    let input = vec![import_stmt(
        "antd",
        vec![
            ImportSpecifier::DefaultImport { local: String::from("antd") },
            named("MyButton", None),
        ],
        9,
    )];
    let output = visitor.rewrite_module_items(&input).unwrap();
    assert_eq!(output.len(), 3);
    let expected_first = ModuleStatement::ImportStmt(ImportDeclaration {
        source: String::from("antd"),
        specifiers: vec![ImportSpecifier::DefaultImport { local: String::from("antd") }],
        type_only: false,
        host_data: 9,
    });
    assert_eq!(output[0], expected_first);
}

#[test]
fn configured_import_with_no_specifiers_is_dropped() {
    let visitor = antd_visitor();
    let input = vec![import_stmt("antd", vec![], 0)];
    let output = visitor.rewrite_module_items(&input).unwrap();
    assert_eq!(output.len(), 0);
}

#[test]
fn template_without_placeholder_is_used_verbatim() {
    let mut configs = TransformVisitorConfigs::new();
    configs.insert_config(
        String::from("antd"),
        TransformVisitorSubConfig {
            transform: String::from("antd/constant"),
            skip_default_conversion: false,
            prevent_full_import: true,
            style: None,
            member_transformers: vec![],
        },
    );
    let visitor = TransformVisitor { configs };
    let input = vec![import_stmt("antd", vec![named("MyButton", None)], 0)];
    let output = visitor.rewrite_module_items(&input).unwrap();
    let expected = ModuleStatement::ImportStmt(ImportDeclaration {
        source: String::from("antd/constant"),
        specifiers: vec![ImportSpecifier::DefaultImport { local: String::from("MyButton") }],
        type_only: false,
        host_data: 0,
    });
    assert_eq!(output, vec![expected]);
}

#[test]
fn every_placeholder_occurrence_is_replaced() {
    let mut configs = TransformVisitorConfigs::new();
    configs.insert_config(
        String::from("lib"),
        TransformVisitorSubConfig {
            transform: String::from("lib/${member}/${member}.js"),
            skip_default_conversion: false,
            prevent_full_import: true,
            style: None,
            member_transformers: vec![],
        },
    );
    let visitor = TransformVisitor { configs };
    let input = vec![import_stmt("lib", vec![named("button", None)], 0)];
    let output = visitor.rewrite_module_items(&input).unwrap();
    match &output[0] {
        ModuleStatement::ImportStmt(d) => assert_eq!(d.source, "lib/button/button.js"),
        ModuleStatement::OtherStmt(_) => panic!("expected an import statement"),
    }
}

#[test]
fn type_only_specifier_marks_emitted_import() {
    let visitor = antd_visitor();
    let input = vec![import_stmt(
        "antd",
        vec![ImportSpecifier::NamedImport {
            local: String::from("MyButton"),
            imported: None,
            is_type_only: true,
        }],
        0,
    )];
    let output = visitor.rewrite_module_items(&input).unwrap();
    match &output[0] {
        ModuleStatement::ImportStmt(d) => assert!(d.type_only),
        ModuleStatement::OtherStmt(_) => panic!("expected an import statement"),
    }
    match &output[1] {
        ModuleStatement::ImportStmt(d) => assert!(!d.type_only),
        ModuleStatement::OtherStmt(_) => panic!("expected an import statement"),
    }
}
