use dbtective::catalog_evaluators::{columns_canonical_name, columns_have_description};
use dbtective::data_types::LogicalType;
use dbtective::engine::apply_catalog_rules;
use dbtective::finding::RuleResult;
use dbtective::naming_convention::NamingConvention;
use dbtective::objects::{
    Catalog, CatalogColumn, CatalogModel, CatalogNode, CatalogNodeBase, CatalogSeed, CatalogSource,
    Manifest, ManifestColumn, ManifestObject,
};
use dbtective::rules::{CatalogRule, CatalogRuleKind, ColumnNamePattern};
use dbtective::severity::Severity;
use dbtective::targets::RuleTarget;

fn object(unique_id: &str, name: &str, target: RuleTarget, path: &str) -> ManifestObject {
    ManifestObject::new(unique_id, name, target, path)
}

fn cols(pairs: &[(&str, &str)]) -> Vec<CatalogColumn> {
    pairs
        .iter()
        .map(|(n, t)| CatalogColumn { name: (*n).to_string(), data_type: (*t).to_string() })
        .collect()
}

fn base(unique_id: &str, name: &str, columns: &[(&str, &str)]) -> CatalogNodeBase {
    CatalogNodeBase { unique_id: unique_id.to_string(), name: name.to_string(), columns: cols(columns) }
}

fn model_node(unique_id: &str, name: &str, columns: &[(&str, &str)]) -> CatalogNode {
    CatalogNode::Model(CatalogModel { base: base(unique_id, name, columns) })
}

fn rule(name: &str, severity: Severity, applies_to: Option<Vec<RuleTarget>>, kind: CatalogRuleKind) -> CatalogRule {
    CatalogRule {
        name: Some(name.to_string()),
        severity,
        description: None,
        applies_to,
        includes: None,
        excludes: None,
        model_materializations: None,
        kind,
    }
}

fn patterns(names: &[&str]) -> Vec<ColumnNamePattern> {
    names.iter().map(|n| ColumnNamePattern::parse(n).unwrap()).collect()
}

fn canonical_rule(name: &str, severity: Severity, canonical: &str, invalid: &[&str], targets: Vec<RuleTarget>) -> CatalogRule {
    rule(
        name,
        severity,
        Some(targets),
        CatalogRuleKind::ColumnsCanonicalName { canonical: canonical.to_string(), invalid_names: patterns(invalid) },
    )
}

fn convention_rule(name: &str, pattern: &str, data_types: Option<Vec<LogicalType>>) -> CatalogRule {
    rule(
        name,
        Severity::Warning,
        None,
        CatalogRuleKind::ColumnsNameConvention { convention: NamingConvention::from_pattern(pattern).unwrap(), data_types },
    )
}

fn run(manifest: &Manifest, catalog: &Catalog, rules: Vec<CatalogRule>) -> Vec<(RuleResult, Severity)> {
    apply_catalog_rules(catalog, manifest, &rules).findings
}

fn single_model(id: &str, name: &str, columns: &[(&str, &str)]) -> (Manifest, Catalog) {
    let manifest = Manifest { objects: vec![object(id, name, RuleTarget::Models, &format!("models/{name}.sql"))] };
    let catalog = Catalog { nodes: vec![model_node(id, name, columns)], sources: vec![] };
    (manifest, catalog)
}

#[test]
fn test_columns_canonical_name_with_literal_match() {
    let (manifest, catalog) = single_model(
        "model.test_project.orders",
        "orders",
        &[("customer_id", "INTEGER"), ("cust_id", "INTEGER"), ("amount", "DECIMAL")],
    );
    let rules = vec![canonical_rule("customer_id_canonical", Severity::Error, "customer_id", &["cust_id", "custid"], vec![RuleTarget::Models])];
    let findings = run(&manifest, &catalog, rules);
    assert_eq!(findings.len(), 1);
    assert_eq!(findings[0].0.severity, "FAIL");
    assert_eq!(findings[0].0.object_type, "Model");
    assert_eq!(findings[0].0.rule_name, "customer_id_canonical");
    assert!(findings[0].0.message.contains("customer_id"));
    assert!(findings[0].0.message.contains("cust_id"));
}

#[test]
fn test_columns_canonical_name_with_regex_match() {
    let (manifest, catalog) = single_model(
        "model.test_project.addresses",
        "addresses",
        &[("zip_code", "VARCHAR"), ("zipcode", "VARCHAR"), ("postal_code", "VARCHAR"), ("city", "VARCHAR")],
    );
    let rules = vec![canonical_rule("zip_code_canonical", Severity::Error, "zip_code", &["^zip", "postal_code"], vec![RuleTarget::Models])];
    let findings = run(&manifest, &catalog, rules);
    assert_eq!(findings.len(), 1, "findings: {:?}", findings);
    assert_eq!(findings[0].0.severity, "FAIL");
    assert_eq!(findings[0].0.object_type, "Model");
    assert!(findings[0].0.message.contains("zip_code"));
    assert!(findings[0].0.message.contains("zipcode"));
    assert!(findings[0].0.message.contains("postal_code"));
    assert!(!findings[0].0.message.contains("city"));
}

#[test]
fn test_columns_canonical_name_test_columns_canonical_name_no_violations() {
    let (manifest, catalog) = single_model(
        "model.test_project.orders",
        "orders",
        &[("customer_id", "INTEGER"), ("order_id", "INTEGER"), ("amount", "DECIMAL")],
    );
    let rules = vec![canonical_rule("customer_id_canonical", Severity::Error, "customer_id", &["cust_id", "custid"], vec![RuleTarget::Models])];
    let findings = run(&manifest, &catalog, rules);
    assert_eq!(findings.len(), 0, "Expected no findings, but got: {findings:?}");
}

#[test]
fn test_columns_canonical_name_case_insensitive_literal() {
    // Literal invalid names are compared exactly, so differently cased
    // columns are not flagged.
    let (manifest, catalog) = single_model(
        "model.test_project.users",
        "users",
        &[("user_id", "INTEGER"), ("USERID", "INTEGER"), ("UserId", "INTEGER")],
    );
    let rules = vec![canonical_rule("user_id_canonical", Severity::Warning, "user_id", &["userid"], vec![RuleTarget::Models])];
    let findings = run(&manifest, &catalog, rules);
    assert_eq!(findings.len(), 0);

    let rules = vec![canonical_rule("user_id_canonical", Severity::Warning, "user_id", &["userid", "USERID"], vec![RuleTarget::Models])];
    let findings = run(&manifest, &catalog, rules);
    assert_eq!(findings.len(), 1);
    assert_eq!(findings[0].0.severity, "WARN");
    assert!(findings[0].0.message.contains("USERID"));
    assert!(!findings[0].0.message.contains("UserId"));
}

#[test]
fn test_columns_canonical_name_with_sources() {
    let id = "source.test_project.raw_data.customers";
    let manifest = Manifest { objects: vec![object(id, "customers", RuleTarget::Sources, "models/sources.yml")] };
    let catalog = Catalog {
        nodes: vec![],
        sources: vec![CatalogSource {
            unique_id: id.to_string(),
            name: "customers".to_string(),
            columns: cols(&[("email_address", "VARCHAR"), ("emailaddress", "VARCHAR"), ("e_mail", "VARCHAR")]),
        }],
    };
    let rules = vec![canonical_rule(
        "email_canonical",
        Severity::Error,
        "email_address",
        &["emailaddress", "e_mail", "regex:^email$"],
        vec![RuleTarget::Sources],
    )];
    let findings = run(&manifest, &catalog, rules);
    assert_eq!(findings.len(), 1);
    assert_eq!(findings[0].0.severity, "FAIL");
    assert_eq!(findings[0].0.object_type, "Source");
    assert!(findings[0].0.message.contains("emailaddress"));
    assert!(findings[0].0.message.contains("e_mail"));
}

#[test]
fn test_columns_canonical_name_multiple_rules() {
    let (manifest, catalog) = single_model(
        "model.test_project.orders",
        "orders",
        &[("customer_id", "INTEGER"), ("cust_id", "INTEGER"), ("created_at", "TIMESTAMP"), ("createdat", "TIMESTAMP")],
    );
    let rules = vec![
        canonical_rule("customer_id_canonical", Severity::Error, "customer_id", &["cust_id"], vec![RuleTarget::Models]),
        canonical_rule("created_at_canonical", Severity::Warning, "created_at", &["createdat", "regex:^create_date"], vec![RuleTarget::Models]),
    ];
    let findings = run(&manifest, &catalog, rules);
    assert_eq!(findings.len(), 2);
    let customer_finding = findings.iter().find(|f| f.0.rule_name == "customer_id_canonical");
    let created_finding = findings.iter().find(|f| f.0.rule_name == "created_at_canonical");
    assert!(customer_finding.is_some());
    assert!(created_finding.is_some());
    assert_eq!(customer_finding.unwrap().0.severity, "FAIL");
    assert_eq!(created_finding.unwrap().0.severity, "WARN");
}

#[test]
fn test_columns_canonical_name_applies_to_filter() {
    let model_id = "model.test_project.orders";
    let source_id = "source.test_project.raw_data.orders";
    let manifest = Manifest {
        objects: vec![
            object(model_id, "orders", RuleTarget::Models, "models/orders.sql"),
            object(source_id, "orders", RuleTarget::Sources, "models/sources.yml"),
        ],
    };
    let catalog = Catalog {
        nodes: vec![model_node(model_id, "orders", &[("cust_id", "INTEGER")])],
        sources: vec![CatalogSource { unique_id: source_id.to_string(), name: "orders".to_string(), columns: cols(&[("cust_id", "INTEGER")]) }],
    };
    let rules = vec![canonical_rule("customer_id_canonical", Severity::Error, "customer_id", &["cust_id"], vec![RuleTarget::Models])];
    let findings = run(&manifest, &catalog, rules);
    assert_eq!(findings.len(), 1);
    assert_eq!(findings[0].0.object_type, "Model");
}

fn presets_fixture() -> (Manifest, Catalog) {
    let manifest = Manifest {
        objects: vec![
            object("model.test_project.orders", "orders", RuleTarget::Models, "models/orders.sql"),
            object("seed.test_project.raw_data", "raw_data", RuleTarget::Seeds, "seeds/raw_data.csv"),
        ],
    };
    let catalog = Catalog {
        nodes: vec![
            model_node("model.test_project.orders", "orders", &[("id_snake_case", "INTEGER")]),
            CatalogNode::Seed(CatalogSeed { base: base("seed.test_project.raw_data", "raw_data", &[("value_snake_case", "INTEGER")]) }),
        ],
        sources: vec![],
    };
    (manifest, catalog)
}

#[test]
fn test_columns_name_convention_test_column_names_all_preset_cases() {
    let (manifest, catalog) = presets_fixture();
    let findings = run(&manifest, &catalog, vec![convention_rule("columns_follow_snakecase", "snake_case", None)]);
    assert_eq!(findings.len(), 0, "Expected no findings, but got: {findings:?}");

    for (name, pattern) in [
        ("columns_follow_camelcase", "camelCase"),
        ("columns_follow_pascalcase", "PascalCase"),
        ("columns_follow_kebabcase", "kebab-case"),
    ] {
        let findings = run(&manifest, &catalog, vec![convention_rule(name, pattern, None)]);
        assert_eq!(findings.len(), 2);
        for finding in findings {
            assert_eq!(finding.0.severity, "WARN");
            assert!(finding.0.message.contains(&format!("do not follow the {pattern}")));
        }
    }
}

#[test]
fn test_columns_name_convention_test_column_names_custom_regex() {
    let (manifest, catalog) = presets_fixture();
    let findings = run(&manifest, &catalog, vec![convention_rule("columns_follow_snakecase", "^[a-z]+(_[a-z]+)*$", None)]);
    assert_eq!(findings.len(), 0, "Expected no findings, but got: {findings:?}");

    let findings = run(&manifest, &catalog, vec![convention_rule("columns_start_with_col", "^col_.*$", None)]);
    assert_eq!(findings.len(), 2);
    for finding in findings {
        assert_eq!(finding.0.severity, "WARN");
        assert!(finding.0.message.contains("do not follow the ^col_.*$"));
    }
}

#[test]
fn test_columns_name_convention_test_column_names_invalid_regex() {
    let result = NamingConvention::from_pattern("*[a-z]+(_[a-z]+)*$");
    assert!(result.is_err());
}

#[test]
fn test_columns_name_convention_test_column_names_filter_by_single_data_type() {
    let (manifest, catalog) = single_model(
        "model.test_project.users",
        "users",
        &[("user_id", "INTEGER"), ("UserName", "VARCHAR"), ("created_at", "TIMESTAMP")],
    );
    let findings = run(&manifest, &catalog, vec![convention_rule("varchar_columns_snake_case", "snake_case", Some(vec![LogicalType::Varchar]))]);
    assert_eq!(findings.len(), 1);
    assert_eq!(findings[0].0.severity, "WARN");
    assert_eq!(findings[0].0.object_type, "Model");
    assert!(findings[0].0.message.contains("users"));
    assert!(findings[0].0.message.contains("UserName"));
    assert!(!findings[0].0.message.contains("user_id"));
    assert!(!findings[0].0.message.contains("created_at"));
}

#[test]
fn test_columns_name_convention_test_column_names_filter_by_multiple_data_types() {
    let (manifest, catalog) = single_model(
        "model.test_project.products",
        "products",
        &[("product_id", "INTEGER"), ("ProductName", "VARCHAR"), ("Description", "TEXT"), ("Price", "DECIMAL")],
    );
    let findings = run(
        &manifest,
        &catalog,
        vec![convention_rule("text_columns_snake_case", "snake_case", Some(vec![LogicalType::Varchar, LogicalType::Text]))],
    );
    assert_eq!(findings.len(), 1);
    assert_eq!(findings[0].0.severity, "WARN");
    assert!(findings[0].0.message.contains("ProductName"));
    assert!(findings[0].0.message.contains("Description"));
    assert!(!findings[0].0.message.contains("product_id"));
    assert!(!findings[0].0.message.contains("Price"));
}

#[test]
fn test_columns_name_convention_test_column_names_filter_passes_when_filtered_columns_valid() {
    let (manifest, catalog) = single_model(
        "model.test_project.orders",
        "orders",
        &[("OrderID", "INTEGER"), ("customer_name", "VARCHAR"), ("order_status", "VARCHAR"), ("CreatedAt", "TIMESTAMP")],
    );
    let findings = run(&manifest, &catalog, vec![convention_rule("varchar_columns_snake_case", "snake_case", Some(vec![LogicalType::Varchar]))]);
    assert_eq!(findings.len(), 0, "Expected no findings, but got: {findings:?}");
}

#[test]
fn test_columns_name_convention_test_column_names_array_type_detection() {
    let (manifest, catalog) = single_model(
        "model.test_project.events",
        "events",
        &[("event_id", "INTEGER"), ("TagList", "ARRAY<VARCHAR>"), ("MetricValues", "ARRAY<INT>")],
    );
    let findings = run(&manifest, &catalog, vec![convention_rule("array_columns_snake_case", "snake_case", Some(vec![LogicalType::Array]))]);
    assert_eq!(findings.len(), 1);
    assert_eq!(findings[0].0.severity, "WARN");
    assert!(findings[0].0.message.contains("TagList"));
    assert!(findings[0].0.message.contains("MetricValues"));
    assert!(!findings[0].0.message.contains("event_id"));
}

#[test]
fn test_columns_name_convention_test_column_names_warehouse_specific_aliases() {
    let (manifest, catalog) = single_model(
        "model.test_project.metrics",
        "metrics",
        &[("SmallCount", "int2"), ("RegularCount", "int4"), ("BigCount", "int8"), ("user_name", "VARCHAR")],
    );
    let findings = run(
        &manifest,
        &catalog,
        vec![convention_rule(
            "int_columns_pascal_case",
            "PascalCase",
            Some(vec![LogicalType::SmallInt, LogicalType::Integer, LogicalType::BigInt]),
        )],
    );
    assert_eq!(findings.len(), 0, "Expected no findings, but got: {findings:?}");
}

#[test]
fn test_columns_name_convention_test_column_names_no_columns_match_filter() {
    let (manifest, catalog) = single_model(
        "model.test_project.stats",
        "stats",
        &[("TotalCount", "INTEGER"), ("AverageValue", "DECIMAL"), ("CreatedDate", "DATE")],
    );
    let findings = run(&manifest, &catalog, vec![convention_rule("varchar_columns_snake_case", "snake_case", Some(vec![LogicalType::Varchar]))]);
    assert_eq!(findings.len(), 0, "Expected no findings, but got: {findings:?}");
}

#[test]
fn test_columns_name_convention_test_column_names_date_time_types_filter() {
    let (manifest, catalog) = single_model(
        "model.test_project.events",
        "events",
        &[
            ("EventID", "INTEGER"),
            ("EventName", "VARCHAR"),
            ("created_at", "TIMESTAMP"),
            ("event_date", "DATE"),
            ("UpdatedAt", "TIMESTAMPTZ"),
        ],
    );
    let findings = run(
        &manifest,
        &catalog,
        vec![convention_rule(
            "date_columns_snake_case",
            "snake_case",
            Some(vec![LogicalType::Date, LogicalType::Timestamp, LogicalType::TimestampTz]),
        )],
    );
    assert_eq!(findings.len(), 1);
    assert_eq!(findings[0].0.severity, "WARN");
    assert!(findings[0].0.message.contains("UpdatedAt"));
    assert!(!findings[0].0.message.contains("created_at"));
    assert!(!findings[0].0.message.contains("event_date"));
    assert!(!findings[0].0.message.contains("EventID"));
    assert!(!findings[0].0.message.contains("EventName"));
}

fn documented(obj: &mut ManifestObject, pairs: &[(&str, &str)]) {
    obj.columns = pairs
        .iter()
        .map(|(n, d)| ManifestColumn { name: (*n).to_string(), description: (*d).to_string() })
        .collect();
}

#[test]
fn test_columns_canonical_name_only_literal() {
    let obj = object("model.test.test_model", "test_model", RuleTarget::Models, "models/test_model.sql");
    let catalog_columns = cols(&[("customer_id", "INTEGER"), ("cust_id", "INTEGER")]);
    let result = columns_canonical_name(
        &catalog_columns,
        "customer_id",
        &vec![ColumnNamePattern::Literal("cust_id".to_string())],
        &obj,
        &Severity::Warning,
        "columns_canonical_name",
    )
    .unwrap();
    assert_eq!(result.message, "The following columns should be named 'customer_id': [\"cust_id\"]");
    assert_eq!(result.severity, "WARN");
    assert_eq!(result.relative_path, Some("models/test_model.sql".to_string()));
}

#[test]
fn test_check_columns_have_description_no_catalog_columns() {
    let mut obj = object("model.test.test_table", "test_table", RuleTarget::Models, "models/test_table.sql");
    documented(&mut obj, &[("col1", ""), ("col2", "")]);
    let result = columns_have_description("test_table", &vec![], &obj, &Severity::Warning, "columns_have_description");
    assert!(result.is_some());
    assert_eq!(result.unwrap().message, "No columns available for 'test_table'");
}

#[test]
fn test_no_column_descriptions_in_manifest() {
    let obj = object("model.test.test_table", "test_table", RuleTarget::Models, "models/test_table.sql");
    let catalog_columns = cols(&[("col1", "INTEGER"), ("col2", "INTEGER")]);
    let result = columns_have_description("test_table", &catalog_columns, &obj, &Severity::Warning, "columns_have_description");
    assert!(result.is_some());
    assert_eq!(result.unwrap().message, "No columns in 'test_table' have descriptions.");
}

#[test]
fn test_some_column_descriptions_missing() {
    let mut obj = object("model.test.my_model", "my_model", RuleTarget::Models, "models/my_model.sql");
    documented(&mut obj, &[("id", "Identifier"), ("name", ""), ("email", "Email address")]);
    let catalog_columns = cols(&[("id", "INTEGER"), ("name", "VARCHAR"), ("email", "VARCHAR")]);
    let result = columns_have_description("my_model", &catalog_columns, &obj, &Severity::Error, "columns_have_description");
    assert!(result.is_some());
    let result = result.unwrap();
    assert_eq!(result.message, "Some columns in 'my_model' do not have descriptions: [\"name\"]");
    assert_eq!(result.severity, "FAIL");
    assert_eq!(result.object_type, "Model");
}

#[test]
fn test_all_columns_have_descriptions() {
    let mut obj = object("model.test.my_model", "my_model", RuleTarget::Models, "models/my_model.sql");
    documented(&mut obj, &[("id", "Identifier"), ("name", "Name"), ("email", "Email address")]);
    let catalog_columns = cols(&[("id", "INTEGER"), ("name", "VARCHAR"), ("email", "VARCHAR")]);
    assert_eq!(columns_have_description("my_model", &catalog_columns, &obj, &Severity::Error, "columns_have_description"), None);
}

#[test]
fn columns_have_description_lists_exactly_the_blank_one() {
    let mut obj = object("model.test.customers", "customers", RuleTarget::Models, "models/customers.sql");
    documented(&mut obj, &[("id", "x"), ("name", ""), ("email", "y")]);
    let catalog_columns = cols(&[("id", "INTEGER"), ("name", "VARCHAR"), ("email", "VARCHAR")]);
    let result = columns_have_description("customers", &catalog_columns, &obj, &Severity::Error, "r").unwrap();
    assert_eq!(result.message, "Some columns in 'customers' do not have descriptions: [\"name\"]");
}

#[test]
fn blank_and_undocumented_catalog_columns_are_both_reported() {
    let mut obj = object("model.test.customers", "customers", RuleTarget::Models, "models/customers.sql");
    documented(&mut obj, &[("id", "  "), ("ghost", "not in the warehouse"), ("name", "ok")]);
    let catalog_columns = cols(&[("id", "INTEGER"), ("name", "VARCHAR")]);
    let result = columns_have_description("customers", &catalog_columns, &obj, &Severity::Error, "r").unwrap();
    assert_eq!(result.message, "Some columns in 'customers' do not have descriptions: [\"id\", \"ghost\"]");
}

#[test]
fn unmatched_catalog_record_gives_no_findings_and_is_reported() {
    let manifest = Manifest { objects: vec![object("model.p.a", "a", RuleTarget::Models, "models/a.sql")] };
    let catalog = Catalog {
        nodes: vec![
            model_node("model.p.stale", "stale", &[("cust_id", "INTEGER")]),
            model_node("model.p.a", "a", &[("cust_id", "INTEGER")]),
        ],
        sources: vec![],
    };
    let rules = vec![canonical_rule("c", Severity::Error, "customer_id", &["cust_id"], vec![RuleTarget::Models])];
    let report = apply_catalog_rules(&catalog, &manifest, &rules);
    assert_eq!(report.findings.len(), 1);
    assert_eq!(report.findings[0].0.relative_path, Some("models/a.sql".to_string()));
    assert_eq!(report.unmatched, vec!["model.p.stale".to_string()]);
}

#[test]
fn catalog_node_is_classified_by_identifier_prefix() {
    let node = CatalogNode::from_base(base("seed.p.x", "x", &[])).unwrap();
    assert_eq!(node.get_object_type(), "Seed");
    assert_eq!(node.get_object_string(), "x");
    assert_eq!(node.get_unique_id(), "seed.p.x");
    let err = CatalogNode::from_base(base("widget.p.x", "x", &[])).unwrap_err();
    assert_eq!(err, "Unknown resource type: widget");
}

#[test]
fn test_columns_canonical_name_only_regex() {
    let obj = object("model.test.test_model", "test_model", RuleTarget::Models, "models/test_model.sql");
    let catalog_columns = cols(&[("user_id", "INTEGER"), ("usr_id", "INTEGER"), ("user_identifier", "INTEGER")]);
    let result = columns_canonical_name(
        &catalog_columns,
        "user_id",
        &vec![ColumnNamePattern::Regex("^usr".to_string())],
        &obj,
        &Severity::Warning,
        "columns_canonical_name",
    );
    assert!(result.is_some());
    let rule_result = result.unwrap();
    assert_eq!(rule_result.rule_name, "columns_canonical_name");
    assert_eq!(rule_result.message, "The following columns should be named 'user_id': [\"usr_id\"]");
    assert_eq!(rule_result.relative_path, Some("models/test_model.sql".to_string()));
}

#[test]
fn test_columns_canonical_name_no_violations() {
    let obj = object("model.test.test_model", "test_model", RuleTarget::Models, "models/test_model.sql");
    let catalog_columns = cols(&[("zip_code", "VARCHAR"), ("ignored_column", "VARCHAR")]);
    let invalid_names = vec![
        ColumnNamePattern::Regex("^zip".to_string()),
        ColumnNamePattern::Literal("postal_code".to_string()),
    ];
    let result = columns_canonical_name(&catalog_columns, "zip_code", &invalid_names, &obj, &Severity::Warning, "columns_canonical_name");
    assert!(result.is_none());
}

#[test]
fn column_name_patterns_are_read_as_literal_or_regex() {
    assert_eq!(ColumnNamePattern::parse("cust_id"), Ok(ColumnNamePattern::Literal("cust_id".to_string())));
    assert_eq!(ColumnNamePattern::parse("^zip"), Ok(ColumnNamePattern::Regex("^zip".to_string())));
    assert_eq!(ColumnNamePattern::parse("id$"), Ok(ColumnNamePattern::Regex("id$".to_string())));
    assert_eq!(ColumnNamePattern::parse("a.*b"), Ok(ColumnNamePattern::Regex("a.*b".to_string())));
    assert_eq!(ColumnNamePattern::parse("a.+b"), Ok(ColumnNamePattern::Regex("a.+b".to_string())));
    assert!(ColumnNamePattern::parse("^(").is_err());
    assert!(ColumnNamePattern::Literal("cust_id".to_string()).matches("cust_id"));
    assert!(!ColumnNamePattern::Literal("cust_id".to_string()).matches("CUST_ID"));
    assert!(ColumnNamePattern::Regex("^zip".to_string()).matches("zipcode"));
    assert!(!ColumnNamePattern::Regex("(".to_string()).matches("("));
}
