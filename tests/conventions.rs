use dbtective::catalog_evaluators::column_name_convention;
use dbtective::data_types::{parse_logical_type, strip_parameters, LogicalType};
use dbtective::evaluators::{check_name_convention, has_metadata_keys};
use dbtective::finding::RuleResult;
use dbtective::naming_convention::NamingConvention;
use dbtective::objects::{CatalogColumn, ManifestObject};
use dbtective::severity::Severity;
use dbtective::targets::RuleTarget;

fn item(name: &str) -> ManifestObject {
    ManifestObject::new(&format!("model.test.{name}"), name, RuleTarget::Models, "models/item.sql")
}

fn expected(severity: &Severity, rule_name: &str, message: &str) -> Option<RuleResult> {
    Some(RuleResult::new(
        severity,
        "Model",
        rule_name,
        message,
        Some("models/item.sql".to_string()),
    ))
}

fn columns(names: &[&str]) -> Vec<CatalogColumn> {
    names
        .iter()
        .map(|n| CatalogColumn { name: (*n).to_string(), data_type: "INTEGER".to_string() })
        .collect()
}

#[test]
fn test_snake_case() {
    let conv = NamingConvention::from_pattern("snake_case").unwrap();
    assert_eq!(conv.name(), "snake_case");
    assert!(conv.is_match("hello_world"));
    assert!(conv.is_match("test123"));
    assert!(!conv.is_match("HelloWorld"));
    assert!(!conv.is_match("hello-world"));
}

#[test]
fn test_kebab_case() {
    let conv = NamingConvention::from_pattern("kebab-case").unwrap();
    assert_eq!(conv.name(), "kebab-case");
    assert!(conv.is_match("hello-world"));
    assert!(!conv.is_match("hello_world"));
}

#[test]
fn test_camel_case() {
    let conv = NamingConvention::from_pattern("camelCase").unwrap();
    assert_eq!(conv.name(), "camelCase");
    assert!(conv.is_match("helloWorld"));
    assert!(!conv.is_match("HelloWorld"));
    assert!(!conv.is_match("hello_world"));
}

#[test]
fn test_pascal_case() {
    let conv = NamingConvention::from_pattern("PascalCase").unwrap();
    assert_eq!(conv.name(), "PascalCase");
    assert!(conv.is_match("HelloWorld"));
    assert!(!conv.is_match("helloWorld"));
}

#[test]
fn test_custom_regex() {
    let conv = NamingConvention::from_pattern(r"^[A-Z]{3}-[0-9]{4}$").unwrap();
    assert_eq!(conv.name(), r"^[A-Z]{3}-[0-9]{4}$");
    assert!(conv.is_match("ABC-1234"));
    assert!(!conv.is_match("AB-123"));
}

#[test]
fn test_invalid_regex() {
    let result = NamingConvention::from_pattern("*[invalid");
    assert!(result.is_err());
    assert_eq!(result.unwrap_err().pattern, "*[invalid");
}

#[test]
fn preset_aliases_resolve_to_one_display_name() {
    for (keyword, display) in [
        ("snakecase", "snake_case"),
        ("kebab_case", "kebab-case"),
        ("kebabcase", "kebab-case"),
        ("camel_case", "camelCase"),
        ("camelcase", "camelCase"),
        ("pascal_case", "PascalCase"),
        ("pascalcase", "PascalCase"),
        ("pascal-case", "PascalCase"),
    ] {
        assert_eq!(NamingConvention::from_pattern(keyword).unwrap().name(), display);
    }
}

#[test]
fn test_name_convention_snake_case() {
    let convention = NamingConvention::from_pattern("snake_case").unwrap();
    let sev = Severity::Warning;
    assert_eq!(check_name_convention(&item("test_item"), &convention, &sev, "name_convention"), None);
    assert_eq!(
        check_name_convention(&item("TestItem"), &convention, &sev, "name_convention"),
        expected(&sev, "name_convention", "TestItem does not follow the snake_case naming convention.")
    );
}

#[test]
fn test_name_convention_pascal_case() {
    let convention = NamingConvention::from_pattern("PascalCase").unwrap();
    let sev = Severity::Error;
    assert_eq!(check_name_convention(&item("TestItem"), &convention, &sev, "name_convention"), None);
    assert_eq!(
        check_name_convention(&item("test_item"), &convention, &sev, "name_convention"),
        expected(&sev, "name_convention", "test_item does not follow the PascalCase naming convention.")
    );
}

#[test]
fn test_name_convention_kebab_case() {
    let convention = NamingConvention::from_pattern("kebab-case").unwrap();
    let sev = Severity::Warning;
    assert_eq!(check_name_convention(&item("test-item"), &convention, &sev, "name_convention"), None);
    assert_eq!(
        check_name_convention(&item("TestItem"), &convention, &sev, "name_convention"),
        expected(&sev, "name_convention", "TestItem does not follow the kebab-case naming convention.")
    );
}

#[test]
fn test_name_convention_camel_case() {
    let convention = NamingConvention::from_pattern("camelCase").unwrap();
    let sev = Severity::Error;
    assert_eq!(check_name_convention(&item("testItem"), &convention, &sev, "name_convention"), None);
    assert_eq!(
        check_name_convention(&item("Test_Item"), &convention, &sev, "name_convention"),
        expected(&sev, "name_convention", "Test_Item does not follow the camelCase naming convention.")
    );
}

#[test]
fn test_name_convention_custom_regex() {
    let convention = NamingConvention::from_pattern(r"^[A-Z]{3}-[0-9]{4}$").unwrap();
    let sev = Severity::Warning;
    assert_eq!(check_name_convention(&item("ABC-1234"), &convention, &sev, "name_convention"), None);
    assert_eq!(
        check_name_convention(&item("AB-123"), &convention, &sev, "name_convention"),
        expected(&sev, "name_convention", "AB-123 does not follow the ^[A-Z]{3}-[0-9]{4}$ naming convention.")
    );
}

#[test]
fn bad_regex_caught_at_parse() {
    let result = NamingConvention::from_pattern("(*invalid_regex");
    assert!(result.is_err());
}

#[test]
fn test_column_name_convention_passes_snake_case() {
    let convention = NamingConvention::from_pattern("snake_case").unwrap();
    let cols = columns(&["first_column", "second_column"]);
    let obj = item("test_item");
    assert_eq!(
        column_name_convention("test_item", &cols, &convention, None, &obj, &Severity::Warning, "columns_name_convention"),
        None
    );
}

#[test]
fn test_column_name_convention_fails_snake_case() {
    let convention = NamingConvention::from_pattern("snake_case").unwrap();
    let cols = columns(&["FirstColumn", "second_column"]);
    let obj = item("test_item");
    assert_eq!(
        column_name_convention("test_item", &cols, &convention, None, &obj, &Severity::Warning, "columns_name_convention"),
        expected(
            &Severity::Warning,
            "columns_name_convention",
            "test_item has columns that do not follow the snake_case naming convention: FirstColumn."
        )
    );
}

#[test]
fn test_colum_name_convention_passes_all_presets() {
    let patterns = ["snake_case", "kebab-case", "camelCase", "PascalCase"];
    let test_columns = [
        vec!["first_column", "second_column"],
        vec!["first-column", "second-column"],
        vec!["firstColumn", "secondColumn"],
        vec!["FirstColumn", "SecondColumn"],
    ];
    let obj = item("test_item");
    for (i, pattern) in patterns.iter().enumerate() {
        let convention = NamingConvention::from_pattern(pattern).unwrap();
        let cols = columns(&test_columns[i]);
        assert_eq!(
            column_name_convention("test_item", &cols, &convention, None, &obj, &Severity::Warning, "columns_name_convention"),
            None,
            "Failed for pattern: {pattern}",
        );
    }
}

#[test]
fn test_column_name_convention_fails_all_presets() {
    let patterns = ["snake_case", "kebab-case", "camelCase", "PascalCase"];
    let test_columns = [
        vec!["FirstColumn", "secondColumn"],
        vec!["First-Column", "second-Column"],
        vec!["first_column", "Second_column"],
        vec!["firstColumn", "secondColumn"],
    ];
    let obj = item("test_item");
    for (i, pattern) in patterns.iter().enumerate() {
        let convention = NamingConvention::from_pattern(pattern).unwrap();
        let cols = columns(&test_columns[i]);
        assert!(
            column_name_convention("test_item", &cols, &convention, None, &obj, &Severity::Warning, "columns_name_convention").is_some(),
            "Failed for pattern: {pattern}",
        );
    }
}

#[test]
fn test_column_name_convention_passes_custom_regex() {
    let convention = NamingConvention::from_pattern(r"^[a-z]{3}[0-9]{2}$").unwrap();
    let cols = columns(&["abc12", "def34"]);
    let obj = item("test_item");
    assert_eq!(
        column_name_convention("test_item", &cols, &convention, None, &obj, &Severity::Warning, "columns_name_convention"),
        None
    );
}

#[test]
fn test_column_name_convention_fails_custom_regex() {
    let convention = NamingConvention::from_pattern(r"^[a-z]{3}[0-9]{2}$").unwrap();
    let cols = columns(&["ab12", "defg34"]);
    let obj = item("test_item");
    assert_eq!(
        column_name_convention("test_item", &cols, &convention, None, &obj, &Severity::Warning, "columns_name_convention"),
        expected(
            &Severity::Warning,
            "columns_name_convention",
            "test_item has columns that do not follow the ^[a-z]{3}[0-9]{2}$ naming convention: ab12, defg34."
        )
    );
}

#[test]
fn test_column_name_convention_invalid_regex_caught_at_parse() {
    let result = NamingConvention::from_pattern(r"*[a-z");
    assert!(result.is_err());
}

#[test]
fn test_no_metadata() {
    let obj = ManifestObject::new("model.test.obj", "Test Object", RuleTarget::Models, "path/to/object");
    let result = has_metadata_keys(
        &obj,
        &vec!["key1".to_string(), "key2".to_string()],
        None,
        &Severity::Warning,
        "has_metadata_keys",
    );
    assert!(result.is_some(), "Has no metadata should return a RuleResult.");
    assert_eq!(result.unwrap().message, "Test Object is missing metadata entirely.");
}

#[test]
fn missing_metadata_keys_are_listed_or_replaced_by_custom_message() {
    let mut obj = item("orders");
    obj.meta = Some(vec!["key1".to_string()]);
    let keys = vec!["key1".to_string(), "key2".to_string(), "key3".to_string()];
    let r = has_metadata_keys(&obj, &keys, None, &Severity::Error, "meta").unwrap();
    assert_eq!(r.message, "orders is missing required metadata keys: key2, key3.");
    let custom = "needs an owner".to_string();
    let r = has_metadata_keys(&obj, &keys, Some(&custom), &Severity::Error, "meta").unwrap();
    assert_eq!(r.message, "orders needs an owner");
    obj.meta = Some(keys.clone());
    assert_eq!(has_metadata_keys(&obj, &keys, None, &Severity::Error, "meta"), None);
}

#[test]
fn logical_types_from_raw_warehouse_names() {
    assert_eq!(parse_logical_type("ARRAY<VARCHAR>"), Some(LogicalType::Array));
    assert_eq!(parse_logical_type("int4"), Some(LogicalType::Integer));
    assert_eq!(parse_logical_type("totally_unknown"), None);
    assert_eq!(parse_logical_type("decimal(10,2)"), Some(LogicalType::Decimal));
    assert_eq!(parse_logical_type("Character Varying(255)"), Some(LogicalType::Varchar));
    assert_eq!(parse_logical_type("TIMESTAMPTZ"), Some(LogicalType::TimestampTz));
    assert_eq!(parse_logical_type("int2"), Some(LogicalType::SmallInt));
    assert_eq!(parse_logical_type("int8"), Some(LogicalType::BigInt));
    assert_eq!(parse_logical_type("double precision"), Some(LogicalType::Double));
    assert_eq!(parse_logical_type("super"), Some(LogicalType::Variant));
    assert_eq!(parse_logical_type("datetime2"), Some(LogicalType::DateTime));
    assert_eq!(parse_logical_type("NVARCHAR"), Some(LogicalType::Varchar));
    assert_eq!(parse_logical_type("struct"), Some(LogicalType::Object));
    assert_eq!(parse_logical_type("number(38,0)"), Some(LogicalType::Decimal));
    assert_eq!(parse_logical_type(""), None);
    assert_eq!(strip_parameters("varchar(10)"), "varchar");
    assert_eq!(LogicalType::from_name("big_int"), Some(LogicalType::BigInt));
    assert_eq!(LogicalType::from_name("bigint"), None);
}

fn metadata_object(keys: &[&str]) -> ManifestObject {
    let mut obj = ManifestObject::new("model.test.obj", "Test Object", RuleTarget::Models, "path/to/object");
    obj.meta = Some(keys.iter().map(|k| (*k).to_string()).collect());
    obj
}

#[test]
fn test_missing_metadata_keys() {
    let obj = metadata_object(&["key1"]);
    let result = has_metadata_keys(&obj, &vec!["key1".to_string(), "key2".to_string()], None, &Severity::Warning, "has_metadata_keys");
    assert!(result.is_some(), "Expected missing keys, but got none.");
    assert_eq!(result.unwrap().message, "Test Object is missing required metadata keys: key2.");
}

#[test]
fn test_all_metadata_keys_present() {
    let obj = metadata_object(&["key1", "key2"]);
    let result = has_metadata_keys(&obj, &vec!["key1".to_string(), "key2".to_string()], None, &Severity::Warning, "has_metadata_keys");
    assert!(result.is_none(), "Expected no missing keys, but got some.");
}

#[test]
fn test_custom_message() {
    let obj = metadata_object(&["key1"]);
    let custom = "Custom missing keys message.".to_string();
    let result = has_metadata_keys(
        &obj,
        &vec!["key1".to_string(), "key2".to_string()],
        Some(&custom),
        &Severity::Warning,
        "has_metadata_keys",
    );
    assert!(result.is_some(), "Expected missing keys, but got none.");
    assert_eq!(result.unwrap().message, "Test Object Custom missing keys message.");
}
