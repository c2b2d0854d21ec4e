use dbtective::engine::apply_manifest_rules;
use dbtective::finding::RuleResult;
use dbtective::materialization::Materialization;
use dbtective::objects::{Manifest, ManifestObject};
use dbtective::rules::{ManifestRule, ManifestRuleKind};
use dbtective::severity::Severity;
use dbtective::targets::RuleTarget;

fn model(name: &str, materialized: &str) -> ManifestObject {
    let mut m = ManifestObject::new(
        &format!("model.test_project.{name}"),
        name,
        RuleTarget::Models,
        &format!("models/{name}.sql"),
    );
    m.description = Some(String::new());
    m.materialization = Some(Materialization::parse(materialized));
    m
}

fn manifest_with_materializations() -> Manifest {
    let mut seed = ManifestObject::new("seed.test_project.my_seed", "my_seed", RuleTarget::Seeds, "seeds/my_seed.csv");
    seed.description = Some(String::new());
    Manifest {
        objects: vec![
            model("table_model", "table"),
            model("view_model", "view"),
            model("incremental_model", "incremental"),
            seed,
        ],
    }
}

fn description_rule(name: &str, applies_to: Vec<RuleTarget>, materializations: Option<&[&str]>) -> ManifestRule {
    ManifestRule {
        name: Some(name.to_string()),
        severity: Severity::Error,
        description: None,
        applies_to: Some(applies_to),
        includes: None,
        excludes: None,
        model_materializations: materializations.map(|ms| ms.iter().map(|m| Materialization::parse(m)).collect()),
        kind: ManifestRuleKind::HasDescription,
    }
}

fn run(rule: ManifestRule) -> Vec<(RuleResult, Severity)> {
    apply_manifest_rules(&manifest_with_materializations(), &vec![rule])
}

#[test]
fn test_materialization_filter_table_only() {
    let findings = run(description_rule("table_models_have_description", vec![RuleTarget::Models], Some(&["table"])));
    assert_eq!(findings.len(), 1, "Expected 1 finding only for table model");
}

#[test]
fn test_materialization_filter_view_only() {
    let findings = run(description_rule("view_models_have_description", vec![RuleTarget::Models], Some(&["view"])));
    assert_eq!(findings.len(), 1, "Expected 1 finding for view model only");
}

#[test]
fn test_materialization_filter_multiple() {
    let findings = run(description_rule(
        "table_and_view_models_have_description",
        vec![RuleTarget::Models],
        Some(&["table", "view"]),
    ));
    assert_eq!(findings.len(), 2, "Expected 2 findings for table and view models");
}

#[test]
fn test_materialization_filter_incremental() {
    let findings = run(description_rule("incremental_models_have_description", vec![RuleTarget::Models], Some(&["incremental"])));
    assert_eq!(findings.len(), 1, "Expected 1 finding for incremental model only");
}

#[test]
fn test_no_materialization_filter_applies_to_all_models() {
    let findings = run(description_rule("all_models_have_description", vec![RuleTarget::Models], None));
    assert_eq!(findings.len(), 3, "Expected 3 findings for all models when no materialization filter");
}

#[test]
fn test_materialization_filter_with_other_objects() {
    let findings = run(description_rule(
        "models_and_seeds_have_description",
        vec![RuleTarget::Models, RuleTarget::Seeds],
        Some(&["table"]),
    ));
    assert_eq!(
        findings.len(),
        2,
        "Expected 2 findings: 1 for table model, 1 for seed (seeds ignore materialization filter)"
    );
}

#[test]
fn test_materialization_filter_no_match() {
    let findings = run(description_rule("ephemeral_models_have_description", vec![RuleTarget::Models], Some(&["ephemeral"])));
    assert_eq!(findings.len(), 0, "Expected 0 findings when no models match the materialization filter");
}
