use vstd::prelude::*;
use crate::engine::{default_applies_to_for_catalog_rule, default_applies_to_for_rule, default_catalog_targets, default_manifest_targets};
use crate::naming_convention::PatternError;
use crate::rules::{CatalogRule, ManifestRule, ManifestRuleKind, HasTagsCriteria};
use crate::severity::Severity;
use crate::targets::{all_targets, contains_target, target_tag, targets_contain, RuleTarget};
use crate::text::{str_equal, views};

verus! {

/// Why a configuration was refused.
#[derive(Debug, Clone, PartialEq, Eq)]
pub enum ConfigError {
    /// A rule lists no targets at all.
    EmptyAppliesTo { rule: String },
    /// A target tag that names no target.
    UnknownTarget { target: String },
    /// A target that the rule's kind cannot audit.
    TargetNotAllowed { rule: String, target: RuleTarget },
    /// A pattern that does not compile.
    InvalidPattern(PatternError),
}

impl ConfigError {
    /// A message for users that names the offending value.
    pub fn message(&self) -> (r: String)
        ensures
            r@ == match *self {
                ConfigError::EmptyAppliesTo { rule } => "Rule '"@ + rule@ + "' has an empty applies_to list"@,
                ConfigError::UnknownTarget { target } => "Unknown applies_to target '"@ + target@ + "'"@,
                ConfigError::TargetNotAllowed { rule, target } => "Rule '"@ + rule@ + "' cannot apply to '"@
                    + target_tag(target) + "'"@,
                ConfigError::InvalidPattern(e) => "Invalid regex pattern '"@ + e.pattern@ + "'"@,
            },
    {
        match self {
            ConfigError::EmptyAppliesTo { rule } => {
                let mut m = String::from_str("Rule '");
                m.append(rule.as_str());
                m.append("' has an empty applies_to list");
                m
            },
            ConfigError::UnknownTarget { target } => {
                let mut m = String::from_str("Unknown applies_to target '");
                m.append(target.as_str());
                m.append("'");
                m
            },
            ConfigError::TargetNotAllowed { rule, target } => {
                let mut m = String::from_str("Rule '");
                m.append(rule.as_str());
                m.append("' cannot apply to '");
                m.append(target.tag());
                m.append("'");
                m
            },
            ConfigError::InvalidPattern(e) => e.message(),
        }
    }
}

/// The target that a configuration tag names.
pub open spec fn target_of_tag(s: Seq<char>) -> Option<RuleTarget> {
    if s == "models"@ { Some(RuleTarget::Models) }
    else if s == "seeds"@ { Some(RuleTarget::Seeds) }
    else if s == "sources"@ { Some(RuleTarget::Sources) }
    else if s == "macros"@ { Some(RuleTarget::Macros) }
    else if s == "metrics"@ { Some(RuleTarget::Metrics) }
    else if s == "exposures"@ { Some(RuleTarget::Exposures) }
    else if s == "semantic_models"@ { Some(RuleTarget::SemanticModels) }
    else if s == "saved_queries"@ { Some(RuleTarget::SavedQueries) }
    else if s == "tests"@ { Some(RuleTarget::Tests) }
    else if s == "analyses"@ { Some(RuleTarget::Analyses) }
    else if s == "snapshots"@ { Some(RuleTarget::Snapshots) }
    else if s == "hook_nodes"@ { Some(RuleTarget::HookNodes) }
    else if s == "sql_operations"@ { Some(RuleTarget::SqlOperations) }
    else { None }
}

impl RuleTarget {
    /// Reads a configuration tag such as `models`.
    pub fn from_tag(s: &str) -> (r: Option<RuleTarget>)
        ensures
            r == target_of_tag(s@),
    {
        if str_equal(s, "models") { Some(RuleTarget::Models) }
        else if str_equal(s, "seeds") { Some(RuleTarget::Seeds) }
        else if str_equal(s, "sources") { Some(RuleTarget::Sources) }
        else if str_equal(s, "macros") { Some(RuleTarget::Macros) }
        else if str_equal(s, "metrics") { Some(RuleTarget::Metrics) }
        else if str_equal(s, "exposures") { Some(RuleTarget::Exposures) }
        else if str_equal(s, "semantic_models") { Some(RuleTarget::SemanticModels) }
        else if str_equal(s, "saved_queries") { Some(RuleTarget::SavedQueries) }
        else if str_equal(s, "tests") { Some(RuleTarget::Tests) }
        else if str_equal(s, "analyses") { Some(RuleTarget::Analyses) }
        else if str_equal(s, "snapshots") { Some(RuleTarget::Snapshots) }
        else if str_equal(s, "hook_nodes") { Some(RuleTarget::HookNodes) }
        else if str_equal(s, "sql_operations") { Some(RuleTarget::SqlOperations) }
        else { None }
    }
}

impl Severity {
    /// Reads a configured severity, `error` or `warning`.
    pub fn from_name(s: &str) -> (r: Option<Severity>)
        ensures
            r == (if s@ == "error"@ {
                Some(Severity::Error)
            } else if s@ == "warning"@ {
                Some(Severity::Warning)
            } else {
                None
            }),
    {
        if str_equal(s, "error") {
            Some(Severity::Error)
        } else if str_equal(s, "warning") {
            Some(Severity::Warning)
        } else {
            None
        }
    }
}

impl HasTagsCriteria {
    /// Reads a configured criterion: `all`, `any` or `one_of`.
    pub fn from_name(s: &str) -> (r: Option<HasTagsCriteria>)
        ensures
            r == (if s@ == "all"@ {
                Some(HasTagsCriteria::All)
            } else if s@ == "any"@ {
                Some(HasTagsCriteria::Any)
            } else if s@ == "one_of"@ {
                Some(HasTagsCriteria::OneOf)
            } else {
                None
            }),
    {
        if str_equal(s, "all") {
            Some(HasTagsCriteria::All)
        } else if str_equal(s, "any") {
            Some(HasTagsCriteria::Any)
        } else if str_equal(s, "one_of") {
            Some(HasTagsCriteria::OneOf)
        } else {
            None
        }
    }
}

/// Whether every tag of `tags` names a target.
pub open spec fn all_tags_known(tags: Seq<Seq<char>>) -> bool {
    forall|i: int| 0 <= i < tags.len() ==> (#[trigger] target_of_tag(tags[i])) is Some
}

/// Reads a configured `applies_to` list; an empty list or an unknown tag is an error.
pub fn parse_applies_to(tags: &Vec<String>, rule_name: &str) -> (r: Result<Vec<RuleTarget>, ConfigError>)
    ensures
        r is Ok <==> tags@.len() > 0 && all_tags_known(views(tags@)),
        r matches Ok(v) ==> v@.len() == tags@.len() && forall|i: int|
            0 <= i < v@.len() ==> Some(#[trigger] v@[i]) == target_of_tag(tags@[i]@),
        tags@.len() == 0 ==> (r matches Err(ConfigError::EmptyAppliesTo { rule }) && rule@ == rule_name@),
        tags@.len() > 0 && !all_tags_known(views(tags@)) ==> (r matches Err(ConfigError::UnknownTarget { target })
            && target_of_tag(target@) is None && exists|i: int| 0 <= i < tags@.len() && tags@[i]@ == target@),
{
    if tags.len() == 0 {
        return Err(ConfigError::EmptyAppliesTo { rule: String::from_str(rule_name) });
    }
    let mut out: Vec<RuleTarget> = Vec::new();
    let mut i: usize = 0;
    while i < tags.len()
        invariant
            i <= tags@.len(),
            out@.len() == i,
            forall|j: int| 0 <= j < i ==> Some(#[trigger] out@[j]) == target_of_tag(tags@[j]@),
        decreases tags@.len() - i,
    {
        match RuleTarget::from_tag(tags[i].as_str()) {
            Some(t) => out.push(t),
            None => {
                proof {
                    assert(target_of_tag(views(tags@)[i as int]) is None);
                }
                return Err(ConfigError::UnknownTarget { target: String::from_str(tags[i].as_str()) });
            },
        }
        i += 1;
    }
    proof {
        assert forall|j: int| 0 <= j < views(tags@).len() implies (#[trigger] target_of_tag(views(tags@)[j])) is Some by {
            assert(Some(out@[j]) == target_of_tag(tags@[j]@));
        }
    }
    Ok(out)
}

/// The targets a manifest rule kind can audit: uniqueness tests concern
/// tables only, the other kinds any object.
pub open spec fn allowed_manifest_targets(k: ManifestRuleKind) -> Seq<RuleTarget> {
    match k {
        ManifestRuleKind::HasUniqueTest { .. } => seq![RuleTarget::Models, RuleTarget::Seeds, RuleTarget::Snapshots, RuleTarget::Sources],
        _ => all_targets(),
    }
}

/// The targets a catalog rule can audit: those the catalog describes.
pub open spec fn allowed_catalog_targets() -> Seq<RuleTarget> {
    default_catalog_targets()
}

fn allowed_manifest_targets_exec(k: &ManifestRuleKind) -> (r: Vec<RuleTarget>)
    ensures
        r@ == allowed_manifest_targets(*k),
{
    let r = match k {
        ManifestRuleKind::HasUniqueTest { .. } => vec![RuleTarget::Models, RuleTarget::Seeds, RuleTarget::Snapshots, RuleTarget::Sources],
        _ => vec![
            RuleTarget::Models,
            RuleTarget::Seeds,
            RuleTarget::Sources,
            RuleTarget::Macros,
            RuleTarget::Metrics,
            RuleTarget::Exposures,
            RuleTarget::SemanticModels,
            RuleTarget::SavedQueries,
            RuleTarget::Tests,
            RuleTarget::Analyses,
            RuleTarget::Snapshots,
            RuleTarget::HookNodes,
            RuleTarget::SqlOperations,
        ],
    };
    assert(r@ =~= allowed_manifest_targets(*k));
    r
}

/// Whether a configured target list is usable: not empty, and each target allowed.
pub open spec fn applies_to_valid(a: Option<Vec<RuleTarget>>, allowed: Seq<RuleTarget>) -> bool {
    match a {
        None => true,
        Some(v) => v@.len() > 0 && forall|i: int| 0 <= i < v@.len() ==> targets_contain(allowed, #[trigger] v@[i]),
    }
}

pub open spec fn manifest_rules_valid(rs: Seq<ManifestRule>) -> bool {
    forall|i: int| 0 <= i < rs.len() ==> applies_to_valid(#[trigger] rs[i].applies_to, allowed_manifest_targets(rs[i].kind))
}

pub open spec fn catalog_rules_valid(rs: Seq<CatalogRule>) -> bool {
    forall|i: int| 0 <= i < rs.len() ==> applies_to_valid(#[trigger] rs[i].applies_to, allowed_catalog_targets())
}

/// The error for a rule's targets, if they are not usable.
fn check_applies_to(a: &Option<Vec<RuleTarget>>, allowed: &Vec<RuleTarget>, rule_name: &str) -> (r: Result<(), ConfigError>)
    ensures
        r is Ok <==> applies_to_valid(*a, allowed@),
        r matches Err(ConfigError::EmptyAppliesTo { rule }) ==> rule@ == rule_name@,
        r matches Err(ConfigError::TargetNotAllowed { rule, target }) ==> rule@ == rule_name@ && !targets_contain(allowed@, target),
        r matches Err(e) ==> (e is EmptyAppliesTo || e is TargetNotAllowed),
{
    match a {
        None => Ok(()),
        Some(v) => {
            if v.len() == 0 {
                return Err(ConfigError::EmptyAppliesTo { rule: String::from_str(rule_name) });
            }
            let mut i: usize = 0;
            while i < v.len()
                invariant
                    i <= v@.len(),
                    *a == Some(*v),
                    forall|j: int| 0 <= j < i ==> targets_contain(allowed@, #[trigger] v@[j]),
                decreases v@.len() - i,
            {
                if !contains_target(allowed, v[i]) {
                    assert(!targets_contain(allowed@, v@[i as int]));
                    return Err(ConfigError::TargetNotAllowed { rule: String::from_str(rule_name), target: v[i] });
                }
                i += 1;
            }
            Ok(())
        },
    }
}

/// A rule after defaults are filled in: unchanged but for `applies_to`,
/// which becomes the kind's default set where it was absent.
pub open spec fn manifest_rule_filled(before: ManifestRule, after: ManifestRule) -> bool {
    &&& after.name == before.name
    &&& after.severity == before.severity
    &&& after.description == before.description
    &&& after.includes == before.includes
    &&& after.excludes == before.excludes
    &&& after.model_materializations == before.model_materializations
    &&& after.kind == before.kind
    &&& match before.applies_to {
        Some(v) => after.applies_to == Some(v),
        None => after.applies_to matches Some(d) && d@ == default_manifest_targets(before.kind),
    }
}

pub open spec fn catalog_rule_filled(before: CatalogRule, after: CatalogRule) -> bool {
    &&& after.name == before.name
    &&& after.severity == before.severity
    &&& after.description == before.description
    &&& after.includes == before.includes
    &&& after.excludes == before.excludes
    &&& after.model_materializations == before.model_materializations
    &&& after.kind == before.kind
    &&& match before.applies_to {
        Some(v) => after.applies_to == Some(v),
        None => after.applies_to matches Some(d) && d@ == default_catalog_targets(),
    }
}

/// Fills in each absent `applies_to` with its kind's default set, keeping the order of the rules.
pub fn fill_manifest_defaults(rules: Vec<ManifestRule>) -> (r: Vec<ManifestRule>)
    ensures
        r@.len() == rules@.len(),
        forall|i: int| 0 <= i < r@.len() ==> manifest_rule_filled(rules@[i], #[trigger] r@[i]),
{
    let ghost n = rules@.len();
    let mut rest = rules;
    let mut reversed: Vec<ManifestRule> = Vec::new();
    while rest.len() > 0
        invariant
            n == rules@.len(),
            rest@.len() + reversed@.len() == n,
            rest@ == rules@.subrange(0, rest@.len() as int),
            forall|k: int| 0 <= k < reversed@.len() ==> #[trigger] reversed@[k] == rules@[n - 1 - k],
        decreases rest@.len(),
    {
        let ghost before = rest@;
        let rule = rest.pop().unwrap();
        proof {
            assert(rest@ =~= rules@.subrange(0, rest@.len() as int));
            assert(rule == rules@[rest@.len() as int]);
        }
        reversed.push(rule);
    }
    let mut out: Vec<ManifestRule> = Vec::new();
    while reversed.len() > 0
        invariant
            n == rules@.len(),
            reversed@.len() + out@.len() == n,
            forall|k: int| 0 <= k < reversed@.len() ==> #[trigger] reversed@[k] == rules@[n - 1 - k],
            forall|k: int| 0 <= k < out@.len() ==> manifest_rule_filled(rules@[k], #[trigger] out@[k]),
        decreases reversed@.len(),
    {
        let mut rule = reversed.pop().unwrap();
        if rule.applies_to.is_none() {
            rule.applies_to = Some(default_applies_to_for_rule(&rule.kind));
        }
        out.push(rule);
    }
    out
}

/// Fills in each absent `applies_to` of catalog rules with the default set.
pub fn fill_catalog_defaults(rules: Vec<CatalogRule>) -> (r: Vec<CatalogRule>)
    ensures
        r@.len() == rules@.len(),
        forall|i: int| 0 <= i < r@.len() ==> catalog_rule_filled(rules@[i], #[trigger] r@[i]),
{
    let ghost n = rules@.len();
    let mut rest = rules;
    let mut reversed: Vec<CatalogRule> = Vec::new();
    while rest.len() > 0
        invariant
            n == rules@.len(),
            rest@.len() + reversed@.len() == n,
            rest@ == rules@.subrange(0, rest@.len() as int),
            forall|k: int| 0 <= k < reversed@.len() ==> #[trigger] reversed@[k] == rules@[n - 1 - k],
        decreases rest@.len(),
    {
        let ghost before = rest@;
        let rule = rest.pop().unwrap();
        proof {
            assert(rest@ =~= rules@.subrange(0, rest@.len() as int));
            assert(rule == rules@[rest@.len() as int]);
        }
        reversed.push(rule);
    }
    let mut out: Vec<CatalogRule> = Vec::new();
    while reversed.len() > 0
        invariant
            n == rules@.len(),
            reversed@.len() + out@.len() == n,
            forall|k: int| 0 <= k < reversed@.len() ==> #[trigger] reversed@[k] == rules@[n - 1 - k],
            forall|k: int| 0 <= k < out@.len() ==> catalog_rule_filled(rules@[k], #[trigger] out@[k]),
        decreases reversed@.len(),
    {
        let mut rule = reversed.pop().unwrap();
        if rule.applies_to.is_none() {
            rule.applies_to = Some(default_applies_to_for_catalog_rule(&rule.kind));
        }
        out.push(rule);
    }
    out
}

/// The rule configuration: manifest rules and catalog rules.
#[derive(Debug)]
pub struct Config {
    pub manifest_tests: Option<Vec<ManifestRule>>,
    pub catalog_tests: Option<Vec<CatalogRule>>,
}

pub open spec fn manifest_rules_of(c: Config) -> Seq<ManifestRule> {
    match c.manifest_tests {
        Some(v) => v@,
        None => seq![],
    }
}

pub open spec fn catalog_rules_of(c: Config) -> Seq<CatalogRule> {
    match c.catalog_tests {
        Some(v) => v@,
        None => seq![],
    }
}

impl Config {
    /// Fills in the default `applies_to` of every rule that has none.
    pub fn clean_config(&mut self)
        ensures
            final(self).manifest_tests is Some <==> old(self).manifest_tests is Some,
            final(self).catalog_tests is Some <==> old(self).catalog_tests is Some,
            manifest_rules_of(*final(self)).len() == manifest_rules_of(*old(self)).len(),
            catalog_rules_of(*final(self)).len() == catalog_rules_of(*old(self)).len(),
            forall|i: int| 0 <= i < manifest_rules_of(*final(self)).len() ==> manifest_rule_filled(
                manifest_rules_of(*old(self))[i],
                #[trigger] manifest_rules_of(*final(self))[i],
            ),
            forall|i: int| 0 <= i < catalog_rules_of(*final(self)).len() ==> catalog_rule_filled(
                catalog_rules_of(*old(self))[i],
                #[trigger] catalog_rules_of(*final(self))[i],
            ),
    {
        match self.manifest_tests.take() {
            Some(rules) => {
                self.manifest_tests = Some(fill_manifest_defaults(rules));
            },
            None => {},
        }
        match self.catalog_tests.take() {
            Some(rules) => {
                self.catalog_tests = Some(fill_catalog_defaults(rules));
            },
            None => {},
        }
    }

    /// Checks every rule's `applies_to`: it must not be empty, and each
    /// target must be one that the rule's kind can audit.
    pub fn validate(&self) -> (r: Result<(), ConfigError>)
        ensures
            r is Ok <==> manifest_rules_valid(manifest_rules_of(*self)) && catalog_rules_valid(catalog_rules_of(*self)),
            r matches Err(e) ==> (e is EmptyAppliesTo || e is TargetNotAllowed),
    {
        match &self.manifest_tests {
            Some(rules) => {
                let mut i: usize = 0;
                while i < rules.len()
                    invariant
                        i <= rules@.len(),
                        manifest_rules_of(*self) == rules@,
                        forall|j: int| 0 <= j < i ==> applies_to_valid(#[trigger] rules@[j].applies_to, allowed_manifest_targets(rules@[j].kind)),
                    decreases rules@.len() - i,
                {
                    let allowed = allowed_manifest_targets_exec(&rules[i].kind);
                    match check_applies_to(&rules[i].applies_to, &allowed, rules[i].get_name()) {
                        Ok(()) => {},
                        Err(e) => {
                            return Err(e);
                        },
                    }
                    i += 1;
                }
            },
            None => {},
        }
        match &self.catalog_tests {
            Some(rules) => {
                let allowed = default_applies_to_for_catalog_rule(&crate::rules::CatalogRuleKind::ColumnsAllDocumented);
                let mut i: usize = 0;
                while i < rules.len()
                    invariant
                        i <= rules@.len(),
                        allowed@ == allowed_catalog_targets(),
                        catalog_rules_of(*self) == rules@,
                        forall|j: int| 0 <= j < i ==> applies_to_valid(#[trigger] rules@[j].applies_to, allowed_catalog_targets()),
                    decreases rules@.len() - i,
                {
                    match check_applies_to(&rules[i].applies_to, &allowed, rules[i].get_name()) {
                        Ok(()) => {},
                        Err(e) => {
                            return Err(e);
                        },
                    }
                    i += 1;
                }
            },
            None => {},
        }
        Ok(())
    }
}

} // verus!
