use vstd::prelude::*;
use crate::catalog_evaluators::{
    all_documented_message, canonical_message, column_convention_message, columns_all_documented,
    columns_canonical_name, columns_have_description, column_name_convention, have_description_message,
    };
use crate::evaluators::{
    check_name_convention, convention_message, description_message, finding_is, has_description,
    has_metadata_keys, has_tags, has_unique_test, meta_view, metadata_message, outcome_is, tags_message,
    unique_test_message,
};
use crate::finding::RuleResult;
use crate::materialization::{contains_materialization, materializations_contain, Materialization};
use crate::objects::{
    catalog_node_base, find_object, Catalog, CatalogColumn, CatalogNode, Manifest, ManifestObject,
};
use crate::path_matcher::{path_selected, should_select};
use crate::rules::{catalog_rule_name, manifest_rule_name, CatalogRule, CatalogRuleKind, ManifestRule, ManifestRuleKind};
use crate::severity::Severity;
use crate::targets::{contains_target, targets_contain, RuleTarget};
use crate::text::views;

verus! {

/// The targets a manifest rule applies to when the configuration names none.
pub open spec fn default_manifest_targets(k: ManifestRuleKind) -> Seq<RuleTarget> {
    match k {
        ManifestRuleKind::HasDescription => seq![RuleTarget::Models, RuleTarget::Seeds, RuleTarget::Sources, RuleTarget::Macros],
        ManifestRuleKind::NameConvention { .. } => seq![
            RuleTarget::Models,
            RuleTarget::Seeds,
            RuleTarget::Sources,
            RuleTarget::Macros,
            RuleTarget::Exposures,
            RuleTarget::Snapshots,
        ],
        ManifestRuleKind::HasTags { .. } => seq![RuleTarget::Models, RuleTarget::Seeds, RuleTarget::Sources, RuleTarget::Snapshots],
        ManifestRuleKind::HasMetadataKeys { .. } => seq![RuleTarget::Models, RuleTarget::Seeds, RuleTarget::Sources, RuleTarget::Snapshots],
        ManifestRuleKind::HasUniqueTest { .. } => seq![RuleTarget::Models, RuleTarget::Seeds, RuleTarget::Snapshots, RuleTarget::Sources],
    }
}

/// The targets a catalog rule applies to when the configuration names none:
/// the objects that the catalog describes.
pub open spec fn default_catalog_targets() -> Seq<RuleTarget> {
    seq![RuleTarget::Models, RuleTarget::Seeds, RuleTarget::Snapshots, RuleTarget::Sources]
}

pub fn default_applies_to_for_rule(kind: &ManifestRuleKind) -> (r: Vec<RuleTarget>)
    ensures
        r@ == default_manifest_targets(*kind),
{
    let r = match kind {
        ManifestRuleKind::HasDescription => vec![RuleTarget::Models, RuleTarget::Seeds, RuleTarget::Sources, RuleTarget::Macros],
        ManifestRuleKind::NameConvention { .. } => vec![
            RuleTarget::Models,
            RuleTarget::Seeds,
            RuleTarget::Sources,
            RuleTarget::Macros,
            RuleTarget::Exposures,
            RuleTarget::Snapshots,
        ],
        ManifestRuleKind::HasTags { .. } => vec![RuleTarget::Models, RuleTarget::Seeds, RuleTarget::Sources, RuleTarget::Snapshots],
        ManifestRuleKind::HasMetadataKeys { .. } => vec![RuleTarget::Models, RuleTarget::Seeds, RuleTarget::Sources, RuleTarget::Snapshots],
        ManifestRuleKind::HasUniqueTest { .. } => vec![RuleTarget::Models, RuleTarget::Seeds, RuleTarget::Snapshots, RuleTarget::Sources],
    };
    assert(r@ =~= default_manifest_targets(*kind));
    r
}

pub fn default_applies_to_for_catalog_rule(kind: &CatalogRuleKind) -> (r: Vec<RuleTarget>)
    ensures
        r@ == default_catalog_targets(),
{
    let r = vec![RuleTarget::Models, RuleTarget::Seeds, RuleTarget::Snapshots, RuleTarget::Sources];
    assert(r@ =~= default_catalog_targets());
    r
}

/// The targets a manifest rule applies to.
pub open spec fn manifest_rule_targets(rule: ManifestRule) -> Seq<RuleTarget> {
    match rule.applies_to {
        Some(v) => v@,
        None => default_manifest_targets(rule.kind),
    }
}

pub open spec fn catalog_rule_targets(rule: CatalogRule) -> Seq<RuleTarget> {
    match rule.applies_to {
        Some(v) => v@,
        None => default_catalog_targets(),
    }
}

pub open spec fn patterns_of(o: Option<Vec<String>>) -> Seq<Seq<char>> {
    match o {
        Some(v) => views(v@),
        None => seq![],
    }
}

/// The materialization gate: an object whose materialization is known and
/// not among the configured ones is skipped.
pub open spec fn materialization_allowed(allowed: Option<Vec<Materialization>>, m: Option<Materialization>) -> bool {
    match (allowed, m) {
        (Some(ms), Some(x)) => materializations_contain(ms@, x),
        _ => true,
    }
}

/// Whether a rule with these gates runs on an object.
pub open spec fn in_scope(
    targets: Seq<RuleTarget>,
    materializations: Option<Vec<Materialization>>,
    includes: Option<Vec<String>>,
    excludes: Option<Vec<String>>,
    obj: ManifestObject,
) -> bool {
    &&& targets_contain(targets, obj.target)
    &&& materialization_allowed(materializations, obj.materialization)
    &&& path_selected(obj.relative_path@, patterns_of(includes), patterns_of(excludes))
}

fn passes_gates(
    applies_to: &Option<Vec<RuleTarget>>,
    defaults: &Vec<RuleTarget>,
    materializations: &Option<Vec<Materialization>>,
    includes: &Option<Vec<String>>,
    excludes: &Option<Vec<String>>,
    obj: &ManifestObject,
) -> (r: bool)
    ensures
        r == in_scope(
            match *applies_to {
                Some(v) => v@,
                None => defaults@,
            },
            *materializations,
            *includes,
            *excludes,
            *obj,
        ),
{
    let applies = match applies_to {
        Some(v) => contains_target(v, obj.target),
        None => contains_target(defaults, obj.target),
    };
    if !applies {
        return false;
    }
    let mat_ok = match (materializations, &obj.materialization) {
        (Some(ms), Some(m)) => contains_materialization(ms, m),
        _ => true,
    };
    if !mat_ok {
        return false;
    }
    let inc = match includes {
        Some(v) => Some(v),
        None => None,
    };
    let exc = match excludes {
        Some(v) => Some(v),
        None => None,
    };
    should_select(obj.relative_path.as_str(), inc, exc)
}

/// What a manifest rule reports on an object: nothing when out of scope,
/// else the message of its evaluator, if any.
pub open spec fn manifest_pair_message(obj: ManifestObject, rule: ManifestRule, all: Seq<ManifestObject>) -> Option<Seq<char>> {
    if !in_scope(manifest_rule_targets(rule), rule.model_materializations, rule.includes, rule.excludes, obj) {
        None
    } else {
        match rule.kind {
            ManifestRuleKind::HasDescription => description_message(obj),
            ManifestRuleKind::NameConvention { convention } => convention_message(obj.name@, convention.regex_source(), convention.display_name()),
            ManifestRuleKind::HasTags { required_tags, criteria } => tags_message(obj.name@, views(obj.tags@), views(required_tags@), criteria),
            ManifestRuleKind::HasMetadataKeys { required_keys, custom_message } => metadata_message(
                obj.name@,
                meta_view(obj.meta),
                views(required_keys@),
                match custom_message {
                    Some(c) => Some(c@),
                    None => None,
                },
            ),
            ManifestRuleKind::HasUniqueTest { allowed_test_names } => unique_test_message(obj, all, views(allowed_test_names@)),
        }
    }
}

/// Applies one manifest rule to one object.
pub fn evaluate_manifest_rule(obj: &ManifestObject, rule: &ManifestRule, all: &Vec<ManifestObject>) -> (r: Option<RuleResult>)
    ensures
        outcome_is(r, rule.severity, *obj, manifest_rule_name(*rule), manifest_pair_message(*obj, *rule, all@)),
{
    let defaults = default_applies_to_for_rule(&rule.kind);
    if !passes_gates(&rule.applies_to, &defaults, &rule.model_materializations, &rule.includes, &rule.excludes, obj) {
        return None;
    }
    let name = rule.get_name();
    match &rule.kind {
        ManifestRuleKind::HasDescription => has_description(obj, &rule.severity, name),
        ManifestRuleKind::NameConvention { convention } => check_name_convention(obj, convention, &rule.severity, name),
        ManifestRuleKind::HasTags { required_tags, criteria } => has_tags(obj, required_tags, *criteria, &rule.severity, name),
        ManifestRuleKind::HasMetadataKeys { required_keys, custom_message } => {
            let custom = match custom_message {
                Some(c) => Some(c),
                None => None,
            };
            has_metadata_keys(obj, required_keys, custom, &rule.severity, name)
        },
        ManifestRuleKind::HasUniqueTest { allowed_test_names } => has_unique_test(obj, all, allowed_test_names, &rule.severity, name),
    }
}

/// A finding as the engine describes it: severity, object, rule name and message.
pub type FindingSpec = (Severity, ManifestObject, Seq<char>, Seq<char>);

/// Whether reported findings are, one for one, the described ones.
pub open spec fn findings_are(r: Seq<(RuleResult, Severity)>, s: Seq<FindingSpec>) -> bool {
    &&& r.len() == s.len()
    &&& forall|i: int| 0 <= i < r.len() ==> #[trigger] r[i].1 == s[i].0 && finding_is(r[i].0, s[i].0, s[i].1, s[i].2, s[i].3)
}

/// The findings of the rules, in order, on one object.
pub open spec fn object_findings(obj: ManifestObject, rules: Seq<ManifestRule>, all: Seq<ManifestObject>) -> Seq<FindingSpec>
    decreases rules.len(),
{
    if rules.len() == 0 {
        seq![]
    } else {
        let prev = object_findings(obj, rules.drop_last(), all);
        let rule = rules.last();
        match manifest_pair_message(obj, rule, all) {
            Some(m) => prev.push((rule.severity, obj, manifest_rule_name(rule), m)),
            None => prev,
        }
    }
}

/// The findings of every rule on every object, object by object.
pub open spec fn manifest_findings(objs: Seq<ManifestObject>, rules: Seq<ManifestRule>, all: Seq<ManifestObject>) -> Seq<FindingSpec>
    decreases objs.len(),
{
    if objs.len() == 0 {
        seq![]
    } else {
        manifest_findings(objs.drop_last(), rules, all) + object_findings(objs.last(), rules, all)
    }
}

/// Applies every manifest rule to every object of the manifest, object by
/// object and, for each object, rule by rule.
pub fn apply_manifest_rules(manifest: &Manifest, rules: &Vec<ManifestRule>) -> (r: Vec<(RuleResult, Severity)>)
    ensures
        findings_are(r@, manifest_findings(manifest.objects@, rules@, manifest.objects@)),
{
    let objs = &manifest.objects;
    let mut out: Vec<(RuleResult, Severity)> = Vec::new();
    let mut i: usize = 0;
    while i < objs.len()
        invariant
            i <= objs@.len(),
            findings_are(out@, manifest_findings(objs@.subrange(0, i as int), rules@, objs@)),
        decreases objs@.len() - i,
    {
        let obj = &objs[i];
        let ghost base = manifest_findings(objs@.subrange(0, i as int), rules@, objs@);
        let mut j: usize = 0;
        while j < rules.len()
            invariant
                i < objs@.len(),
                j <= rules@.len(),
                *obj == objs@[i as int],
                findings_are(out@, base + object_findings(*obj, rules@.subrange(0, j as int), objs@)),
            decreases rules@.len() - j,
        {
            let rule = &rules[j];
            let ghost before = out@;
            proof {
                assert(rules@.subrange(0, j + 1).drop_last() =~= rules@.subrange(0, j as int));
            }
            match evaluate_manifest_rule(obj, rule, objs) {
                Some(f) => {
                    out.push((f, rule.severity));
                    proof {
                        let s = base + object_findings(*obj, rules@.subrange(0, j + 1), objs@);
                        let s0 = base + object_findings(*obj, rules@.subrange(0, j as int), objs@);
                        assert(s =~= s0.push((rule.severity, *obj, manifest_rule_name(*rule), manifest_pair_message(*obj, *rule, objs@)->Some_0)));
                        assert forall|k: int| 0 <= k < out@.len() implies #[trigger] out@[k].1 == s[k].0
                            && finding_is(out@[k].0, s[k].0, s[k].1, s[k].2, s[k].3) by {
                            if k < before.len() {
                                assert(out@[k] == before[k]);
                            }
                        }
                    }
                },
                None => {
                    proof {
                        assert(base + object_findings(*obj, rules@.subrange(0, j + 1), objs@) =~= base + object_findings(*obj, rules@.subrange(0, j as int), objs@));
                    }
                },
            }
            j += 1;
        }
        proof {
            assert(rules@.subrange(0, rules@.len() as int) =~= rules@);
            assert(objs@.subrange(0, i + 1).drop_last() =~= objs@.subrange(0, i as int));
            assert(objs@.subrange(0, i + 1).last() == objs@[i as int]);
        }
        i += 1;
    }
    proof {
        assert(objs@.subrange(0, objs@.len() as int) =~= objs@);
    }
    out
}

/// What a catalog rule reports on a catalog record and its manifest object.
pub open spec fn catalog_pair_message(
    catalog_name: Seq<char>,
    cols: Seq<CatalogColumn>,
    obj: ManifestObject,
    rule: CatalogRule,
) -> Option<Seq<char>> {
    if !in_scope(catalog_rule_targets(rule), rule.model_materializations, rule.includes, rule.excludes, obj) {
        None
    } else {
        match rule.kind {
            CatalogRuleKind::ColumnsAllDocumented => all_documented_message(obj, cols),
            CatalogRuleKind::ColumnsHaveDescription => have_description_message(catalog_name, cols, obj),
            CatalogRuleKind::ColumnsCanonicalName { canonical, invalid_names } => canonical_message(cols, canonical@, invalid_names@),
            CatalogRuleKind::ColumnsNameConvention { convention, data_types } => column_convention_message(
                catalog_name,
                cols,
                convention.regex_source(),
                convention.display_name(),
                match data_types {
                    Some(v) => Some(v@),
                    None => None,
                },
            ),
        }
    }
}

/// Applies one catalog rule to a catalog record and its manifest object.
pub fn evaluate_catalog_rule(
    catalog_name: &str,
    cols: &Vec<CatalogColumn>,
    obj: &ManifestObject,
    rule: &CatalogRule,
) -> (r: Option<RuleResult>)
    ensures
        outcome_is(r, rule.severity, *obj, catalog_rule_name(*rule), catalog_pair_message(catalog_name@, cols@, *obj, *rule)),
{
    let defaults = default_applies_to_for_catalog_rule(&rule.kind);
    if !passes_gates(&rule.applies_to, &defaults, &rule.model_materializations, &rule.includes, &rule.excludes, obj) {
        return None;
    }
    let name = rule.get_name();
    match &rule.kind {
        CatalogRuleKind::ColumnsAllDocumented => columns_all_documented(cols, obj, &rule.severity, name),
        CatalogRuleKind::ColumnsHaveDescription => columns_have_description(catalog_name, cols, obj, &rule.severity, name),
        CatalogRuleKind::ColumnsCanonicalName { canonical, invalid_names } => columns_canonical_name(
            cols,
            canonical.as_str(),
            invalid_names,
            obj,
            &rule.severity,
            name,
        ),
        CatalogRuleKind::ColumnsNameConvention { convention, data_types } => {
            let filter = match data_types {
                Some(v) => Some(v),
                None => None,
            };
            column_name_convention(catalog_name, cols, convention, filter, obj, &rule.severity, name)
        },
    }
}

/// A catalog record as the engine reads it: identifier, name and columns.
pub type CatalogRecord = (Seq<char>, Seq<char>, Seq<CatalogColumn>);

pub open spec fn node_record(n: CatalogNode) -> CatalogRecord {
    (catalog_node_base(n).unique_id@, catalog_node_base(n).name@, catalog_node_base(n).columns@)
}

/// Every record of the catalog: the nodes, then the sources.
pub open spec fn catalog_records(c: Catalog) -> Seq<CatalogRecord> {
    c.nodes@.map_values(|n: CatalogNode| node_record(n)) + c.sources@.map_values(
        |s: crate::objects::CatalogSource| (s.unique_id@, s.name@, s.columns@),
    )
}

/// The findings of the rules, in order, on one record and its object.
pub open spec fn record_findings(catalog_name: Seq<char>, cols: Seq<CatalogColumn>, obj: ManifestObject, rules: Seq<CatalogRule>) -> Seq<FindingSpec>
    decreases rules.len(),
{
    if rules.len() == 0 {
        seq![]
    } else {
        let prev = record_findings(catalog_name, cols, obj, rules.drop_last());
        let rule = rules.last();
        match catalog_pair_message(catalog_name, cols, obj, rule) {
            Some(m) => prev.push((rule.severity, obj, catalog_rule_name(rule), m)),
            None => prev,
        }
    }
}

/// The findings on one record: none when the manifest has no object with
/// its identifier, else those of the rules on the record and that object.
pub open spec fn reconciled_findings(rec: CatalogRecord, rules: Seq<CatalogRule>, objs: Seq<ManifestObject>) -> Seq<FindingSpec> {
    match find_object(objs, rec.0) {
        Some(k) => record_findings(rec.1, rec.2, objs[k], rules),
        None => seq![],
    }
}

pub open spec fn catalog_findings(recs: Seq<CatalogRecord>, rules: Seq<CatalogRule>, objs: Seq<ManifestObject>) -> Seq<FindingSpec>
    decreases recs.len(),
{
    if recs.len() == 0 {
        seq![]
    } else {
        catalog_findings(recs.drop_last(), rules, objs) + reconciled_findings(recs.last(), rules, objs)
    }
}

/// The identifiers of the records that have no manifest object, in order.
pub open spec fn unmatched_ids(recs: Seq<CatalogRecord>, objs: Seq<ManifestObject>) -> Seq<Seq<char>>
    decreases recs.len(),
{
    if recs.len() == 0 {
        seq![]
    } else {
        let prev = unmatched_ids(recs.drop_last(), objs);
        if find_object(objs, recs.last().0) is None {
            prev.push(recs.last().0)
        } else {
            prev
        }
    }
}

/// The outcome of the catalog rules: the findings, and the identifiers of
/// the catalog records that were skipped for want of a manifest object.
#[derive(Debug)]
pub struct CatalogReport {
    pub findings: Vec<(RuleResult, Severity)>,
    pub unmatched: Vec<String>,
}

fn apply_to_record(
    id: &str,
    name: &str,
    cols: &Vec<CatalogColumn>,
    rules: &Vec<CatalogRule>,
    manifest: &Manifest,
    out: &mut Vec<(RuleResult, Severity)>,
    unmatched: &mut Vec<String>,
    Ghost(prior): Ghost<Seq<FindingSpec>>,
)
    requires
        findings_are(old(out)@, prior),
    ensures
        findings_are(final(out)@, prior + reconciled_findings((id@, name@, cols@), rules@, manifest.objects@)),
        views(final(unmatched)@) == if find_object(manifest.objects@, id@) is None {
            views(old(unmatched)@).push(id@)
        } else {
            views(old(unmatched)@)
        },
{
    let obj = match manifest.get_node(id) {
        Some(o) => o,
        None => {
            let ghost pre = unmatched@;
            unmatched.push(String::from_str(id));
            assert(views(unmatched@) =~= views(pre).push(id@));
            assert(prior + seq![] =~= prior);
            return;
        },
    };
    let ghost k = find_object(manifest.objects@, id@)->Some_0;
    let mut j: usize = 0;
    proof {
        assert(rules@.subrange(0, 0) =~= seq![]);
        assert(prior + seq![] =~= prior);
    }
    while j < rules.len()
        invariant
            j <= rules@.len(),
            *obj == manifest.objects@[k],
            find_object(manifest.objects@, id@) == Some(k),
            findings_are(out@, prior + record_findings(name@, cols@, *obj, rules@.subrange(0, j as int))),
        decreases rules@.len() - j,
    {
        let rule = &rules[j];
        let ghost before = out@;
        proof {
            assert(rules@.subrange(0, j + 1).drop_last() =~= rules@.subrange(0, j as int));
        }
        match evaluate_catalog_rule(name, cols, obj, rule) {
            Some(f) => {
                out.push((f, rule.severity));
                proof {
                    let s = prior + record_findings(name@, cols@, *obj, rules@.subrange(0, j + 1));
                    let s0 = prior + record_findings(name@, cols@, *obj, rules@.subrange(0, j as int));
                    assert(s =~= s0.push((rule.severity, *obj, catalog_rule_name(*rule), catalog_pair_message(name@, cols@, *obj, *rule)->Some_0)));
                    assert forall|i: int| 0 <= i < out@.len() implies #[trigger] out@[i].1 == s[i].0
                        && finding_is(out@[i].0, s[i].0, s[i].1, s[i].2, s[i].3) by {
                        if i < before.len() {
                            assert(out@[i] == before[i]);
                        }
                    }
                }
            },
            None => {
                proof {
                    assert(prior + record_findings(name@, cols@, *obj, rules@.subrange(0, j + 1)) =~= prior
                        + record_findings(name@, cols@, *obj, rules@.subrange(0, j as int)));
                }
            },
        }
        j += 1;
    }
    proof {
        assert(rules@.subrange(0, rules@.len() as int) =~= rules@);
    }
}

/// Applies every catalog rule to every catalog record, nodes first and then
/// sources, each against the manifest object with the same identifier.
/// Records without one are skipped and reported in `unmatched`; they never
/// abort the run.
pub fn apply_catalog_rules(catalog: &Catalog, manifest: &Manifest, rules: &Vec<CatalogRule>) -> (r: CatalogReport)
    ensures
        findings_are(r.findings@, catalog_findings(catalog_records(*catalog), rules@, manifest.objects@)),
        views(r.unmatched@) == unmatched_ids(catalog_records(*catalog), manifest.objects@),
{
    let ghost recs = catalog_records(*catalog);
    let ghost objs = manifest.objects@;
    let ghost n_nodes = catalog.nodes@.len();
    let mut findings: Vec<(RuleResult, Severity)> = Vec::new();
    let mut unmatched: Vec<String> = Vec::new();
    let mut i: usize = 0;
    while i < catalog.nodes.len()
        invariant
            i <= catalog.nodes@.len(),
            recs == catalog_records(*catalog),
            objs == manifest.objects@,
            findings_are(findings@, catalog_findings(recs.subrange(0, i as int), rules@, objs)),
            views(unmatched@) == unmatched_ids(recs.subrange(0, i as int), objs),
        decreases catalog.nodes@.len() - i,
    {
        let base = catalog.nodes[i].get_base();
        let ghost prior = catalog_findings(recs.subrange(0, i as int), rules@, objs);
        apply_to_record(base.unique_id.as_str(), base.name.as_str(), &base.columns, rules, manifest, &mut findings, &mut unmatched, Ghost(prior));
        proof {
            assert(recs.subrange(0, i + 1).drop_last() =~= recs.subrange(0, i as int));
            assert(recs.subrange(0, i + 1).last() == recs[i as int]);
            assert(recs[i as int] == node_record(catalog.nodes@[i as int]));
        }
        i += 1;
    }
    let mut j: usize = 0;
    while j < catalog.sources.len()
        invariant
            i == catalog.nodes@.len(),
            j <= catalog.sources@.len(),
            recs == catalog_records(*catalog),
            objs == manifest.objects@,
            findings_are(findings@, catalog_findings(recs.subrange(0, i + j), rules@, objs)),
            views(unmatched@) == unmatched_ids(recs.subrange(0, i + j), objs),
        decreases catalog.sources@.len() - j,
    {
        let s = &catalog.sources[j];
        let ghost prior = catalog_findings(recs.subrange(0, i + j), rules@, objs);
        apply_to_record(s.unique_id.as_str(), s.name.as_str(), &s.columns, rules, manifest, &mut findings, &mut unmatched, Ghost(prior));
        proof {
            assert(recs.subrange(0, i + j + 1).drop_last() =~= recs.subrange(0, i + j));
            assert(recs.subrange(0, i + j + 1).last() == recs[i + j]);
            assert(recs[i + j] == (s.unique_id@, s.name@, s.columns@));
        }
        j += 1;
    }
    proof {
        assert(recs.subrange(0, i + j) =~= recs);
    }
    CatalogReport { findings, unmatched }
}

} // verus!
