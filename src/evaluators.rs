use vstd::prelude::*;
use crate::finding::RuleResult;
use crate::naming_convention::NamingConvention;
use crate::objects::{ManifestObject, TestMetadata};
use crate::regex_support::regex_finds;
use crate::rules::HasTagsCriteria;
use crate::severity::{severity_label, Severity};
use crate::std_text::{trim, trimmed};
use crate::targets::target_singular;
use crate::text::{contains_str, join, join_strings, seq_contains, str_equal, views};

verus! {

/// A string that is empty once surrounding whitespace is removed.
pub open spec fn blank(s: Seq<char>) -> bool {
    trimmed(s).len() == 0
}

pub fn is_blank(s: &str) -> (r: bool)
    ensures
        r == blank(s@),
{
    trim(s).unicode_len() == 0
}

/// A finding against a manifest object: its type and path come from the object.
pub open spec fn finding_is(
    f: RuleResult,
    severity: Severity,
    obj: ManifestObject,
    rule_name: Seq<char>,
    message: Seq<char>,
) -> bool {
    &&& f.severity@ == severity_label(severity)
    &&& f.object_type@ == target_singular(obj.target)
    &&& f.rule_name@ == rule_name
    &&& f.message@ == message
    &&& f.relative_path matches Some(p) && p@ == obj.relative_path@
}

/// An evaluation outcome: no finding where no message is due, else the finding with that message.
pub open spec fn outcome_is(
    r: Option<RuleResult>,
    severity: Severity,
    obj: ManifestObject,
    rule_name: Seq<char>,
    expected: Option<Seq<char>>,
) -> bool {
    match expected {
        None => r is None,
        Some(m) => r matches Some(f) && finding_is(f, severity, obj, rule_name, m),
    }
}

fn make_finding(severity: &Severity, obj: &ManifestObject, rule_name: &str, message: &str) -> (r: RuleResult)
    ensures
        finding_is(r, *severity, *obj, rule_name@, message@),
{
    RuleResult::new(severity, obj.get_object_type(), rule_name, message, Some(String::from_str(obj.relative_path.as_str())))
}

/// The strings of `req` that are (when `keep_present`) or are not in `pool`, in order.
pub open spec fn select_by_membership(req: Seq<Seq<char>>, pool: Seq<Seq<char>>, keep_present: bool) -> Seq<Seq<char>>
    decreases req.len(),
{
    if req.len() == 0 {
        seq![]
    } else {
        let prev = select_by_membership(req.drop_last(), pool, keep_present);
        if seq_contains(pool, req.last()) == keep_present {
            prev.push(req.last())
        } else {
            prev
        }
    }
}

pub fn select_strings(req: &Vec<String>, pool: &Vec<String>, keep_present: bool) -> (r: Vec<String>)
    ensures
        views(r@) == select_by_membership(views(req@), views(pool@), keep_present),
{
    let mut out: Vec<String> = Vec::new();
    let mut i: usize = 0;
    while i < req.len()
        invariant
            i <= req@.len(),
            views(out@) == select_by_membership(views(req@).subrange(0, i as int), views(pool@), keep_present),
        decreases req@.len() - i,
    {
        let ghost pre = out@;
        if contains_str(pool, req[i].as_str()) == keep_present {
            out.push(String::from_str(req[i].as_str()));
            assert(views(out@) =~= views(pre).push(req@[i as int]@));
        }
        assert(views(req@).subrange(0, i + 1).drop_last() =~= views(req@).subrange(0, i as int));
        i += 1;
    }
    assert(views(req@).subrange(0, req@.len() as int) =~= views(req@));
    out
}

/// Fails when the description is absent or blank.
pub open spec fn description_message(obj: ManifestObject) -> Option<Seq<char>> {
    let fails = match obj.description {
        None => true,
        Some(d) => blank(d@),
    };
    if fails {
        Some(obj.name@ + " is missing a description."@)
    } else {
        None
    }
}

pub fn has_description(obj: &ManifestObject, severity: &Severity, rule_name: &str) -> (r: Option<RuleResult>)
    ensures
        outcome_is(r, *severity, *obj, rule_name@, description_message(*obj)),
{
    let fails = match &obj.description {
        None => true,
        Some(d) => is_blank(d.as_str()),
    };
    if fails {
        let mut m = String::from_str(obj.name.as_str());
        m.append(" is missing a description.");
        Some(make_finding(severity, obj, rule_name, m.as_str()))
    } else {
        None
    }
}

/// Fails when the name does not match the convention.
pub open spec fn convention_message(name: Seq<char>, regex: Seq<char>, display: Seq<char>) -> Option<Seq<char>> {
    if regex_finds(regex, name) {
        None
    } else {
        Some(name + " does not follow the "@ + display + " naming convention."@)
    }
}

pub fn check_name_convention(
    obj: &ManifestObject,
    convention: &NamingConvention,
    severity: &Severity,
    rule_name: &str,
) -> (r: Option<RuleResult>)
    ensures
        outcome_is(r, *severity, *obj, rule_name@, convention_message(obj.name@, convention.regex_source(), convention.display_name())),
{
    if convention.is_match(obj.name.as_str()) {
        None
    } else {
        let mut m = String::from_str(obj.name.as_str());
        m.append(" does not follow the ");
        m.append(convention.name());
        m.append(" naming convention.");
        Some(make_finding(severity, obj, rule_name, m.as_str()))
    }
}

/// Tag rule: `All` fails listing the missing tags, `Any` fails when none is
/// present, `OneOf` fails unless exactly one is present.
pub open spec fn tags_message(
    name: Seq<char>,
    tags: Seq<Seq<char>>,
    required: Seq<Seq<char>>,
    criteria: HasTagsCriteria,
) -> Option<Seq<char>> {
    let missing = select_by_membership(required, tags, false);
    let present = select_by_membership(required, tags, true);
    match criteria {
        HasTagsCriteria::All => if missing.len() == 0 {
            None
        } else {
            Some(name + " is missing required tags: "@ + join(missing, ", "@) + "."@)
        },
        HasTagsCriteria::Any => if present.len() > 0 {
            None
        } else {
            Some(name + " has none of the tags: "@ + join(required, ", "@) + "."@)
        },
        HasTagsCriteria::OneOf => if present.len() == 1 {
            None
        } else {
            Some(name + " must have exactly one of the tags: "@ + join(required, ", "@) + "."@)
        },
    }
}

pub fn has_tags(
    obj: &ManifestObject,
    required_tags: &Vec<String>,
    criteria: HasTagsCriteria,
    severity: &Severity,
    rule_name: &str,
) -> (r: Option<RuleResult>)
    ensures
        outcome_is(r, *severity, *obj, rule_name@, tags_message(obj.name@, views(obj.tags@), views(required_tags@), criteria)),
{
    let missing = select_strings(required_tags, &obj.tags, false);
    let present = select_strings(required_tags, &obj.tags, true);
    let mut m = String::from_str(obj.name.as_str());
    match criteria {
        HasTagsCriteria::All => {
            if missing.len() == 0 {
                return None;
            }
            m.append(" is missing required tags: ");
            m.append(join_strings(&missing, ", ").as_str());
        },
        HasTagsCriteria::Any => {
            if present.len() > 0 {
                return None;
            }
            m.append(" has none of the tags: ");
            m.append(join_strings(required_tags, ", ").as_str());
        },
        HasTagsCriteria::OneOf => {
            if present.len() == 1 {
                return None;
            }
            m.append(" must have exactly one of the tags: ");
            m.append(join_strings(required_tags, ", ").as_str());
        },
    }
    m.append(".");
    Some(make_finding(severity, obj, rule_name, m.as_str()))
}

/// Metadata rule: no metadata at all fails; otherwise it fails when a
/// required key is absent, with the custom message where one is configured.
pub open spec fn metadata_message(
    name: Seq<char>,
    meta: Option<Seq<Seq<char>>>,
    required: Seq<Seq<char>>,
    custom: Option<Seq<char>>,
) -> Option<Seq<char>> {
    match meta {
        None => Some(name + " is missing metadata entirely."@),
        Some(keys) => {
            let missing = select_by_membership(required, keys, false);
            if missing.len() == 0 {
                None
            } else {
                match custom {
                    Some(c) => Some(name + " "@ + c),
                    None => Some(name + " is missing required metadata keys: "@ + join(missing, ", "@) + "."@),
                }
            }
        },
    }
}

pub open spec fn meta_view(meta: Option<Vec<String>>) -> Option<Seq<Seq<char>>> {
    match meta {
        Some(v) => Some(views(v@)),
        None => None,
    }
}

pub open spec fn opt_view(s: Option<String>) -> Option<Seq<char>> {
    match s {
        Some(v) => Some(v@),
        None => None,
    }
}

pub fn has_metadata_keys(
    obj: &ManifestObject,
    required_keys: &Vec<String>,
    custom_message: Option<&String>,
    severity: &Severity,
    rule_name: &str,
) -> (r: Option<RuleResult>)
    ensures
        outcome_is(
            r,
            *severity,
            *obj,
            rule_name@,
            metadata_message(obj.name@, meta_view(obj.meta), views(required_keys@), match custom_message {
                Some(c) => Some(c@),
                None => None,
            }),
        ),
{
    let mut m = String::from_str(obj.name.as_str());
    match &obj.meta {
        None => {
            m.append(" is missing metadata entirely.");
        },
        Some(keys) => {
            let missing = select_strings(required_keys, keys, false);
            if missing.len() == 0 {
                return None;
            }
            match custom_message {
                Some(c) => {
                    m.append(" ");
                    m.append(c.as_str());
                },
                None => {
                    m.append(" is missing required metadata keys: ");
                    m.append(join_strings(&missing, ", ").as_str());
                    m.append(".");
                },
            }
        },
    }
    Some(make_finding(severity, obj, rule_name, m.as_str()))
}

/// The kind of a test: `namespace.name`, or the name alone.
pub open spec fn test_kind(t: TestMetadata) -> Seq<char> {
    match t.namespace {
        Some(ns) => ns@ + "."@ + t.name@,
        None => t.name@,
    }
}

/// Whether `t` is a uniqueness test attached to the object `id`.
pub open spec fn is_unique_test_for(t: ManifestObject, id: Seq<char>, allowed: Seq<Seq<char>>) -> bool {
    match t.test_metadata {
        Some(md) => match md.attached_node {
            Some(a) => a@ == id && seq_contains(allowed, test_kind(md)),
            None => false,
        },
        None => false,
    }
}

/// Fails unless some test of the manifest is a uniqueness test of the object.
pub open spec fn unique_test_message(obj: ManifestObject, objects: Seq<ManifestObject>, allowed: Seq<Seq<char>>) -> Option<Seq<char>> {
    if exists|i: int| 0 <= i < objects.len() && is_unique_test_for(#[trigger] objects[i], obj.unique_id@, allowed) {
        None
    } else {
        Some(obj.name@ + " should have a unique test."@)
    }
}

fn test_kind_of(md: &TestMetadata) -> (r: String)
    ensures
        r@ == test_kind(*md),
{
    match &md.namespace {
        Some(ns) => {
            let mut k = String::from_str(ns.as_str());
            k.append(".");
            k.append(md.name.as_str());
            k
        },
        None => String::from_str(md.name.as_str()),
    }
}

fn is_unique_test(t: &ManifestObject, id: &str, allowed: &Vec<String>) -> (r: bool)
    ensures
        r == is_unique_test_for(*t, id@, views(allowed@)),
{
    match &t.test_metadata {
        Some(md) => match &md.attached_node {
            Some(a) => str_equal(a.as_str(), id) && contains_str(allowed, test_kind_of(md).as_str()),
            None => false,
        },
        None => false,
    }
}

pub fn has_unique_test(
    obj: &ManifestObject,
    objects: &Vec<ManifestObject>,
    allowed_test_names: &Vec<String>,
    severity: &Severity,
    rule_name: &str,
) -> (r: Option<RuleResult>)
    ensures
        outcome_is(r, *severity, *obj, rule_name@, unique_test_message(*obj, objects@, views(allowed_test_names@))),
{
    let mut i: usize = 0;
    while i < objects.len()
        invariant
            i <= objects@.len(),
            forall|j: int| 0 <= j < i ==> !is_unique_test_for(#[trigger] objects@[j], obj.unique_id@, views(allowed_test_names@)),
        decreases objects@.len() - i,
    {
        if is_unique_test(&objects[i], obj.unique_id.as_str(), allowed_test_names) {
            return None;
        }
        i += 1;
    }
    let mut m = String::from_str(obj.name.as_str());
    m.append(" should have a unique test.");
    Some(make_finding(severity, obj, rule_name, m.as_str()))
}

} // verus!
