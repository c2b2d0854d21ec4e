use vstd::prelude::*;
use crate::data_types::{base_type_name, classify_type, parse_logical_type, LogicalType};
use crate::evaluators::{blank, is_blank, outcome_is, finding_is, select_by_membership, select_strings};
use crate::finding::RuleResult;
use crate::naming_convention::NamingConvention;
use crate::objects::{catalog_column_names, manifest_column_names, CatalogColumn, ManifestColumn, ManifestObject};
use crate::regex_support::regex_finds;
use crate::rules::{any_pattern_match, any_pattern_matches, ColumnNamePattern};
use crate::severity::Severity;
use crate::text::{contains_str, join, join_strings, quote_list, quoted_list, seq_contains, str_equal, views};

verus! {

fn catalog_finding(severity: &Severity, obj: &ManifestObject, rule_name: &str, message: &str) -> (r: RuleResult)
    ensures
        finding_is(r, *severity, *obj, rule_name@, message@),
{
    RuleResult::new(severity, obj.get_object_type(), rule_name, message, Some(String::from_str(obj.relative_path.as_str())))
}

/// The names of catalog columns, in order.
pub fn column_names(cols: &Vec<CatalogColumn>) -> (r: Vec<String>)
    ensures
        views(r@) == catalog_column_names(cols@),
{
    let mut out: Vec<String> = Vec::new();
    let mut i: usize = 0;
    while i < cols.len()
        invariant
            i <= cols@.len(),
            views(out@) == catalog_column_names(cols@.subrange(0, i as int)),
        decreases cols@.len() - i,
    {
        out.push(String::from_str(cols[i].name.as_str()));
        assert(catalog_column_names(cols@.subrange(0, i + 1)) =~= catalog_column_names(cols@.subrange(0, i as int)).push(cols@[i as int].name@));
        assert(views(out@) =~= catalog_column_names(cols@.subrange(0, i + 1)));
        i += 1;
    }
    assert(cols@.subrange(0, cols@.len() as int) =~= cols@);
    out
}

/// The names of manifest columns, in order.
pub fn documented_names(cols: &Vec<ManifestColumn>) -> (r: Vec<String>)
    ensures
        views(r@) == manifest_column_names(cols@),
{
    let mut out: Vec<String> = Vec::new();
    let mut i: usize = 0;
    while i < cols.len()
        invariant
            i <= cols@.len(),
            views(out@) == manifest_column_names(cols@.subrange(0, i as int)),
        decreases cols@.len() - i,
    {
        out.push(String::from_str(cols[i].name.as_str()));
        assert(manifest_column_names(cols@.subrange(0, i + 1)) =~= manifest_column_names(cols@.subrange(0, i as int)).push(cols@[i as int].name@));
        assert(views(out@) =~= manifest_column_names(cols@.subrange(0, i + 1)));
        i += 1;
    }
    assert(cols@.subrange(0, cols@.len() as int) =~= cols@);
    out
}

/// Fails listing every catalog column that the manifest object does not document.
pub open spec fn all_documented_message(obj: ManifestObject, cols: Seq<CatalogColumn>) -> Option<Seq<char>> {
    let missing = select_by_membership(catalog_column_names(cols), manifest_column_names(obj.columns@), false);
    if missing.len() == 0 {
        None
    } else {
        Some(obj.name@ + " has undocumented columns: "@ + join(missing, ", "@) + "."@)
    }
}

pub fn columns_all_documented(
    catalog_columns: &Vec<CatalogColumn>,
    obj: &ManifestObject,
    severity: &Severity,
    rule_name: &str,
) -> (r: Option<RuleResult>)
    ensures
        outcome_is(r, *severity, *obj, rule_name@, all_documented_message(*obj, catalog_columns@)),
{
    let names = column_names(catalog_columns);
    let documented = documented_names(&obj.columns);
    let missing = select_strings(&names, &documented, false);
    if missing.len() == 0 {
        return None;
    }
    let mut m = String::from_str(obj.name.as_str());
    m.append(" has undocumented columns: ");
    m.append(join_strings(&missing, ", ").as_str());
    m.append(".");
    Some(catalog_finding(severity, obj, rule_name, m.as_str()))
}

/// The documented columns whose description is blank or that the catalog
/// does not have, in manifest order.
pub open spec fn undescribed_columns(cols: Seq<ManifestColumn>, catalog_names: Seq<Seq<char>>) -> Seq<Seq<char>>
    decreases cols.len(),
{
    if cols.len() == 0 {
        seq![]
    } else {
        let prev = undescribed_columns(cols.drop_last(), catalog_names);
        let c = cols.last();
        if blank(c.description@) || !seq_contains(catalog_names, c.name@) {
            prev.push(c.name@)
        } else {
            prev
        }
    }
}

/// Column-description rule: fails when the catalog has no columns, when the
/// manifest documents none, and otherwise listing the undescribed columns.
pub open spec fn have_description_message(
    catalog_name: Seq<char>,
    cols: Seq<CatalogColumn>,
    obj: ManifestObject,
) -> Option<Seq<char>> {
    if cols.len() == 0 {
        Some("No columns available for '"@ + catalog_name + "'"@)
    } else if obj.columns@.len() == 0 {
        Some("No columns in '"@ + obj.name@ + "' have descriptions."@)
    } else {
        let bad = undescribed_columns(obj.columns@, catalog_column_names(cols));
        if bad.len() == 0 {
            None
        } else {
            Some("Some columns in '"@ + obj.name@ + "' do not have descriptions: "@ + quoted_list(bad))
        }
    }
}

pub fn columns_have_description(
    catalog_name: &str,
    catalog_columns: &Vec<CatalogColumn>,
    obj: &ManifestObject,
    severity: &Severity,
    rule_name: &str,
) -> (r: Option<RuleResult>)
    ensures
        outcome_is(r, *severity, *obj, rule_name@, have_description_message(catalog_name@, catalog_columns@, *obj)),
{
    if catalog_columns.len() == 0 {
        let mut m = String::from_str("No columns available for '");
        m.append(catalog_name);
        m.append("'");
        return Some(catalog_finding(severity, obj, rule_name, m.as_str()));
    }
    if obj.columns.len() == 0 {
        let mut m = String::from_str("No columns in '");
        m.append(obj.name.as_str());
        m.append("' have descriptions.");
        return Some(catalog_finding(severity, obj, rule_name, m.as_str()));
    }
    let names = column_names(catalog_columns);
    let mut bad: Vec<String> = Vec::new();
    let mut i: usize = 0;
    while i < obj.columns.len()
        invariant
            i <= obj.columns@.len(),
            views(names@) == catalog_column_names(catalog_columns@),
            views(bad@) == undescribed_columns(obj.columns@.subrange(0, i as int), views(names@)),
        decreases obj.columns@.len() - i,
    {
        let c = &obj.columns[i];
        let ghost pre = bad@;
        if is_blank(c.description.as_str()) || !contains_str(&names, c.name.as_str()) {
            bad.push(String::from_str(c.name.as_str()));
            assert(views(bad@) =~= views(pre).push(c.name@));
        }
        assert(obj.columns@.subrange(0, i + 1).drop_last() =~= obj.columns@.subrange(0, i as int));
        i += 1;
    }
    assert(obj.columns@.subrange(0, obj.columns@.len() as int) =~= obj.columns@);
    if bad.len() == 0 {
        return None;
    }
    let mut m = String::from_str("Some columns in '");
    m.append(obj.name.as_str());
    m.append("' do not have descriptions: ");
    m.append(quote_list(&bad).as_str());
    Some(catalog_finding(severity, obj, rule_name, m.as_str()))
}

/// The catalog columns, other than the canonical one, that some invalid-name
/// pattern matches, in catalog order.
pub open spec fn canonical_violations(cols: Seq<CatalogColumn>, canonical: Seq<char>, invalid: Seq<ColumnNamePattern>) -> Seq<Seq<char>>
    decreases cols.len(),
{
    if cols.len() == 0 {
        seq![]
    } else {
        let prev = canonical_violations(cols.drop_last(), canonical, invalid);
        let c = cols.last();
        if c.name@ != canonical && any_pattern_matches(invalid, c.name@) {
            prev.push(c.name@)
        } else {
            prev
        }
    }
}

pub open spec fn canonical_message(cols: Seq<CatalogColumn>, canonical: Seq<char>, invalid: Seq<ColumnNamePattern>) -> Option<Seq<char>> {
    let bad = canonical_violations(cols, canonical, invalid);
    if bad.len() == 0 {
        None
    } else {
        Some("The following columns should be named '"@ + canonical + "': "@ + quoted_list(bad))
    }
}

/// The catalog columns that should carry the canonical name instead.
pub fn canonical_name_violations(
    catalog_columns: &Vec<CatalogColumn>,
    canonical: &str,
    invalid_names: &Vec<ColumnNamePattern>,
) -> (r: Vec<String>)
    ensures
        views(r@) == canonical_violations(catalog_columns@, canonical@, invalid_names@),
{
    let mut bad: Vec<String> = Vec::new();
    let mut i: usize = 0;
    while i < catalog_columns.len()
        invariant
            i <= catalog_columns@.len(),
            views(bad@) == canonical_violations(catalog_columns@.subrange(0, i as int), canonical@, invalid_names@),
        decreases catalog_columns@.len() - i,
    {
        let c = &catalog_columns[i];
        let ghost pre = bad@;
        if !str_equal(c.name.as_str(), canonical) && any_pattern_match(invalid_names, c.name.as_str()) {
            bad.push(String::from_str(c.name.as_str()));
            assert(views(bad@) =~= views(pre).push(c.name@));
        }
        assert(catalog_columns@.subrange(0, i + 1).drop_last() =~= catalog_columns@.subrange(0, i as int));
        i += 1;
    }
    assert(catalog_columns@.subrange(0, catalog_columns@.len() as int) =~= catalog_columns@);
    bad
}

pub fn columns_canonical_name(
    catalog_columns: &Vec<CatalogColumn>,
    canonical: &str,
    invalid_names: &Vec<ColumnNamePattern>,
    obj: &ManifestObject,
    severity: &Severity,
    rule_name: &str,
) -> (r: Option<RuleResult>)
    ensures
        outcome_is(r, *severity, *obj, rule_name@, canonical_message(catalog_columns@, canonical@, invalid_names@)),
{
    let bad = canonical_name_violations(catalog_columns, canonical, invalid_names);
    if bad.len() == 0 {
        return None;
    }
    let mut m = String::from_str("The following columns should be named '");
    m.append(canonical);
    m.append("': ");
    m.append(quote_list(&bad).as_str());
    Some(catalog_finding(severity, obj, rule_name, m.as_str()))
}

/// Whether a column is checked under a type filter: without a filter every
/// column is; with one, those whose type resolves to a listed logical type.
pub open spec fn type_selected(data_type: Seq<char>, filter: Option<Seq<LogicalType>>) -> bool {
    match filter {
        None => true,
        Some(ts) => match classify_type(base_type_name(data_type)) {
            Some(t) => ts.contains(t),
            None => false,
        },
    }
}

/// The checked columns whose names do not match the convention, in catalog order.
pub open spec fn convention_violations(cols: Seq<CatalogColumn>, regex: Seq<char>, filter: Option<Seq<LogicalType>>) -> Seq<Seq<char>>
    decreases cols.len(),
{
    if cols.len() == 0 {
        seq![]
    } else {
        let prev = convention_violations(cols.drop_last(), regex, filter);
        let c = cols.last();
        if type_selected(c.data_type@, filter) && !regex_finds(regex, c.name@) {
            prev.push(c.name@)
        } else {
            prev
        }
    }
}

pub open spec fn column_convention_message(
    catalog_name: Seq<char>,
    cols: Seq<CatalogColumn>,
    regex: Seq<char>,
    display: Seq<char>,
    filter: Option<Seq<LogicalType>>,
) -> Option<Seq<char>> {
    let bad = convention_violations(cols, regex, filter);
    if bad.len() == 0 {
        None
    } else {
        Some(catalog_name + " has columns that do not follow the "@ + display + " naming convention: "@ + join(bad, ", "@) + "."@)
    }
}

pub open spec fn type_filter_view(f: Option<&Vec<LogicalType>>) -> Option<Seq<LogicalType>> {
    match f {
        Some(v) => Some(v@),
        None => None,
    }
}

fn contains_type(ts: &Vec<LogicalType>, t: LogicalType) -> (r: bool)
    ensures
        r == ts@.contains(t),
{
    let mut i: usize = 0;
    while i < ts.len()
        invariant
            i <= ts@.len(),
            forall|j: int| 0 <= j < i ==> ts@[j] != t,
        decreases ts@.len() - i,
    {
        if ts[i] == t {
            return true;
        }
        i += 1;
    }
    false
}

fn column_type_selected(data_type: &str, filter: Option<&Vec<LogicalType>>) -> (r: bool)
    ensures
        r == type_selected(data_type@, type_filter_view(filter)),
{
    match filter {
        None => true,
        Some(ts) => match parse_logical_type(data_type) {
            Some(t) => contains_type(ts, t),
            None => false,
        },
    }
}

pub fn column_name_convention(
    catalog_name: &str,
    catalog_columns: &Vec<CatalogColumn>,
    convention: &NamingConvention,
    data_types: Option<&Vec<LogicalType>>,
    obj: &ManifestObject,
    severity: &Severity,
    rule_name: &str,
) -> (r: Option<RuleResult>)
    ensures
        outcome_is(
            r,
            *severity,
            *obj,
            rule_name@,
            column_convention_message(catalog_name@, catalog_columns@, convention.regex_source(), convention.display_name(), type_filter_view(data_types)),
        ),
{
    let mut bad: Vec<String> = Vec::new();
    let mut i: usize = 0;
    while i < catalog_columns.len()
        invariant
            i <= catalog_columns@.len(),
            views(bad@) == convention_violations(catalog_columns@.subrange(0, i as int), convention.regex_source(), type_filter_view(data_types)),
        decreases catalog_columns@.len() - i,
    {
        let c = &catalog_columns[i];
        let ghost pre = bad@;
        if column_type_selected(c.data_type.as_str(), data_types) && !convention.is_match(c.name.as_str()) {
            bad.push(String::from_str(c.name.as_str()));
            assert(views(bad@) =~= views(pre).push(c.name@));
        }
        assert(catalog_columns@.subrange(0, i + 1).drop_last() =~= catalog_columns@.subrange(0, i as int));
        i += 1;
    }
    assert(catalog_columns@.subrange(0, catalog_columns@.len() as int) =~= catalog_columns@);
    if bad.len() == 0 {
        return None;
    }
    let mut m = String::from_str(catalog_name);
    m.append(" has columns that do not follow the ");
    m.append(convention.name());
    m.append(" naming convention: ");
    m.append(join_strings(&bad, ", ").as_str());
    m.append(".");
    Some(catalog_finding(severity, obj, rule_name, m.as_str()))
}

} // verus!
