use vstd::prelude::*;
use crate::data_types::LogicalType;
use crate::materialization::Materialization;
use crate::naming_convention::{NamingConvention, PatternError};
use crate::regex_support::{regex_compiles, regex_finds, regex_is_match, regex_valid};
use crate::severity::Severity;
use crate::targets::RuleTarget;
use crate::text::{str_equal, views};

verus! {

/// How the required tags of a tag rule must be present.
#[derive(Debug, Clone, Copy, PartialEq, Eq, Structural)]
pub enum HasTagsCriteria {
    /// Every required tag is present.
    All,
    /// At least one required tag is present.
    Any,
    /// Exactly one required tag is present.
    OneOf,
}

/// A column name that a canonical-name rule flags: a literal name, matched
/// exactly, or a regex.
#[derive(Debug, Clone, PartialEq, Eq)]
pub enum ColumnNamePattern {
    Literal(String),
    Regex(String),
}

/// Whether a configured name reads as a regex: anchored, or holding `.*` or `.+`.
pub open spec fn looks_like_regex(s: Seq<char>) -> bool {
    (s.len() > 0 && s[0] == '^') || (s.len() > 0 && s.last() == '$') || exists|i: int|
        0 <= i < s.len() - 1 && #[trigger] s[i] == '.' && (s[i + 1] == '*' || s[i + 1] == '+')
}

/// Whether a column-name pattern matches a column name.
pub open spec fn pattern_matches(p: ColumnNamePattern, name: Seq<char>) -> bool {
    match p {
        ColumnNamePattern::Literal(l) => l@ == name,
        ColumnNamePattern::Regex(r) => regex_valid(r@) && regex_finds(r@, name),
    }
}

pub open spec fn any_pattern_matches(ps: Seq<ColumnNamePattern>, name: Seq<char>) -> bool {
    exists|i: int| 0 <= i < ps.len() && pattern_matches(ps[i], name)
}

fn looks_like_regex_exec(s: &str) -> (r: bool)
    ensures
        r == looks_like_regex(s@),
{
    let n = s.unicode_len();
    if n == 0 {
        return false;
    }
    if s.get_char(0) == '^' || s.get_char(n - 1) == '$' {
        return true;
    }
    let mut i: usize = 0;
    while i + 1 < n
        invariant
            n == s@.len(),
            n > 0,
            i < n,
            forall|j: int| 0 <= j < i ==> !(#[trigger] s@[j] == '.' && (s@[j + 1] == '*' || s@[j + 1] == '+')),
        decreases n - i,
    {
        if s.get_char(i) == '.' {
            let d = s.get_char(i + 1);
            if d == '*' || d == '+' {
                return true;
            }
        }
        i += 1;
    }
    false
}

impl ColumnNamePattern {
    /// Reads a configured name: one that looks like a regex must compile and
    /// becomes a regex pattern; any other is a literal.
    pub fn parse(s: &str) -> (r: Result<ColumnNamePattern, PatternError>)
        ensures
            !looks_like_regex(s@) ==> (r matches Ok(ColumnNamePattern::Literal(l)) && l@ == s@),
            looks_like_regex(s@) && regex_valid(s@) ==> (r matches Ok(ColumnNamePattern::Regex(p)) && p@ == s@),
            looks_like_regex(s@) && !regex_valid(s@) ==> (r matches Err(e) && e.pattern@ == s@),
    {
        if looks_like_regex_exec(s) {
            if regex_compiles(s) {
                Ok(ColumnNamePattern::Regex(String::from_str(s)))
            } else {
                Err(PatternError { pattern: String::from_str(s) })
            }
        } else {
            Ok(ColumnNamePattern::Literal(String::from_str(s)))
        }
    }

    /// Whether the pattern matches a column name; literals compare exactly.
    pub fn matches(&self, column_name: &str) -> (r: bool)
        ensures
            r == pattern_matches(*self, column_name@),
    {
        match self {
            ColumnNamePattern::Literal(l) => str_equal(l.as_str(), column_name),
            ColumnNamePattern::Regex(p) => regex_compiles(p.as_str()) && regex_is_match(p.as_str(), column_name),
        }
    }
}

/// Whether some pattern of `ps` matches `name`.
pub fn any_pattern_match(ps: &Vec<ColumnNamePattern>, name: &str) -> (r: bool)
    ensures
        r == any_pattern_matches(ps@, name@),
{
    let mut i: usize = 0;
    while i < ps.len()
        invariant
            i <= ps@.len(),
            forall|j: int| 0 <= j < i ==> !pattern_matches(ps@[j], name@),
        decreases ps@.len() - i,
    {
        if ps[i].matches(name) {
            return true;
        }
        i += 1;
    }
    false
}

/// The test kinds that count as uniqueness tests unless configured otherwise.
pub open spec fn default_unique_test_kinds() -> Seq<Seq<char>> {
    seq![
        "dbt_expectations.expect_compound_columns_to_be_unique"@,
        "dbt_utils.unique_combination_of_columns"@,
        "unique"@,
    ]
}

pub fn default_allowed_test_names() -> (r: Vec<String>)
    ensures
        views(r@) == default_unique_test_kinds(),
{
    let r = vec![
        String::from_str("dbt_expectations.expect_compound_columns_to_be_unique"),
        String::from_str("dbt_utils.unique_combination_of_columns"),
        String::from_str("unique"),
    ];
    assert(views(r@) =~= default_unique_test_kinds());
    r
}

/// The kinds of rules that audit manifest objects.
#[derive(Debug)]
pub enum ManifestRuleKind {
    HasDescription,
    NameConvention { convention: NamingConvention },
    HasTags { required_tags: Vec<String>, criteria: HasTagsCriteria },
    HasMetadataKeys { required_keys: Vec<String>, custom_message: Option<String> },
    HasUniqueTest { allowed_test_names: Vec<String> },
}

/// The kinds of rules that audit catalog records against their manifest objects.
#[derive(Debug)]
pub enum CatalogRuleKind {
    ColumnsAllDocumented,
    ColumnsHaveDescription,
    ColumnsCanonicalName { canonical: String, invalid_names: Vec<ColumnNamePattern> },
    ColumnsNameConvention { convention: NamingConvention, data_types: Option<Vec<LogicalType>> },
}

/// A configured manifest rule.
#[derive(Debug)]
pub struct ManifestRule {
    pub name: Option<String>,
    pub severity: Severity,
    pub description: Option<String>,
    pub applies_to: Option<Vec<RuleTarget>>,
    pub includes: Option<Vec<String>>,
    pub excludes: Option<Vec<String>>,
    pub model_materializations: Option<Vec<Materialization>>,
    pub kind: ManifestRuleKind,
}

/// A configured catalog rule.
#[derive(Debug)]
pub struct CatalogRule {
    pub name: Option<String>,
    pub severity: Severity,
    pub description: Option<String>,
    pub applies_to: Option<Vec<RuleTarget>>,
    pub includes: Option<Vec<String>>,
    pub excludes: Option<Vec<String>>,
    pub model_materializations: Option<Vec<Materialization>>,
    pub kind: CatalogRuleKind,
}

/// The configuration name of each manifest rule kind.
pub open spec fn manifest_kind_name(k: ManifestRuleKind) -> Seq<char> {
    match k {
        ManifestRuleKind::HasDescription => "has_description"@,
        ManifestRuleKind::NameConvention { .. } => "name_convention"@,
        ManifestRuleKind::HasTags { .. } => "has_tags"@,
        ManifestRuleKind::HasMetadataKeys { .. } => "has_metadata_keys"@,
        ManifestRuleKind::HasUniqueTest { .. } => "has_unique_test"@,
    }
}

/// The configuration name of each catalog rule kind.
pub open spec fn catalog_kind_name(k: CatalogRuleKind) -> Seq<char> {
    match k {
        CatalogRuleKind::ColumnsAllDocumented => "columns_all_documented"@,
        CatalogRuleKind::ColumnsHaveDescription => "columns_have_description"@,
        CatalogRuleKind::ColumnsCanonicalName { .. } => "columns_canonical_name"@,
        CatalogRuleKind::ColumnsNameConvention { .. } => "columns_name_convention"@,
    }
}

/// A rule's name: the configured one, else the name of its kind.
pub open spec fn manifest_rule_name(r: ManifestRule) -> Seq<char> {
    match r.name {
        Some(n) => n@,
        None => manifest_kind_name(r.kind),
    }
}

pub open spec fn catalog_rule_name(r: CatalogRule) -> Seq<char> {
    match r.name {
        Some(n) => n@,
        None => catalog_kind_name(r.kind),
    }
}

impl ManifestRuleKind {
    pub fn kind_name(&self) -> (r: &'static str)
        ensures
            r@ == manifest_kind_name(*self),
    {
        match self {
            ManifestRuleKind::HasDescription => "has_description",
            ManifestRuleKind::NameConvention { .. } => "name_convention",
            ManifestRuleKind::HasTags { .. } => "has_tags",
            ManifestRuleKind::HasMetadataKeys { .. } => "has_metadata_keys",
            ManifestRuleKind::HasUniqueTest { .. } => "has_unique_test",
        }
    }
}

impl CatalogRuleKind {
    pub fn kind_name(&self) -> (r: &'static str)
        ensures
            r@ == catalog_kind_name(*self),
    {
        match self {
            CatalogRuleKind::ColumnsAllDocumented => "columns_all_documented",
            CatalogRuleKind::ColumnsHaveDescription => "columns_have_description",
            CatalogRuleKind::ColumnsCanonicalName { .. } => "columns_canonical_name",
            CatalogRuleKind::ColumnsNameConvention { .. } => "columns_name_convention",
        }
    }
}

impl ManifestRule {
    pub fn get_name(&self) -> (r: &str)
        ensures
            r@ == manifest_rule_name(*self),
    {
        match &self.name {
            Some(n) => n.as_str(),
            None => self.kind.kind_name(),
        }
    }
}

impl CatalogRule {
    pub fn get_name(&self) -> (r: &str)
        ensures
            r@ == catalog_rule_name(*self),
    {
        match &self.name {
            Some(n) => n.as_str(),
            None => self.kind.kind_name(),
        }
    }
}

} // verus!
