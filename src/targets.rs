use vstd::prelude::*;
use crate::text::str_equal;

verus! {

/// The resource category that every auditable object belongs to.
#[derive(Debug, Clone, Copy, PartialEq, Eq, Structural)]
pub enum RuleTarget {
    Models,
    Seeds,
    Sources,
    Macros,
    Metrics,
    Exposures,
    SemanticModels,
    SavedQueries,
    Tests,
    Analyses,
    Snapshots,
    HookNodes,
    SqlOperations,
}

/// The configuration tag of a target (`semantic_models`).
pub open spec fn target_tag(t: RuleTarget) -> Seq<char> {
    match t {
        RuleTarget::Models => "models"@,
        RuleTarget::Seeds => "seeds"@,
        RuleTarget::Sources => "sources"@,
        RuleTarget::Macros => "macros"@,
        RuleTarget::Metrics => "metrics"@,
        RuleTarget::Exposures => "exposures"@,
        RuleTarget::SemanticModels => "semantic_models"@,
        RuleTarget::SavedQueries => "saved_queries"@,
        RuleTarget::Tests => "tests"@,
        RuleTarget::Analyses => "analyses"@,
        RuleTarget::Snapshots => "snapshots"@,
        RuleTarget::HookNodes => "hook_nodes"@,
        RuleTarget::SqlOperations => "sql_operations"@,
    }
}

/// The singular display name of a target (`SemanticModel`), used as object type.
pub open spec fn target_singular(t: RuleTarget) -> Seq<char> {
    match t {
        RuleTarget::Models => "Model"@,
        RuleTarget::Seeds => "Seed"@,
        RuleTarget::Sources => "Source"@,
        RuleTarget::Macros => "Macro"@,
        RuleTarget::Metrics => "Metric"@,
        RuleTarget::Exposures => "Exposure"@,
        RuleTarget::SemanticModels => "SemanticModel"@,
        RuleTarget::SavedQueries => "SavedQuery"@,
        RuleTarget::Tests => "Test"@,
        RuleTarget::Analyses => "Analysis"@,
        RuleTarget::Snapshots => "Snapshot"@,
        RuleTarget::HookNodes => "HookNode"@,
        RuleTarget::SqlOperations => "SqlOperation"@,
    }
}

/// Every target, in declaration order.
pub open spec fn all_targets() -> Seq<RuleTarget> {
    seq![
        RuleTarget::Models,
        RuleTarget::Seeds,
        RuleTarget::Sources,
        RuleTarget::Macros,
        RuleTarget::Metrics,
        RuleTarget::Exposures,
        RuleTarget::SemanticModels,
        RuleTarget::SavedQueries,
        RuleTarget::Tests,
        RuleTarget::Analyses,
        RuleTarget::Snapshots,
        RuleTarget::HookNodes,
        RuleTarget::SqlOperations,
    ]
}

impl RuleTarget {
    pub fn as_str(&self) -> (r: &'static str)
        ensures
            r@ == target_singular(*self),
    {
        match self {
            RuleTarget::Models => "Model",
            RuleTarget::Seeds => "Seed",
            RuleTarget::Sources => "Source",
            RuleTarget::Macros => "Macro",
            RuleTarget::Metrics => "Metric",
            RuleTarget::Exposures => "Exposure",
            RuleTarget::SemanticModels => "SemanticModel",
            RuleTarget::SavedQueries => "SavedQuery",
            RuleTarget::Tests => "Test",
            RuleTarget::Analyses => "Analysis",
            RuleTarget::Snapshots => "Snapshot",
            RuleTarget::HookNodes => "HookNode",
            RuleTarget::SqlOperations => "SqlOperation",
        }
    }

    /// Classifies an artifact record by its `resource_type`.
    pub fn from_resource_type(s: &str) -> (r: Option<RuleTarget>)
        ensures
            r == target_of_resource_type(s@),
    {
        if str_equal(s, "model") { Some(RuleTarget::Models) }
        else if str_equal(s, "seed") { Some(RuleTarget::Seeds) }
        else if str_equal(s, "source") { Some(RuleTarget::Sources) }
        else if str_equal(s, "macro") { Some(RuleTarget::Macros) }
        else if str_equal(s, "metric") { Some(RuleTarget::Metrics) }
        else if str_equal(s, "exposure") { Some(RuleTarget::Exposures) }
        else if str_equal(s, "semantic_model") { Some(RuleTarget::SemanticModels) }
        else if str_equal(s, "saved_query") { Some(RuleTarget::SavedQueries) }
        else if str_equal(s, "test") || str_equal(s, "unit_test") { Some(RuleTarget::Tests) }
        else if str_equal(s, "analysis") { Some(RuleTarget::Analyses) }
        else if str_equal(s, "snapshot") { Some(RuleTarget::Snapshots) }
        else if str_equal(s, "operation") { Some(RuleTarget::HookNodes) }
        else if str_equal(s, "sql_operation") || str_equal(s, "sql") { Some(RuleTarget::SqlOperations) }
        else { None }
    }

    pub fn tag(&self) -> (r: &'static str)
        ensures
            r@ == target_tag(*self),
    {
        match self {
            RuleTarget::Models => "models",
            RuleTarget::Seeds => "seeds",
            RuleTarget::Sources => "sources",
            RuleTarget::Macros => "macros",
            RuleTarget::Metrics => "metrics",
            RuleTarget::Exposures => "exposures",
            RuleTarget::SemanticModels => "semantic_models",
            RuleTarget::SavedQueries => "saved_queries",
            RuleTarget::Tests => "tests",
            RuleTarget::Analyses => "analyses",
            RuleTarget::Snapshots => "snapshots",
            RuleTarget::HookNodes => "hook_nodes",
            RuleTarget::SqlOperations => "sql_operations",
        }
    }
}

/// The target of an artifact record with this `resource_type`.
pub open spec fn target_of_resource_type(s: Seq<char>) -> Option<RuleTarget> {
    if s == "model"@ { Some(RuleTarget::Models) }
    else if s == "seed"@ { Some(RuleTarget::Seeds) }
    else if s == "source"@ { Some(RuleTarget::Sources) }
    else if s == "macro"@ { Some(RuleTarget::Macros) }
    else if s == "metric"@ { Some(RuleTarget::Metrics) }
    else if s == "exposure"@ { Some(RuleTarget::Exposures) }
    else if s == "semantic_model"@ { Some(RuleTarget::SemanticModels) }
    else if s == "saved_query"@ { Some(RuleTarget::SavedQueries) }
    else if s == "test"@ || s == "unit_test"@ { Some(RuleTarget::Tests) }
    else if s == "analysis"@ { Some(RuleTarget::Analyses) }
    else if s == "snapshot"@ { Some(RuleTarget::Snapshots) }
    else if s == "operation"@ { Some(RuleTarget::HookNodes) }
    else if s == "sql_operation"@ || s == "sql"@ { Some(RuleTarget::SqlOperations) }
    else { None }
}

/// Whether `t` occurs in `ts`.
pub open spec fn targets_contain(ts: Seq<RuleTarget>, t: RuleTarget) -> bool {
    exists|i: int| 0 <= i < ts.len() && ts[i] == t
}

/// Membership test over a list of targets.
pub fn contains_target(ts: &Vec<RuleTarget>, t: RuleTarget) -> (r: bool)
    ensures
        r == targets_contain(ts@, t),
{
    let mut i: usize = 0;
    while i < ts.len()
        invariant
            i <= ts@.len(),
            forall|j: int| 0 <= j < i ==> ts@[j] != t,
        decreases ts@.len() - i,
    {
        if ts[i] == t {
            return true;
        }
        i += 1;
    }
    false
}

} // verus!
