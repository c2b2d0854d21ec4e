use vstd::prelude::*;
use crate::std_text::{lower_of, lowercase};
use crate::text::str_equal;

verus! {

/// How a model is persisted: one of the built-in strategies or a custom one.
#[derive(Debug, Clone, PartialEq, Eq)]
pub enum Materialization {
    Table,
    View,
    Incremental,
    Ephemeral,
    MaterializedView,
    Custom(String),
}

/// The built-in materialization that a lowercased name denotes, if any.
pub open spec fn builtin_materialization(l: Seq<char>) -> Option<Materialization> {
    if l == "table"@ {
        Some(Materialization::Table)
    } else if l == "view"@ {
        Some(Materialization::View)
    } else if l == "incremental"@ {
        Some(Materialization::Incremental)
    } else if l == "ephemeral"@ {
        Some(Materialization::Ephemeral)
    } else if l == "materialized_view"@ || l == "materializedview"@ || l == "materialized-view"@ {
        Some(Materialization::MaterializedView)
    } else {
        None
    }
}

/// The name of a materialization.
pub open spec fn materialization_name(m: Materialization) -> Seq<char> {
    match m {
        Materialization::Table => "table"@,
        Materialization::View => "view"@,
        Materialization::Incremental => "incremental"@,
        Materialization::Ephemeral => "ephemeral"@,
        Materialization::MaterializedView => "materialized_view"@,
        Materialization::Custom(s) => s@,
    }
}

/// Equality of materializations, custom ones by their names.
pub open spec fn same_materialization(a: Materialization, b: Materialization) -> bool {
    match (a, b) {
        (Materialization::Custom(x), Materialization::Custom(y)) => x@ == y@,
        (Materialization::Custom(_), _) => false,
        (_, Materialization::Custom(_)) => false,
        _ => a == b,
    }
}

/// Whether a list of materializations holds one equal to `m`.
pub open spec fn materializations_contain(ms: Seq<Materialization>, m: Materialization) -> bool {
    exists|i: int| 0 <= i < ms.len() && same_materialization(ms[i], m)
}

impl Materialization {
    /// Reads a materialization name, case-insensitively for the built-in
    /// ones; any other name is kept, as written, as a custom materialization.
    pub fn parse(s: &str) -> (r: Materialization)
        ensures
            match builtin_materialization(lower_of(s@)) {
                Some(m) => r == m,
                None => r matches Materialization::Custom(c) && c@ == s@,
            },
    {
        let lower = lowercase(s);
        let l = lower.as_str();
        if str_equal(l, "table") {
            Materialization::Table
        } else if str_equal(l, "view") {
            Materialization::View
        } else if str_equal(l, "incremental") {
            Materialization::Incremental
        } else if str_equal(l, "ephemeral") {
            Materialization::Ephemeral
        } else if str_equal(l, "materialized_view") || str_equal(l, "materializedview") || str_equal(
            l,
            "materialized-view",
        ) {
            Materialization::MaterializedView
        } else {
            Materialization::Custom(String::from_str(s))
        }
    }

    pub fn as_str(&self) -> (r: &str)
        ensures
            r@ == materialization_name(*self),
    {
        match self {
            Materialization::Table => "table",
            Materialization::View => "view",
            Materialization::Incremental => "incremental",
            Materialization::Ephemeral => "ephemeral",
            Materialization::MaterializedView => "materialized_view",
            Materialization::Custom(s) => s.as_str(),
        }
    }

    pub fn same_as(&self, other: &Materialization) -> (r: bool)
        ensures
            r == same_materialization(*self, *other),
    {
        match (self, other) {
            (Materialization::Custom(x), Materialization::Custom(y)) => str_equal(x.as_str(), y.as_str()),
            (Materialization::Custom(_), _) => false,
            (_, Materialization::Custom(_)) => false,
            (Materialization::Table, Materialization::Table) => true,
            (Materialization::View, Materialization::View) => true,
            (Materialization::Incremental, Materialization::Incremental) => true,
            (Materialization::Ephemeral, Materialization::Ephemeral) => true,
            (Materialization::MaterializedView, Materialization::MaterializedView) => true,
            _ => false,
        }
    }
}

impl<'a> From<&'a str> for Materialization {
    fn from(s: &'a str) -> Materialization {
        Materialization::parse(s)
    }
}

/// `from` is `parse`; a custom materialization keeps a string of its own,
/// which no spec-level value can build, so the contract is stated on `parse`.
impl<'a> vstd::std_specs::convert::FromSpecImpl<&'a str> for Materialization {
    open spec fn obeys_from_spec() -> bool {
        false
    }

    open spec fn from_spec(s: &'a str) -> Materialization {
        Materialization::Table
    }
}

/// Whether `ms` holds a materialization equal to `m`.
pub fn contains_materialization(ms: &Vec<Materialization>, m: &Materialization) -> (r: bool)
    ensures
        r == materializations_contain(ms@, *m),
{
    let mut i: usize = 0;
    while i < ms.len()
        invariant
            i <= ms@.len(),
            forall|j: int| 0 <= j < i ==> !same_materialization(ms@[j], *m),
        decreases ms@.len() - i,
    {
        if ms[i].same_as(m) {
            return true;
        }
        i += 1;
    }
    false
}

} // verus!
