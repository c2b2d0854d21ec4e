use vstd::prelude::*;

verus! {

/// How serious a finding is: errors fail a run, warnings do not.
#[derive(Debug, Clone, Copy, PartialEq, Eq, Structural)]
pub enum Severity {
    Error,
    Warning,
}

/// Numeric rank of a severity: higher is more severe.
pub open spec fn severity_code(s: Severity) -> u8 {
    match s {
        Severity::Error => 1,
        Severity::Warning => 0,
    }
}

/// Label shown for a severity in a result table.
pub open spec fn severity_label(s: Severity) -> Seq<char> {
    match s {
        Severity::Error => "FAIL"@,
        Severity::Warning => "WARN"@,
    }
}

impl Severity {
    pub fn as_code(&self) -> (r: u8)
        ensures
            r == severity_code(*self),
    {
        match self {
            Severity::Error => 1,
            Severity::Warning => 0,
        }
    }

    pub fn as_str(&self) -> (r: &'static str)
        ensures
            r@ == severity_label(*self),
    {
        match self {
            Severity::Error => "FAIL",
            Severity::Warning => "WARN",
        }
    }
}

} // verus!
