use vstd::prelude::*;
use vstd::multiset::Multiset;
use crate::order::{
    lemma_str_le_antisymmetric, lemma_str_le_total, lemma_str_le_transitive, str_le, str_less_eq,
    str_lt,
};
use crate::severity::{severity_code, severity_label, Severity};
use crate::text::str_equal;

verus! {

broadcast use vstd::seq_lib::group_to_multiset_ensures;

/// One recorded rule violation.
#[derive(Debug, Clone, PartialEq, Eq)]
pub struct RuleResult {
    pub severity: String,
    pub object_type: String,
    pub rule_name: String,
    pub message: String,
    pub relative_path: Option<String>,
}

impl RuleResult {
    pub fn new(
        severity: &Severity,
        object_type: &str,
        rule_name: &str,
        message: &str,
        relative_path: Option<String>,
    ) -> (r: RuleResult)
        ensures
            r.severity@ == severity_label(*severity),
            r.object_type@ == object_type@,
            r.rule_name@ == rule_name@,
            r.message@ == message@,
            r.relative_path == relative_path,
    {
        RuleResult {
            severity: String::from_str(severity.as_str()),
            object_type: String::from_str(object_type),
            rule_name: String::from_str(rule_name),
            message: String::from_str(message),
            relative_path,
        }
    }
}

/// The order of findings in a report: more severe first, then by object
/// type, then by rule name.
pub open spec fn finding_le(a: (RuleResult, Severity), b: (RuleResult, Severity)) -> bool {
    let (ca, cb) = (severity_code(a.1), severity_code(b.1));
    ca > cb || (ca == cb && (str_lt(a.0.object_type@, b.0.object_type@) || (a.0.object_type@
        == b.0.object_type@ && str_le(a.0.rule_name@, b.0.rule_name@))))
}

pub open spec fn sorted_findings(s: Seq<(RuleResult, Severity)>) -> bool {
    forall|i: int, j: int| 0 <= i < j < s.len() ==> finding_le(#[trigger] s[i], #[trigger] s[j])
}

proof fn lemma_finding_le_total(a: (RuleResult, Severity), b: (RuleResult, Severity))
    ensures
        finding_le(a, b) || finding_le(b, a),
{
    lemma_str_le_total(a.0.object_type@, b.0.object_type@);
    lemma_str_le_total(a.0.rule_name@, b.0.rule_name@);
}

proof fn lemma_finding_le_transitive(
    a: (RuleResult, Severity),
    b: (RuleResult, Severity),
    c: (RuleResult, Severity),
)
    requires
        finding_le(a, b),
        finding_le(b, c),
    ensures
        finding_le(a, c),
{
    let (x, y, z) = (a.0.object_type@, b.0.object_type@, c.0.object_type@);
    if str_le(x, y) && str_le(y, z) {
        lemma_str_le_transitive(x, y, z);
        if x == z && x != y {
            lemma_str_le_antisymmetric(x, y);
        }
    }
    let (p, q, w) = (a.0.rule_name@, b.0.rule_name@, c.0.rule_name@);
    if str_le(p, q) && str_le(q, w) {
        lemma_str_le_transitive(p, q, w);
    }
}

fn finding_less_eq(a: &(RuleResult, Severity), b: &(RuleResult, Severity)) -> (r: bool)
    ensures
        r == finding_le(*a, *b),
{
    let ca = a.1.as_code();
    let cb = b.1.as_code();
    if ca != cb {
        return ca > cb;
    }
    if str_equal(a.0.object_type.as_str(), b.0.object_type.as_str()) {
        str_less_eq(a.0.rule_name.as_str(), b.0.rule_name.as_str())
    } else {
        str_less_eq(a.0.object_type.as_str(), b.0.object_type.as_str())
    }
}

/// Sorts findings for a report: errors before warnings, then by object type,
/// then by rule name; equal findings keep their order.
pub fn sort_results(results: Vec<(RuleResult, Severity)>) -> (r: Vec<(RuleResult, Severity)>)
    ensures
        r@.to_multiset() == results@.to_multiset(),
        sorted_findings(r@),
{
    let mut input = results;
    let mut out: Vec<(RuleResult, Severity)> = Vec::new();
    while input.len() > 0
        invariant
            out@.to_multiset().add(input@.to_multiset()) == results@.to_multiset(),
            sorted_findings(out@),
        decreases input@.len(),
    {
        let ghost before = input@;
        let item = input.pop().unwrap();
        proof {
            assert(before =~= input@.push(item));
        }
        let mut k: usize = 0;
        while k < out.len() && !finding_less_eq(&item, &out[k])
            invariant
                k <= out@.len(),
                forall|j: int| 0 <= j < k ==> finding_le(#[trigger] out@[j], item),
            decreases out@.len() - k,
        {
            proof {
                lemma_finding_le_total(item, out@[k as int]);
            }
            k += 1;
        }
        let ghost old_out = out@;
        out.insert(k, item);
        proof {
            assert(out@ == old_out.insert(k as int, item));
            assert forall|i: int, j: int| 0 <= i < j < out@.len() implies finding_le(
                #[trigger] out@[i],
                #[trigger] out@[j],
            ) by {
                if j < k {
                    assert(finding_le(old_out[i], old_out[j]));
                } else if j == k {
                } else if i == k {
                    if k < old_out.len() {
                        if k + 1 < j {
                            assert(finding_le(old_out[k as int], old_out[j - 1]));
                            lemma_finding_le_transitive(item, old_out[k as int], old_out[j - 1]);
                        }
                    }
                } else if i < k {
                    assert(finding_le(old_out[i], item));
                    if j == k + 1 {
                        assert(finding_le(item, old_out[k as int]));
                    } else {
                        assert(finding_le(old_out[k as int], old_out[j - 1]));
                        lemma_finding_le_transitive(item, old_out[k as int], old_out[j - 1]);
                    }
                    lemma_finding_le_transitive(old_out[i], item, old_out[j - 1]);
                } else {
                    assert(finding_le(old_out[i - 1], old_out[j - 1]));
                }
            }
        }
    }
    proof {
        assert(input@.to_multiset() =~= Multiset::empty());
    }
    out
}

/// Whether some finding is an error.
pub open spec fn has_error(s: Seq<(RuleResult, Severity)>) -> bool {
    exists|i: int| 0 <= i < s.len() && s[i].1 == Severity::Error
}

/// The process status for a set of findings: 1 when any is an error, else 0.
pub fn exit_status(results: &Vec<(RuleResult, Severity)>) -> (r: i32)
    ensures
        r == (if has_error(results@) { 1i32 } else { 0i32 }),
{
    let mut i: usize = 0;
    while i < results.len()
        invariant
            i <= results@.len(),
            forall|j: int| 0 <= j < i ==> results@[j].1 != Severity::Error,
        decreases results@.len() - i,
    {
        if results[i].1 == Severity::Error {
            return 1;
        }
        i += 1;
    }
    0
}

} // verus!
