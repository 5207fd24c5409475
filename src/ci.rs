//! Per-material results in the form continuous-integration output uses.
use vstd::prelude::*;
use vstd::string::*;
use crate::json_report::OptimizationSuggestion;
use crate::validation::{Issue, IssueModel, Severity, issues_view};

verus! {

/// An issue in CI output.
#[derive(Debug)]
pub struct CiIssue {
    pub rule_id: String,
    /// "critical", "major" or "minor".
    pub severity: String,
    pub message: String,
}

/// A suggestion in CI output.
#[derive(Debug)]
pub struct CiOptimizationSuggestion {
    pub category: String,
    pub message: String,
}

/// One material's CI result.
#[derive(Debug)]
pub struct CiMaterialResult {
    pub path: String,
    pub score: i32,
    /// The score reaches the minimum.
    pub passed: bool,
    pub critical_count: usize,
    pub major_count: usize,
    pub minor_count: usize,
    pub issues: Vec<CiIssue>,
    pub optimization_suggestions: Vec<CiOptimizationSuggestion>,
}

/// Lower-case name of a severity.
pub open spec fn severity_name(s: Severity) -> Seq<char> {
    match s {
        Severity::Critical => "critical"@,
        Severity::Major => "major"@,
        Severity::Minor => "minor"@,
    }
}

/// Number of issues of a severity among the first `k`.
pub open spec fn count_of(v: Seq<IssueModel>, s: Severity, k: int) -> int
    decreases k,
{
    if k <= 0 {
        0
    } else {
        count_of(v, s, k - 1) + if v[k - 1].severity == s { 1int } else { 0int }
    }
}

fn severity_text(s: Severity) -> (r: String)
    ensures
        r@ == severity_name(s),
{
    match s {
        Severity::Critical => String::from_str("critical"),
        Severity::Major => String::from_str("major"),
        Severity::Minor => String::from_str("minor"),
    }
}

/// The CI result of a material without suggestions.
pub fn to_ci_result(path: &str, issues: &[Issue], score: i32, min_score: i32) -> (r: CiMaterialResult)
    ensures
        r.path@ == path@,
        r.score == score,
        r.passed == (score >= min_score),
        r.critical_count == count_of(issues_view(issues@), Severity::Critical, issues@.len() as int),
        r.major_count == count_of(issues_view(issues@), Severity::Major, issues@.len() as int),
        r.minor_count == count_of(issues_view(issues@), Severity::Minor, issues@.len() as int),
        r.issues@.len() == issues@.len(),
        r.optimization_suggestions@.len() == 0,
{
    let none: Vec<OptimizationSuggestion> = Vec::new();
    to_ci_result_with_suggestions(path, issues, score, min_score, none.as_slice())
}

/// The CI result of a material: counts per severity, each issue with its
/// severity's name, and the suggestions' categories and messages.
pub fn to_ci_result_with_suggestions(
    path: &str,
    issues: &[Issue],
    score: i32,
    min_score: i32,
    optimization_suggestions: &[OptimizationSuggestion],
) -> (r: CiMaterialResult)
    ensures
        r.path@ == path@,
        r.score == score,
        r.passed == (score >= min_score),
        r.critical_count == count_of(issues_view(issues@), Severity::Critical, issues@.len() as int),
        r.major_count == count_of(issues_view(issues@), Severity::Major, issues@.len() as int),
        r.minor_count == count_of(issues_view(issues@), Severity::Minor, issues@.len() as int),
        r.issues@.len() == issues@.len(),
        forall|k: int|
            0 <= k < issues@.len() ==> (#[trigger] r.issues@[k]).rule_id@ == issues@[k].rule_id@
                && r.issues@[k].severity@ == severity_name(issues@[k].severity)
                && r.issues@[k].message@ == issues@[k].message@,
        r.optimization_suggestions@.len() == optimization_suggestions@.len(),
        forall|k: int|
            0 <= k < optimization_suggestions@.len() ==> (#[trigger] r.optimization_suggestions@[k]).category
                == optimization_suggestions@[k].category && r.optimization_suggestions@[k].message
                == optimization_suggestions@[k].message,
{
    let ghost v = issues_view(issues@);
    let mut critical: usize = 0;
    let mut major: usize = 0;
    let mut minor: usize = 0;
    let mut out: Vec<CiIssue> = Vec::new();
    let mut k: usize = 0;
    while k < issues.len()
        invariant
            v == issues_view(issues@),
            k <= issues@.len(),
            critical == count_of(v, Severity::Critical, k as int),
            major == count_of(v, Severity::Major, k as int),
            minor == count_of(v, Severity::Minor, k as int),
            critical + major + minor == k,
            out@.len() == k,
            forall|j: int|
                0 <= j < k ==> (#[trigger] out@[j]).rule_id@ == issues@[j].rule_id@
                    && out@[j].severity@ == severity_name(issues@[j].severity)
                    && out@[j].message@ == issues@[j].message@,
        decreases issues@.len() - k,
    {
        let i = &issues[k];
        match i.severity {
            Severity::Critical => critical += 1,
            Severity::Major => major += 1,
            Severity::Minor => minor += 1,
        }
        out.push(
            CiIssue {
                rule_id: i.rule_id.clone(),
                severity: severity_text(i.severity),
                message: i.message.clone(),
            },
        );
        k += 1;
    }
    let mut sugg: Vec<CiOptimizationSuggestion> = Vec::new();
    let mut k: usize = 0;
    while k < optimization_suggestions.len()
        invariant
            k <= optimization_suggestions@.len(),
            sugg@.len() == k,
            forall|j: int|
                0 <= j < k ==> (#[trigger] sugg@[j]).category == optimization_suggestions@[j].category
                    && sugg@[j].message == optimization_suggestions@[j].message,
        decreases optimization_suggestions@.len() - k,
    {
        let s = &optimization_suggestions[k];
        sugg.push(CiOptimizationSuggestion { category: s.category.clone(), message: s.message.clone() });
        k += 1;
    }
    CiMaterialResult {
        path: String::from_str(path),
        score,
        passed: score >= min_score,
        critical_count: critical,
        major_count: major,
        minor_count: minor,
        issues: out,
        optimization_suggestions: sugg,
    }
}

} // verus!
