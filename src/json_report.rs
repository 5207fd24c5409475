//! The material report: score, summary, issues, suggestions and VRAM
//! estimate. Turning it into JSON is the caller's work.
use vstd::prelude::*;
use vstd::string::*;
use crate::estimation::{VramEstimate, estimate_vram, counted, counted_bytes};
use crate::material::MaterialSet;
use crate::text::str_eq;
use crate::validation::{Issue, IssueModel, issues_view, score_of, compute_score};

verus! {

/// Severity as reported.
#[derive(Clone, Copy, Debug, PartialEq, Eq, Structural)]
pub enum Severity {
    Critical,
    Major,
    Minor,
}

/// The reported severity of a validation severity.
pub open spec fn report_severity(s: crate::validation::Severity) -> Severity {
    match s {
        crate::validation::Severity::Critical => Severity::Critical,
        crate::validation::Severity::Major => Severity::Major,
        crate::validation::Severity::Minor => Severity::Minor,
    }
}

impl Severity {
    pub fn from_validation(s: crate::validation::Severity) -> (r: Severity)
        ensures
            r == report_severity(s),
    {
        match s {
            crate::validation::Severity::Critical => Severity::Critical,
            crate::validation::Severity::Major => Severity::Major,
            crate::validation::Severity::Minor => Severity::Minor,
        }
    }
}

/// An issue as reported.
#[derive(Debug)]
pub struct ReportIssue {
    pub rule_id: String,
    pub severity: Severity,
    pub message: String,
}

impl ReportIssue {
    pub fn from_issue(issue: Issue) -> (r: ReportIssue)
        ensures
            r.rule_id@ == issue.rule_id@,
            r.severity == report_severity(issue.severity),
            r.message@ == issue.message@,
    {
        ReportIssue {
            rule_id: issue.rule_id,
            severity: Severity::from_validation(issue.severity),
            message: issue.message,
        }
    }
}

/// A suggestion for optimizing a material.
#[derive(Debug)]
pub struct OptimizationSuggestion {
    /// e.g. "resolution", "pbr_correctness", "workflow".
    pub category: String,
    pub message: String,
    /// Higher is more impactful.
    pub priority: Option<u8>,
    pub details: Option<String>,
}

impl OptimizationSuggestion {
    pub fn new(category: &str, message: &str) -> (r: OptimizationSuggestion)
        ensures
            r.category@ == category@,
            r.message@ == message@,
            r.priority is None,
            r.details is None,
    {
        OptimizationSuggestion {
            category: String::from_str(category),
            message: String::from_str(message),
            priority: None,
            details: None,
        }
    }

    pub fn with_priority(self, priority: u8) -> (r: OptimizationSuggestion)
        ensures
            r.category == self.category,
            r.message == self.message,
            r.priority == Some(priority),
            r.details == self.details,
    {
        let mut s = self;
        s.priority = Some(priority);
        s
    }

    pub fn with_details(self, details: &str) -> (r: OptimizationSuggestion)
        ensures
            r.category == self.category,
            r.message == self.message,
            r.priority == self.priority,
            r.details is Some && r.details->Some_0@ == details@,
    {
        let mut s = self;
        s.details = Some(String::from_str(details));
        s
    }
}

/// The value of a suggestion: category, message, priority, details.
pub type SuggestionModel = (Seq<char>, Seq<char>, Option<u8>, Option<Seq<char>>);

/// The value of a suggestion.
pub open spec fn suggestion_view(s: OptimizationSuggestion) -> SuggestionModel {
    (
        s.category@,
        s.message@,
        s.priority,
        match s.details {
            Some(d) => Some(d@),
            None => None,
        },
    )
}

/// The suggestion an issue leads to, if any.
pub open spec fn suggestion_for(i: IssueModel) -> Option<SuggestionModel> {
    if i.rule_id == "texture_resolution"@ {
        Some(
            (
                "resolution"@,
                "Consider downscaling textures over 4K to reduce memory and improve load times"@,
                Some(2u8),
                Some(i.message),
            ),
        )
    } else if i.rule_id == "albedo_brightness_range"@ {
        Some(
            (
                "pbr_correctness"@,
                "Verify albedo texture values are in valid PBR range"@,
                None,
                Some(i.message),
            ),
        )
    } else if i.rule_id == "roughness_uniformity"@ {
        Some(
            (
                "workflow"@,
                "Use a proper roughness texture for more realistic surface variation"@,
                None,
                Some(i.message),
            ),
        )
    } else {
        None
    }
}

/// The suggestions of the first `k` issues, in order.
pub open spec fn issue_suggestions(v: Seq<IssueModel>, k: int) -> Seq<SuggestionModel>
    decreases k,
{
    if k <= 0 {
        Seq::empty()
    } else {
        match suggestion_for(v[k - 1]) {
            Some(s) => issue_suggestions(v, k - 1).push(s),
            None => issue_suggestions(v, k - 1),
        }
    }
}

/// All suggestions: those of the issues, or, when there are none and the
/// material is larger than 2K, a generic one.
pub open spec fn suggestions_for(set: MaterialSet, v: Seq<IssueModel>) -> Seq<SuggestionModel> {
    let s = issue_suggestions(v, v.len() as int);
    let big = match set.spec_dimensions() {
        Some(d) => d.0 > 2048 || d.1 > 2048,
        None => false,
    };
    if big && s.len() == 0 {
        seq![
            (
                "resolution"@,
                "Textures above 2K may be larger than needed for many use cases"@,
                Some(1u8),
                None,
            ),
        ]
    } else {
        s
    }
}

fn suggestion_of(i: &Issue) -> (r: Option<OptimizationSuggestion>)
    ensures
        match suggestion_for(i@) {
            Some(s) => r is Some && suggestion_view(r->Some_0) == s,
            None => r is None,
        },
{
    let id = i.rule_id.as_str();
    if str_eq(id, "texture_resolution") {
        Some(
            OptimizationSuggestion::new(
                "resolution",
                "Consider downscaling textures over 4K to reduce memory and improve load times",
            ).with_priority(2).with_details(i.message.as_str()),
        )
    } else if str_eq(id, "albedo_brightness_range") {
        Some(
            OptimizationSuggestion::new(
                "pbr_correctness",
                "Verify albedo texture values are in valid PBR range",
            ).with_details(i.message.as_str()),
        )
    } else if str_eq(id, "roughness_uniformity") {
        Some(
            OptimizationSuggestion::new(
                "workflow",
                "Use a proper roughness texture for more realistic surface variation",
            ).with_details(i.message.as_str()),
        )
    } else {
        None
    }
}

/// The views of a list of suggestions.
pub open spec fn suggestions_view(v: Seq<OptimizationSuggestion>) -> Seq<SuggestionModel> {
    v.map_values(|s: OptimizationSuggestion| suggestion_view(s))
}

/// Suggestions derived from a material and its issues.
pub fn derive_suggestions(set: &MaterialSet, issues: &Vec<Issue>) -> (r: Vec<OptimizationSuggestion>)
    ensures
        suggestions_view(r@) == suggestions_for(*set, issues_view(issues@)),
{
    let ghost v = issues_view(issues@);
    let mut out: Vec<OptimizationSuggestion> = Vec::new();
    let mut k: usize = 0;
    while k < issues.len()
        invariant
            v == issues_view(issues@),
            k <= issues@.len(),
            suggestions_view(out@) == issue_suggestions(v, k as int),
        decreases issues@.len() - k,
    {
        let ghost before = out@;
        match suggestion_of(&issues[k]) {
            Some(s) => {
                out.push(s);
                assert(suggestions_view(out@) =~= suggestions_view(before).push(suggestion_for(v[k as int])->Some_0));
            },
            None => {},
        }
        k += 1;
    }
    let big = match set.dimensions() {
        Some((w, h)) => w > 2048 || h > 2048,
        None => false,
    };
    if big && out.len() == 0 {
        out.push(
            OptimizationSuggestion::new(
                "resolution",
                "Textures above 2K may be larger than needed for many use cases",
            ).with_priority(1),
        );
        assert(suggestions_view(out@) =~= suggestions_for(*set, v));
    }
    out
}

/// Whether roughness, metallic and AO are all present.
pub fn can_pack_orm(set: &MaterialSet) -> (r: bool)
    ensures
        r == (set.roughness is Some && set.metallic is Some && set.ao is Some),
{
    set.roughness.is_some() && set.metallic.is_some() && set.ao.is_some()
}

/// Size of a material.
#[derive(Clone, Copy, Debug, PartialEq, Eq, Structural)]
pub struct TextureDimensions {
    pub width: u32,
    pub height: u32,
}

/// Which slots are present.
#[derive(Clone, Copy, Debug, PartialEq, Eq, Structural)]
pub struct MapSummary {
    pub albedo: bool,
    pub normal: bool,
    pub roughness: bool,
    pub metallic: bool,
    pub ao: bool,
    pub height: bool,
}

/// Summary of a material's maps.
#[derive(Clone, Copy, Debug, PartialEq, Eq, Structural)]
pub struct MaterialSummary {
    pub texture_count: usize,
    pub dimensions: Option<TextureDimensions>,
    pub maps: MapSummary,
    pub dimensions_consistent: bool,
}

/// The full report of one material.
#[derive(Debug)]
pub struct MaterialReport {
    pub name: Option<String>,
    /// 0 to 100.
    pub score: i32,
    pub summary: MaterialSummary,
    pub issues: Vec<ReportIssue>,
    pub optimization_suggestions: Vec<OptimizationSuggestion>,
    /// No Critical issue.
    pub passed: bool,
    /// Number of Critical issues.
    pub error_count: usize,
    /// Number of Major issues.
    pub warning_count: usize,
    pub vram_estimate: Option<VramEstimate>,
}

/// Number of issues of a severity among the first `k`.
pub open spec fn count_issues(v: Seq<IssueModel>, s: crate::validation::Severity, k: int) -> int
    decreases k,
{
    if k <= 0 {
        0
    } else {
        count_issues(v, s, k - 1) + if v[k - 1].severity == s { 1int } else { 0int }
    }
}

fn count_sev(issues: &Vec<Issue>, s: crate::validation::Severity) -> (r: usize)
    ensures
        r == count_issues(issues_view(issues@), s, issues@.len() as int),
{
    let ghost v = issues_view(issues@);
    let mut n: usize = 0;
    let mut k: usize = 0;
    while k < issues.len()
        invariant
            v == issues_view(issues@),
            k <= issues@.len(),
            n == count_issues(v, s, k as int),
            n <= k,
        decreases issues@.len() - k,
    {
        if issues[k].severity == s {
            n += 1;
        }
        k += 1;
    }
    n
}

impl MaterialReport {
    /// The report of a material and its issues: score, summary, issues,
    /// suggestions, counts, and the VRAM estimate with mipmaps (packed ORM
    /// when possible).
    pub fn from_material_set(set: &MaterialSet, issues: Vec<Issue>) -> (r: MaterialReport)
        ensures
            ({
                let v = issues_view(issues@);
                &&& r.name == set.name
                &&& r.score == score_of(v)
                &&& r.summary.texture_count == set.spec_texture_count()
                &&& r.summary.dimensions == match set.spec_dimensions() {
                    Some(d) => Some(TextureDimensions { width: d.0, height: d.1 }),
                    None => None,
                }
                &&& r.summary.maps == MapSummary {
                    albedo: set.albedo is Some,
                    normal: set.normal is Some,
                    roughness: set.roughness is Some,
                    metallic: set.metallic is Some,
                    ao: set.ao is Some,
                    height: set.height is Some,
                }
                &&& r.summary.dimensions_consistent == set.spec_dimensions_consistent()
                &&& r.issues@.len() == v.len()
                &&& forall|k: int|
                    0 <= k < v.len() ==> (#[trigger] r.issues@[k]).rule_id@ == v[k].rule_id
                        && r.issues@[k].severity == report_severity(v[k].severity)
                        && r.issues@[k].message@ == v[k].message
                &&& suggestions_view(r.optimization_suggestions@) == suggestions_for(*set, v)
                &&& r.error_count == count_issues(v, crate::validation::Severity::Critical, v.len() as int)
                &&& r.warning_count == count_issues(v, crate::validation::Severity::Major, v.len() as int)
                &&& r.passed == (r.error_count == 0)
                &&& r.vram_estimate is Some
                &&& r.vram_estimate->Some_0.include_mipmaps
                &&& r.vram_estimate->Some_0.packed_orm == (set.roughness is Some && set.metallic is Some && set.ao is Some)
                &&& r.vram_estimate->Some_0.bytes == counted_bytes(
                    counted(*set, r.vram_estimate->Some_0.packed_orm),
                    true,
                    counted(*set, r.vram_estimate->Some_0.packed_orm).len() as int,
                )
            }),
    {
        let ghost v = issues_view(issues@);
        let score = compute_score(issues.as_slice());
        let error_count = count_sev(&issues, crate::validation::Severity::Critical);
        let warning_count = count_sev(&issues, crate::validation::Severity::Major);
        let suggestions = derive_suggestions(set, &issues);
        let dims = match set.dimensions() {
            Some((w, h)) => Some(TextureDimensions { width: w, height: h }),
            None => None,
        };
        let summary = MaterialSummary {
            texture_count: set.texture_count(),
            dimensions: dims,
            maps: MapSummary {
                albedo: set.albedo.is_some(),
                normal: set.normal.is_some(),
                roughness: set.roughness.is_some(),
                metallic: set.metallic.is_some(),
                ao: set.ao.is_some(),
                height: set.height.is_some(),
            },
            dimensions_consistent: set.dimensions_consistent(),
        };
        let mut reported: Vec<ReportIssue> = Vec::new();
        let mut rest = issues;
        let ghost orig = rest@;
        let n = rest.len();
        let mut k: usize = 0;
        while k < n
            invariant
                n == orig.len(),
                v == issues_view(orig),
                k <= n,
                rest@ == orig.subrange(k as int, n as int),
                reported@.len() == k,
                forall|j: int|
                    0 <= j < k ==> (#[trigger] reported@[j]).rule_id@ == v[j].rule_id
                        && reported@[j].severity == report_severity(v[j].severity)
                        && reported@[j].message@ == v[j].message,
            decreases n - k,
        {
            let i = rest.remove(0);
            reported.push(ReportIssue::from_issue(i));
            k += 1;
        }
        let pack = can_pack_orm(set);
        let vram = estimate_vram(set, true, pack);
        let name = match &set.name {
            Some(s) => Some(s.clone()),
            None => None,
        };
        MaterialReport {
            name,
            score,
            summary,
            issues: reported,
            optimization_suggestions: suggestions,
            passed: error_count == 0,
            error_count,
            warning_count,
            vram_estimate: Some(vram),
        }
    }
}

} // verus!
