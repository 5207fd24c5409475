//! Metadata view of a material (slot, path, size) and the legacy report.
use vstd::prelude::*;
use vstd::string::*;
use crate::material::{MaterialSet, TextureMap, TextureSlot};
use crate::text::decimal;
use crate::validation::{Issue, IssueModel, Severity, ValidationResult, issues_view};
use crate::json_report::count_issues;

verus! {

/// Metadata of one texture.
#[derive(Debug)]
pub struct TextureInfo {
    pub slot: TextureSlot,
    pub path: String,
    pub width: u32,
    pub height: u32,
}

/// Texture metadata keyed by slot: at most one entry per slot, in order of
/// first insertion.
#[derive(Debug)]
pub struct TextureSet {
    pub textures: Vec<TextureInfo>,
}

/// Index of the entry for `slot` among the first `k` entries, if any.
pub open spec fn slot_index(v: Seq<TextureInfo>, slot: TextureSlot) -> Option<int> {
    if exists|i: int| 0 <= i < v.len() && v[i].slot == slot {
        Some(choose|i: int| 0 <= i < v.len() && v[i].slot == slot)
    } else {
        None
    }
}

/// Every entry has the size of the first.
pub open spec fn consistent_sizes(v: Seq<TextureInfo>) -> bool {
    forall|i: int|
        0 <= i < v.len() ==> (#[trigger] v[i]).width == v[0].width && v[i].height == v[0].height
}

impl TextureSet {
    /// Slots are unique.
    pub open spec fn wf(&self) -> bool {
        forall|i: int, j: int|
            0 <= i < j < self.textures@.len() ==> self.textures@[i].slot != self.textures@[j].slot
    }

    pub fn new() -> (r: TextureSet)
        ensures
            r.textures@.len() == 0,
            r.wf(),
    {
        TextureSet { textures: Vec::new() }
    }

    /// Sets the entry of `info.slot`: replaces it in place, or appends.
    pub fn add_texture(&mut self, info: TextureInfo)
        requires
            old(self).wf(),
        ensures
            final(self).wf(),
            match slot_index(old(self).textures@, info.slot) {
                Some(i) => final(self).textures@ == old(self).textures@.update(i, info),
                None => final(self).textures@ == old(self).textures@.push(info),
            },
    {
        let mut k: usize = 0;
        while k < self.textures.len()
            invariant
                k <= self.textures@.len(),
                old(self).wf(),
                self.textures@ == old(self).textures@,
                forall|x: int| 0 <= x < k ==> self.textures@[x].slot != info.slot,
            decreases self.textures@.len() - k,
        {
            if self.textures[k].slot == info.slot {
                let ghost i = k as int;
                assert(slot_index(old(self).textures@, info.slot) == Some(i)) by {
                    assert(0 <= i < old(self).textures@.len() && old(self).textures@[i].slot == info.slot);
                    let j = choose|j: int|
                        0 <= j < old(self).textures@.len() && old(self).textures@[j].slot == info.slot;
                    if j < i {
                        assert(old(self).textures@[j].slot != old(self).textures@[i].slot);
                    } else if j > i {
                        assert(old(self).textures@[i].slot != old(self).textures@[j].slot);
                    }
                }
                self.textures.set(k, info);
                assert forall|a: int, b: int| 0 <= a < b < self.textures@.len() implies self.textures@[a].slot
                    != self.textures@[b].slot by {
                    assert(self.textures@[a].slot == old(self).textures@[a].slot);
                    assert(self.textures@[b].slot == old(self).textures@[b].slot);
                }
                return;
            }
            k += 1;
        }
        self.textures.push(info);
    }

    /// The entry of a slot.
    pub fn get(&self, slot: TextureSlot) -> (r: Option<&TextureInfo>)
        requires
            self.wf(),
        ensures
            match slot_index(self.textures@, slot) {
                Some(i) => r is Some && *r->Some_0 == self.textures@[i],
                None => r is None,
            },
    {
        let mut k: usize = 0;
        while k < self.textures.len()
            invariant
                k <= self.textures@.len(),
                self.wf(),
                forall|x: int| 0 <= x < k ==> self.textures@[x].slot != slot,
            decreases self.textures@.len() - k,
        {
            if self.textures[k].slot == slot {
                assert(slot_index(self.textures@, slot) == Some(k as int)) by {
                    assert(0 <= k < self.textures@.len() && self.textures@[k as int].slot == slot);
                    let j = choose|j: int|
                        0 <= j < self.textures@.len() && self.textures@[j].slot == slot;
                    if j < k {
                        assert(self.textures@[j].slot != self.textures@[k as int].slot);
                    } else if j > k {
                        assert(self.textures@[k as int].slot != self.textures@[j].slot);
                    }
                }
                return Some(&self.textures[k]);
            }
            k += 1;
        }
        None
    }

    /// Whether a slot has an entry.
    pub fn has_slot(&self, slot: TextureSlot) -> (r: bool)
        requires
            self.wf(),
        ensures
            r == slot_index(self.textures@, slot) is Some,
    {
        self.get(slot).is_some()
    }

    /// Size of the first entry.
    pub fn dimensions(&self) -> (r: Option<(u32, u32)>)
        ensures
            r == if self.textures@.len() > 0 {
                Some((self.textures@[0].width, self.textures@[0].height))
            } else {
                None
            },
    {
        if self.textures.len() > 0 {
            Some((self.textures[0].width, self.textures[0].height))
        } else {
            None
        }
    }

    /// Whether every entry has the size of the first.
    pub fn dimensions_consistent(&self) -> (r: bool)
        ensures
            r == consistent_sizes(self.textures@),
    {
        let mut k: usize = 0;
        while k < self.textures.len()
            invariant
                k <= self.textures@.len(),
                forall|i: int|
                    0 <= i < k ==> (#[trigger] self.textures@[i]).width == self.textures@[0].width
                        && self.textures@[i].height == self.textures@[0].height,
            decreases self.textures@.len() - k,
        {
            if self.textures[k].width != self.textures[0].width || self.textures[k].height
                != self.textures[0].height {
                return false;
            }
            k += 1;
        }
        true
    }

    /// The metadata of a material's present slots, in slot order; a texture
    /// without a source path gets an empty one.
    pub fn from_material_set(set: &MaterialSet) -> (r: TextureSet)
        ensures
            r.wf(),
            r.textures@.len() == set.spec_texture_count(),
            forall|s: TextureSlot|
                (#[trigger] slot_index(r.textures@, s) is Some) == set.spec_get(s) is Some,
            forall|i: int|
                0 <= i < r.textures@.len() ==> {
                    let t = set.spec_get(#[trigger] r.textures@[i].slot);
                    t is Some && r.textures@[i].width == t->Some_0.width && r.textures@[i].height
                        == t->Some_0.height
                },
    {
        let mut ts = TextureSet::new();
        add_info(&mut ts, TextureSlot::Albedo, &set.albedo);
        add_info(&mut ts, TextureSlot::Normal, &set.normal);
        add_info(&mut ts, TextureSlot::Roughness, &set.roughness);
        add_info(&mut ts, TextureSlot::Metallic, &set.metallic);
        add_info(&mut ts, TextureSlot::AmbientOcclusion, &set.ao);
        add_info(&mut ts, TextureSlot::Height, &set.height);
        proof {
            reveal_with_fuel(crate::material::count_present, 7);
            let m = set.maps();
            assert(m.drop_last() =~= m.subrange(0, 5));
            assert(m.drop_last().drop_last() =~= m.subrange(0, 4));
            assert(m.drop_last().drop_last().drop_last() =~= m.subrange(0, 3));
            assert(m.drop_last().drop_last().drop_last().drop_last() =~= m.subrange(0, 2));
            assert(m.drop_last().drop_last().drop_last().drop_last().drop_last() =~= m.subrange(
                0,
                1,
            ));
            assert forall|s: TextureSlot|
                (#[trigger] slot_index(ts.textures@, s) is Some) == set.spec_get(s) is Some by {
                if set.spec_get(s) is Some {
                    let i = choose|i: int|
                        0 <= i < ts.textures@.len() && ts.textures@[i].slot == s;
                }
            }
        }
        ts
    }
}

/// Appends the metadata of a present texture whose slot is not yet listed.
fn add_info(ts: &mut TextureSet, slot: TextureSlot, t: &Option<TextureMap>)
    requires
        old(ts).wf(),
        forall|i: int| 0 <= i < old(ts).textures@.len() ==> old(ts).textures@[i].slot != slot,
    ensures
        final(ts).wf(),
        final(ts).textures@.len() == old(ts).textures@.len() + if t is Some { 1int } else { 0int },
        forall|i: int| 0 <= i < old(ts).textures@.len() ==> final(ts).textures@[i] == old(ts).textures@[i],
        t is Some ==> ({
            let e = final(ts).textures@[old(ts).textures@.len() as int];
            e.slot == slot && e.width == t->Some_0.width && e.height == t->Some_0.height
        }),
{
    if let Some(m) = t {
        let path = match &m.path {
            Some(p) => p.clone(),
            None => String::new(),
        };
        ts.textures.push(TextureInfo { slot, path, width: m.width, height: m.height });
    }
}

/// Findings of the metadata analysis.
#[derive(Clone, Copy, Debug, PartialEq, Eq, Structural)]
pub struct MaterialAnalysis {
    pub has_albedo: bool,
    pub has_normal: bool,
    pub has_metallic: bool,
    pub has_roughness: bool,
    pub has_ao: bool,
    pub dimensions_consistent: bool,
    pub texture_count: usize,
}

impl Default for MaterialAnalysis {
    fn default() -> (r: MaterialAnalysis)
        ensures
            !r.has_albedo && !r.has_normal && !r.has_metallic && !r.has_roughness && !r.has_ao,
            r.dimensions_consistent,
            r.texture_count == 0,
    {
        MaterialAnalysis {
            has_albedo: false,
            has_normal: false,
            has_metallic: false,
            has_roughness: false,
            has_ao: false,
            dimensions_consistent: true,
            texture_count: 0,
        }
    }
}

/// Analyzes texture metadata.
pub struct MaterialAnalyzer;

impl MaterialAnalyzer {
    /// Which slots are present, whether sizes agree, and how many entries.
    pub fn analyze(set: &TextureSet) -> (r: MaterialAnalysis)
        requires
            set.wf(),
        ensures
            r.has_albedo == slot_index(set.textures@, TextureSlot::Albedo) is Some,
            r.has_normal == slot_index(set.textures@, TextureSlot::Normal) is Some,
            r.has_metallic == slot_index(set.textures@, TextureSlot::Metallic) is Some,
            r.has_roughness == slot_index(set.textures@, TextureSlot::Roughness) is Some,
            r.has_ao == slot_index(set.textures@, TextureSlot::AmbientOcclusion) is Some,
            r.dimensions_consistent == consistent_sizes(set.textures@),
            r.texture_count == set.textures@.len(),
    {
        MaterialAnalysis {
            has_albedo: set.has_slot(TextureSlot::Albedo),
            has_normal: set.has_slot(TextureSlot::Normal),
            has_metallic: set.has_slot(TextureSlot::Metallic),
            has_roughness: set.has_slot(TextureSlot::Roughness),
            has_ao: set.has_slot(TextureSlot::AmbientOcclusion),
            dimensions_consistent: set.dimensions_consistent(),
            texture_count: set.textures.len(),
        }
    }
}

/// Number of results of a severity among the first `k`.
pub open spec fn count_severity(v: Seq<ValidationResult>, s: Severity, k: int) -> int
    decreases k,
{
    if k <= 0 {
        0
    } else {
        count_severity(v, s, k - 1) + if v[k - 1].severity == s { 1int } else { 0int }
    }
}

/// The legacy report: analysis, results and counts.
#[derive(Debug)]
pub struct Report {
    pub name: Option<String>,
    pub analysis: MaterialAnalysis,
    pub validation_results: Vec<ValidationResult>,
    /// No Critical result.
    pub passed: bool,
    /// Number of Critical results.
    pub error_count: usize,
    /// Number of Major results.
    pub warning_count: usize,
}

/// Builder of a [`Report`].
pub struct ReportBuilder {
    pub name: Option<String>,
    pub analysis: Option<MaterialAnalysis>,
    pub validation_results: Vec<ValidationResult>,
}

fn count_of(v: &Vec<ValidationResult>, s: Severity) -> (r: usize)
    ensures
        r == count_severity(v@, s, v@.len() as int),
{
    let mut n: usize = 0;
    let mut k: usize = 0;
    while k < v.len()
        invariant
            k <= v@.len(),
            n == count_severity(v@, s, k as int),
            n <= k,
        decreases v@.len() - k,
    {
        if v[k].severity == s {
            n += 1;
        }
        k += 1;
    }
    n
}

impl ReportBuilder {
    pub fn new() -> (r: ReportBuilder)
        ensures
            r.name is None,
            r.analysis is None,
            r.validation_results@.len() == 0,
    {
        ReportBuilder { name: None, analysis: None, validation_results: Vec::new() }
    }

    pub fn with_name(self, name: &str) -> (r: ReportBuilder)
        ensures
            r.name is Some && r.name->Some_0@ == name@,
            r.analysis == self.analysis,
            r.validation_results == self.validation_results,
    {
        let mut b = self;
        b.name = Some(String::from_str(name));
        b
    }

    pub fn with_analysis(self, analysis: MaterialAnalysis) -> (r: ReportBuilder)
        ensures
            r.name == self.name,
            r.analysis == Some(analysis),
            r.validation_results == self.validation_results,
    {
        let mut b = self;
        b.analysis = Some(analysis);
        b
    }

    pub fn with_validation_results(self, results: Vec<ValidationResult>) -> (r: ReportBuilder)
        ensures
            r.name == self.name,
            r.analysis == self.analysis,
            r.validation_results == results,
    {
        let mut b = self;
        b.validation_results = results;
        b
    }

    pub fn add_validation_result(self, result: ValidationResult) -> (r: ReportBuilder)
        ensures
            r.name == self.name,
            r.analysis == self.analysis,
            r.validation_results@ == self.validation_results@.push(result),
    {
        let mut b = self;
        b.validation_results.push(result);
        b
    }

    /// The report: the analysis (or the empty one), the results, and their
    /// Critical and Major counts; passed when there is no Critical result.
    pub fn build(self) -> (r: Report)
        ensures
            r.name == self.name,
            self.analysis is Some ==> r.analysis == self.analysis->Some_0,
            self.analysis is None ==> r.analysis == (MaterialAnalysis {
                has_albedo: false,
                has_normal: false,
                has_metallic: false,
                has_roughness: false,
                has_ao: false,
                dimensions_consistent: true,
                texture_count: 0,
            }),
            r.validation_results == self.validation_results,
            r.error_count == count_severity(self.validation_results@, Severity::Critical, self.validation_results@.len() as int),
            r.warning_count == count_severity(self.validation_results@, Severity::Major, self.validation_results@.len() as int),
            r.passed == (r.error_count == 0),
    {
        let analysis = match self.analysis {
            Some(a) => a,
            None => MaterialAnalysis::default(),
        };
        let error_count = count_of(&self.validation_results, Severity::Critical);
        let warning_count = count_of(&self.validation_results, Severity::Major);
        Report {
            name: self.name,
            analysis,
            validation_results: self.validation_results,
            passed: error_count == 0,
            error_count,
            warning_count,
        }
    }
}

impl Report {
    /// A report from metadata and results, named "Unnamed" when no name is given.
    pub fn from_texture_set(set: &TextureSet, validation_results: Vec<ValidationResult>, name: Option<String>) -> (r: Report)
        requires
            set.wf(),
        ensures
            r.name is Some,
            name is Some ==> r.name->Some_0@ == name->Some_0@,
            name is None ==> r.name->Some_0@ == "Unnamed"@,
            r.validation_results == validation_results,
            r.analysis.texture_count == set.textures@.len(),
            r.error_count == count_severity(validation_results@, Severity::Critical, validation_results@.len() as int),
            r.warning_count == count_severity(validation_results@, Severity::Major, validation_results@.len() as int),
            r.passed == (r.error_count == 0),
    {
        let n = match name {
            Some(n) => n,
            None => String::from_str("Unnamed"),
        };
        let analysis = MaterialAnalyzer::analyze(set);
        let mut b = ReportBuilder::new();
        b.name = Some(n);
        b.with_analysis(analysis).with_validation_results(validation_results).build()
    }

    /// A report of a material and its issues (each a failed result), named
    /// after the material or "Unnamed".
    pub fn from_material_set(set: &MaterialSet, issues: Vec<Issue>) -> (r: Report)
        ensures
            r.name is Some,
            set.name is Some ==> r.name->Some_0@ == set.name->Some_0@,
            set.name is None ==> r.name->Some_0@ == "Unnamed"@,
            r.validation_results@.len() == issues@.len(),
            forall|k: int|
                0 <= k < issues@.len() ==> (#[trigger] r.validation_results@[k]).rule_id@
                    == issues@[k].rule_id@ && r.validation_results@[k].severity == issues@[k].severity
                    && r.validation_results@[k].message@ == issues@[k].message@
                    && !r.validation_results@[k].passed,
            r.analysis.texture_count == set.spec_texture_count(),
            r.error_count == count_issues(issues_view(issues@), Severity::Critical, issues@.len() as int),
            r.warning_count == count_issues(issues_view(issues@), Severity::Major, issues@.len() as int),
            r.passed == (r.error_count == 0),
    {
        let ts = TextureSet::from_material_set(set);
        let mut results: Vec<ValidationResult> = Vec::new();
        let mut issues = issues;
        let ghost orig = issues@;
        let mut k: usize = 0;
        let n = issues.len();
        while k < n
            invariant
                n == orig.len(),
                k <= n,
                issues@ == orig.subrange(k as int, n as int),
                results@.len() == k,
                forall|j: int|
                    0 <= j < k ==> (#[trigger] results@[j]).rule_id@ == orig[j].rule_id@
                        && results@[j].severity == orig[j].severity && results@[j].message@
                        == orig[j].message@ && !results@[j].passed,
            decreases n - k,
        {
            let i = issues.remove(0);
            results.push(ValidationResult::from_issue(i));
            k += 1;
        }
        let name = match &set.name {
            Some(n) => n.clone(),
            None => String::from_str("Unnamed"),
        };
        let analysis = MaterialAnalyzer::analyze(&ts);
        proof {
            lemma_counts_agree(results@, issues_view(orig), Severity::Critical, n as int);
            lemma_counts_agree(results@, issues_view(orig), Severity::Major, n as int);
        }
        let mut b = ReportBuilder::new();
        b.name = Some(name);
        b.with_analysis(analysis).with_validation_results(results).build()
    }
}

proof fn lemma_counts_agree(v: Seq<ValidationResult>, w: Seq<IssueModel>, s: Severity, k: int)
    requires
        0 <= k <= v.len(),
        v.len() == w.len(),
        forall|j: int| 0 <= j < v.len() ==> (#[trigger] v[j]).severity == w[j].severity,
    ensures
        count_severity(v, s, k) == count_issues(w, s, k),
    decreases k,
{
    if k > 0 {
        lemma_counts_agree(v, w, s, k - 1);
    }
}

/// "true" or "false".
pub open spec fn bool_text(b: bool) -> Seq<char> {
    if b {
        "true"@
    } else {
        "false"@
    }
}

/// Lower-case name of a severity.
pub open spec fn severity_word(s: Severity) -> Seq<char> {
    match s {
        Severity::Critical => "critical"@,
        Severity::Major => "major"@,
        Severity::Minor => "minor"@,
    }
}

/// The line of one result: mark, severity, rule and message.
pub open spec fn result_line(v: ValidationResult) -> Seq<char> {
    "  "@ + (if v.passed { "\u{2713}"@ } else { "\u{2717}"@ }) + " ["@ + severity_word(v.severity) + "] "@
        + v.rule_id@ + ": "@ + v.message@
}

/// The lines of a report's text form before the results.
pub open spec fn report_head(r: Report) -> Seq<Seq<char>> {
    let a = r.analysis;
    (match r.name {
        Some(n) => seq!["Report: "@ + n@, Seq::<char>::empty()],
        None => Seq::empty(),
    }) + seq![
        "Analysis"@,
        "  Textures: "@ + decimal(a.texture_count as nat),
        "  Albedo: "@ + bool_text(a.has_albedo),
        "  Normal: "@ + bool_text(a.has_normal),
        "  Metallic: "@ + bool_text(a.has_metallic),
        "  Roughness: "@ + bool_text(a.has_roughness),
        "  AO: "@ + bool_text(a.has_ao),
        "  Dimensions consistent: "@ + bool_text(a.dimensions_consistent),
        Seq::<char>::empty(),
        "Validation"@,
    ]
}

/// The lines of a report's text form.
pub open spec fn report_lines(r: Report) -> Seq<Seq<char>> {
    report_head(r) + r.validation_results@.map_values(|v: ValidationResult| result_line(v)) + seq![
        Seq::<char>::empty(),
        "Result: "@ + (if r.passed { "PASSED"@ } else { "FAILED"@ }) + " ("@ + decimal(r.error_count as nat)
            + " errors, "@ + decimal(r.warning_count as nat) + " warnings)"@,
    ]
}

/// Lines joined by newlines.
pub open spec fn join_lines(lines: Seq<Seq<char>>) -> Seq<char>
    decreases lines.len(),
{
    if lines.len() == 0 {
        Seq::empty()
    } else if lines.len() == 1 {
        lines[0]
    } else {
        join_lines(lines.drop_last()) + "\n"@ + lines.last()
    }
}

fn bool_str(b: bool) -> (r: &'static str)
    ensures
        r@ == bool_text(b),
{
    if b {
        "true"
    } else {
        "false"
    }
}

fn labeled(label: &str, value: &str) -> (r: String)
    ensures
        r@ == label@ + value@,
{
    let mut s = String::from_str(label);
    s.append(value);
    s
}

fn result_text(v: &ValidationResult) -> (r: String)
    ensures
        r@ == result_line(*v),
{
    let mut s = String::from_str("  ");
    s.append(if v.passed { "\u{2713}" } else { "\u{2717}" });
    s.append(" [");
    s.append(
        match v.severity {
            Severity::Critical => "critical",
            Severity::Major => "major",
            Severity::Minor => "minor",
        },
    );
    s.append("] ");
    s.append(v.rule_id.as_str());
    s.append(": ");
    s.append(v.message.as_str());
    s
}

fn push_line(lines: &mut Vec<String>, line: String)
    ensures
        final(lines)@.len() == old(lines)@.len() + 1,
        forall|k: int| 0 <= k < old(lines)@.len() ==> final(lines)@[k] == old(lines)@[k],
        final(lines)@.last()@ == line@,
{
    lines.push(line);
}

/// The text views of a list of strings.
pub open spec fn line_views(v: Seq<String>) -> Seq<Seq<char>> {
    v.map_values(|s: String| s@)
}

impl Report {
    /// Human-readable text: name, analysis, one line per result, and the
    /// outcome with its counts.
    pub fn to_text(&self) -> (r: String)
        ensures
            r@ == join_lines(report_lines(*self)),
    {
        let mut lines: Vec<String> = Vec::new();
        if let Some(name) = &self.name {
            push_line(&mut lines, labeled("Report: ", name.as_str()));
            push_line(&mut lines, String::new());
        }
        let a = &self.analysis;
        push_line(&mut lines, String::from_str("Analysis"));
        let count = crate::text::decimal_text(a.texture_count as u128);
        push_line(&mut lines, labeled("  Textures: ", count.as_str()));
        push_line(&mut lines, labeled("  Albedo: ", bool_str(a.has_albedo)));
        push_line(&mut lines, labeled("  Normal: ", bool_str(a.has_normal)));
        push_line(&mut lines, labeled("  Metallic: ", bool_str(a.has_metallic)));
        push_line(&mut lines, labeled("  Roughness: ", bool_str(a.has_roughness)));
        push_line(&mut lines, labeled("  AO: ", bool_str(a.has_ao)));
        push_line(&mut lines, labeled("  Dimensions consistent: ", bool_str(a.dimensions_consistent)));
        push_line(&mut lines, String::new());
        push_line(&mut lines, String::from_str("Validation"));
        let ghost head = line_views(lines@);
        let ghost expected_head = report_head(*self);
        assert(head =~= expected_head);
        let mut k: usize = 0;
        while k < self.validation_results.len()
            invariant
                k <= self.validation_results@.len(),
                lines@.len() == head.len() + k,
                forall|j: int| 0 <= j < head.len() ==> (#[trigger] lines@[j])@ == head[j],
                forall|j: int|
                    0 <= j < k ==> (#[trigger] lines@[head.len() + j])@ == result_line(
                        self.validation_results@[j],
                    ),
            decreases self.validation_results@.len() - k,
        {
            let line = result_text(&self.validation_results[k]);
            push_line(&mut lines, line);
            k += 1;
        }
        push_line(&mut lines, String::new());
        let mut last = String::from_str("Result: ");
        last.append(if self.passed { "PASSED" } else { "FAILED" });
        last.append(" (");
        let e = crate::text::decimal_text(self.error_count as u128);
        last.append(e.as_str());
        last.append(" errors, ");
        let w = crate::text::decimal_text(self.warning_count as u128);
        last.append(w.as_str());
        last.append(" warnings)");
        push_line(&mut lines, last);
        proof {
            let rl = report_lines(*self);
            let n = self.validation_results@.len();
            let mid = self.validation_results@.map_values(|v: ValidationResult| result_line(v));
            assert(rl.len() == lines@.len());
            assert forall|j: int| 0 <= j < rl.len() implies line_views(lines@)[j] == rl[j] by {
                if j < head.len() {
                    assert(lines@[j]@ == head[j]);
                } else if j < head.len() + n {
                    assert(lines@[head.len() + (j - head.len())]@ == result_line(
                        self.validation_results@[j - head.len()],
                    ));
                    assert(rl[j] == mid[j - head.len()]);
                }
            }
            assert(line_views(lines@) =~= report_lines(*self));
        }
        let mut out = String::new();
        let mut k: usize = 0;
        while k < lines.len()
            invariant
                k <= lines@.len(),
                out@ == join_lines(line_views(lines@).subrange(0, k as int)),
            decreases lines@.len() - k,
        {
            let ghost prev = line_views(lines@).subrange(0, k as int);
            if k > 0 {
                out.append("\n");
            }
            out.append(lines[k].as_str());
            proof {
                let next = line_views(lines@).subrange(0, k + 1);
                assert(next.drop_last() =~= prev);
                if k == 0 {
                    assert(next.len() == 1);
                }
            }
            k += 1;
        }
        assert(line_views(lines@).subrange(0, lines@.len() as int) =~= line_views(lines@));
        out
    }
}

} // verus!
