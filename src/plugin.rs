//! Config-described rules and presets, and the script plugin protocol.
//!
//! A plugin manifest describes rules (a condition and a severity) and export
//! presets. A script rule hands a material summary to an external command and
//! reads issues back; running the command is the caller's work, and what it
//! produced comes back here as a [`ScriptOutcome`].
use vstd::prelude::*;
use vstd::string::*;
use crate::material::MaterialSet;
use crate::validation::{
    Issue,
    IssueModel,
    Severity,
    issue,
    issues_view,
    opt_seq,
    opt_model,
    deref_outcome,
    dims_list,
    any_flagged,
};
use crate::text::{decimal, decimal_text, str_eq};

verus! {

/// What `str::to_lowercase` returns for a string.
pub uninterp spec fn lower_of(s: Seq<char>) -> Seq<char>;

/// Relies on `str::to_lowercase`: the result depends on the characters alone.
#[verifier::external_body]
pub(crate) fn lowercase(s: &str) -> (r: String)
    ensures
        r@ == lower_of(s@),
{
    s.to_lowercase()
}

/// Plugin manifest: name, version, rules and presets.
#[derive(Debug)]
pub struct PluginManifest {
    pub name: String,
    pub version: String,
    pub rules: Vec<RuleConfig>,
    pub presets: Vec<PresetConfig>,
}

/// A rule described by configuration.
#[derive(Debug)]
pub struct RuleConfig {
    pub id: String,
    pub description: String,
    /// "critical"/"error", "major"/"warning" or "minor"/"info"; anything else
    /// counts as major.
    pub severity: String,
    pub condition: RuleCondition,
}

/// Conditions a config rule can test.
#[derive(Debug)]
pub enum RuleCondition {
    RequiredMaps { maps: Vec<String> },
    MaxResolution { max_width: u32, max_height: u32 },
    MinResolution { min_width: u32, min_height: u32 },
    PowerOfTwo,
    MaxTextureCount { max: usize },
    /// An external command: reads the material summary, writes issues.
    Script { command: String, args: Vec<String> },
}

/// Severity that a manifest gives when it names none.
pub fn default_severity() -> (r: String)
    ensures
        r@ == "major"@,
{
    String::from_str("major")
}

/// Export preset described by configuration.
#[derive(Debug)]
pub struct PresetConfig {
    pub id: String,
    pub name: String,
    /// "4k", "2k", "1k", "512", "256" or "128" (or 4096, 2048, 1024).
    pub target_resolution: String,
    pub include_lod: bool,
}

/// Longest edge named by a preset's resolution word (already lower case);
/// unknown words mean 2048.
pub open spec fn preset_dimension(l: Seq<char>) -> u32 {
    if l == "4k"@ || l == "4096"@ {
        4096
    } else if l == "2k"@ || l == "2048"@ {
        2048
    } else if l == "1k"@ || l == "1024"@ {
        1024
    } else if l == "512"@ {
        512
    } else if l == "256"@ {
        256
    } else if l == "128"@ {
        128
    } else {
        2048
    }
}

impl PresetConfig {
    /// Longest edge of this preset's target resolution.
    pub fn max_dimension(&self) -> (r: u32)
        ensures
            r == preset_dimension(lower_of(self.target_resolution@)),
    {
        let l = lowercase(self.target_resolution.as_str());
        dimension_of_word(l.as_str())
    }
}

/// Longest edge named by a resolution word already in lower case; unknown
/// words mean 2048.
pub fn dimension_of_word(l: &str) -> (r: u32)
    ensures
        r == preset_dimension(l@),
{
    if str_eq(l, "4k") || str_eq(l, "4096") {
        4096
    } else if str_eq(l, "2k") || str_eq(l, "2048") {
        2048
    } else if str_eq(l, "1k") || str_eq(l, "1024") {
        1024
    } else if str_eq(l, "512") {
        512
    } else if str_eq(l, "256") {
        256
    } else if str_eq(l, "128") {
        128
    } else {
        2048
    }
}

/// Severity named by a word (already lower case).
pub open spec fn severity_word(l: Seq<char>) -> Option<Severity> {
    if l == "critical"@ || l == "error"@ {
        Some(Severity::Critical)
    } else if l == "major"@ || l == "warning"@ {
        Some(Severity::Major)
    } else if l == "minor"@ || l == "info"@ {
        Some(Severity::Minor)
    } else {
        None
    }
}

/// Severity named by a word, any case.
pub fn parse_severity(s: &str) -> (r: Option<Severity>)
    ensures
        r == severity_word(lower_of(s@)),
{
    let l = lowercase(s);
    severity_of_word(l.as_str())
}

/// Severity named by a word already in lower case.
pub fn severity_of_word(l: &str) -> (r: Option<Severity>)
    ensures
        r == severity_word(l@),
{
    if str_eq(l, "critical") || str_eq(l, "error") {
        Some(Severity::Critical)
    } else if str_eq(l, "major") || str_eq(l, "warning") {
        Some(Severity::Major)
    } else if str_eq(l, "minor") || str_eq(l, "info") {
        Some(Severity::Minor)
    } else {
        None
    }
}

/// Severity named by a word, Major when the word names none.
pub open spec fn severity_or_major(s: Seq<char>) -> Severity {
    match severity_word(lower_of(s)) {
        Some(v) => v,
        None => Severity::Major,
    }
}

/// Whether the map that a name (already lower case) refers to is present.
pub open spec fn map_named(set: MaterialSet, l: Seq<char>) -> bool {
    if l == "albedo"@ || l == "basecolor"@ || l == "diffuse"@ || l == "color"@ {
        set.albedo.is_some()
    } else if l == "normal"@ || l == "norm"@ {
        set.normal.is_some()
    } else if l == "roughness"@ || l == "rough"@ {
        set.roughness.is_some()
    } else if l == "metallic"@ || l == "metal"@ {
        set.metallic.is_some()
    } else if l == "ao"@ || l == "ambientocclusion"@ || l == "ambient_occlusion"@ {
        set.ao.is_some()
    } else if l == "height"@ || l == "displacement"@ || l == "bump"@ {
        set.height.is_some()
    } else {
        false
    }
}

/// Whether the map a name refers to (any case) is present.
pub fn has_map(set: &MaterialSet, slot: &str) -> (r: bool)
    ensures
        r == map_named(*set, lower_of(slot@)),
{
    let l = lowercase(slot);
    has_map_named(set, l.as_str())
}

/// Whether the map a name already in lower case refers to is present.
pub fn has_map_named(set: &MaterialSet, l: &str) -> (r: bool)
    ensures
        r == map_named(*set, l@),
{
    if str_eq(l, "albedo") || str_eq(l, "basecolor") || str_eq(l, "diffuse") || str_eq(l, "color") {
        set.albedo.is_some()
    } else if str_eq(l, "normal") || str_eq(l, "norm") {
        set.normal.is_some()
    } else if str_eq(l, "roughness") || str_eq(l, "rough") {
        set.roughness.is_some()
    } else if str_eq(l, "metallic") || str_eq(l, "metal") {
        set.metallic.is_some()
    } else if str_eq(l, "ao") || str_eq(l, "ambientocclusion") || str_eq(l, "ambient_occlusion") {
        set.ao.is_some()
    } else if str_eq(l, "height") || str_eq(l, "displacement") || str_eq(l, "bump") {
        set.height.is_some()
    } else {
        false
    }
}

/// Whether one of the first `k` required names is missing.
pub open spec fn any_missing(set: MaterialSet, maps: Seq<String>, k: int) -> bool
    decreases k,
{
    if k <= 0 {
        false
    } else {
        any_missing(set, maps, k - 1) || !map_named(set, lower_of(maps[k - 1]@))
    }
}

/// The missing names among the first `k`, joined by ", ".
pub open spec fn missing_list(set: MaterialSet, maps: Seq<String>, k: int) -> Seq<char>
    decreases k,
{
    if k <= 0 {
        Seq::empty()
    } else if !map_named(set, lower_of(maps[k - 1]@)) {
        if any_missing(set, maps, k - 1) {
            missing_list(set, maps, k - 1) + ", "@ + maps[k - 1]@
        } else {
            maps[k - 1]@
        }
    } else {
        missing_list(set, maps, k - 1)
    }
}

/// "Resolution WxH <word> AxB".
pub open spec fn resolution_message(w: u32, h: u32, word: Seq<char>, a: u32, b: u32) -> Seq<char> {
    "Resolution "@ + decimal(w as nat) + "x"@ + decimal(h as nat) + word + decimal(a as nat)
        + "x"@ + decimal(b as nat)
}

/// What a non-script condition finds in a material.
pub open spec fn condition_finding(
    cond: RuleCondition,
    set: MaterialSet,
    rule_id: Seq<char>,
    severity: Severity,
) -> Option<IssueModel> {
    match cond {
        RuleCondition::RequiredMaps { maps } => {
            if any_missing(set, maps@, maps@.len() as int) {
                Some(
                    issue(
                        rule_id,
                        severity,
                        "Missing required maps: "@ + missing_list(set, maps@, maps@.len() as int),
                    ),
                )
            } else {
                None
            }
        },
        RuleCondition::MaxResolution { max_width, max_height } => {
            match set.spec_dimensions() {
                Some(d) => if d.0 > max_width || d.1 > max_height {
                    Some(
                        issue(
                            rule_id,
                            severity,
                            resolution_message(d.0, d.1, " exceeds max "@, max_width, max_height),
                        ),
                    )
                } else {
                    None
                },
                None => None,
            }
        },
        RuleCondition::MinResolution { min_width, min_height } => {
            match set.spec_dimensions() {
                Some(d) => if d.0 < min_width || d.1 < min_height {
                    Some(
                        issue(
                            rule_id,
                            severity,
                            resolution_message(d.0, d.1, " below min "@, min_width, min_height),
                        ),
                    )
                } else {
                    None
                },
                None => None,
            }
        },
        RuleCondition::PowerOfTwo => {
            if any_flagged(set.maps(), 6, false) {
                Some(
                    issue(
                        rule_id,
                        severity,
                        "Non-power-of-two: "@ + dims_list(set.maps(), 6, false),
                    ),
                )
            } else {
                None
            }
        },
        RuleCondition::MaxTextureCount { max } => {
            if set.spec_texture_count() > max {
                Some(
                    issue(
                        rule_id,
                        severity,
                        "Texture count "@ + decimal(set.spec_texture_count()) + " exceeds max "@
                            + decimal(max as nat),
                    ),
                )
            } else {
                None
            }
        },
        RuleCondition::Script { .. } => None,
    }
}

/// An issue as a script reports it.
#[derive(Debug)]
pub struct ScriptIssue {
    pub rule_id: String,
    pub severity: String,
    pub message: String,
}

/// The issues a script wrote to its output.
#[derive(Debug)]
pub struct ScriptPluginResponse {
    pub issues: Vec<ScriptIssue>,
}

/// What running a script produced.
#[derive(Debug)]
pub enum ScriptOutcome {
    /// The command could not be started; the error text.
    SpawnFailed { error: String },
    /// The command exited unsuccessfully; its exit status as text.
    Failed { status: String },
    /// The command finished; its parsed response, or `None` when the output
    /// was not a response (or could not be exchanged).
    Completed { response: Option<ScriptPluginResponse> },
}

/// The issues a script outcome stands for, under the rule's identifier.
pub open spec fn script_issue_models(
    rule_id: Seq<char>,
    command: Seq<char>,
    outcome: ScriptOutcome,
) -> Seq<IssueModel> {
    match outcome {
        ScriptOutcome::SpawnFailed { error } => seq![
            issue(
                rule_id,
                Severity::Minor,
                "Plugin script "@ + command + " failed to run: "@ + error@,
            ),
        ],
        ScriptOutcome::Failed { status } => seq![
            issue(
                rule_id,
                Severity::Minor,
                "Plugin script "@ + command + " failed (exit "@ + status@ + ")"@,
            ),
        ],
        ScriptOutcome::Completed { response } => match response {
            None => Seq::empty(),
            Some(resp) => resp.issues@.map_values(
                |si: ScriptIssue| issue(rule_id, severity_or_major(si.severity@), si.message@),
            ),
        },
    }
}

/// The issues of a script outcome: one Minor issue when the command could
/// not start or failed, the reported issues (unknown severities as Major)
/// when it finished, none when its output was not a response.
pub fn script_issues(rule_id: &str, command: &str, outcome: &ScriptOutcome) -> (r: Vec<Issue>)
    ensures
        issues_view(r@) == script_issue_models(rule_id@, command@, *outcome),
{
    let mut out: Vec<Issue> = Vec::new();
    match outcome {
        ScriptOutcome::SpawnFailed { error } => {
            let mut m = String::from_str("Plugin script ");
            m.append(command);
            m.append(" failed to run: ");
            m.append(error.as_str());
            out.push(Issue { rule_id: String::from_str(rule_id), severity: Severity::Minor, message: m });
        },
        ScriptOutcome::Failed { status } => {
            let mut m = String::from_str("Plugin script ");
            m.append(command);
            m.append(" failed (exit ");
            m.append(status.as_str());
            m.append(")");
            out.push(Issue { rule_id: String::from_str(rule_id), severity: Severity::Minor, message: m });
        },
        ScriptOutcome::Completed { response } => {
            if let Some(resp) = response {
                let mut k: usize = 0;
                while k < resp.issues.len()
                    invariant
                        k <= resp.issues@.len(),
                        out@.len() == k,
                        forall|j: int|
                            0 <= j < k ==> (#[trigger] out@[j])@ == issue(
                                rule_id@,
                                severity_or_major(resp.issues@[j].severity@),
                                resp.issues@[j].message@,
                            ),
                    decreases resp.issues@.len() - k,
                {
                    let si = &resp.issues[k];
                    let sev = match parse_severity(si.severity.as_str()) {
                        Some(s) => s,
                        None => Severity::Major,
                    };
                    out.push(
                        Issue {
                            rule_id: String::from_str(rule_id),
                            severity: sev,
                            message: si.message.clone(),
                        },
                    );
                    k += 1;
                }
                assert(issues_view(out@) =~= resp.issues@.map_values(
                    |si: ScriptIssue| issue(rule_id@, severity_or_major(si.severity@), si.message@),
                ));
            }
        },
    }
    assert(issues_view(out@) =~= script_issue_models(rule_id@, command@, *outcome));
    out
}

/// The missing names, joined by ", ", and whether any is missing.
fn missing_maps(set: &MaterialSet, maps: &Vec<String>) -> (r: (String, bool))
    ensures
        r.0@ == missing_list(*set, maps@, maps@.len() as int),
        r.1 == any_missing(*set, maps@, maps@.len() as int),
{
    let mut list = String::new();
    let mut any = false;
    let mut k: usize = 0;
    while k < maps.len()
        invariant
            k <= maps@.len(),
            list@ == missing_list(*set, maps@, k as int),
            any == any_missing(*set, maps@, k as int),
            !any ==> list@ == Seq::<char>::empty(),
        decreases maps@.len() - k,
    {
        if !has_map(set, maps[k].as_str()) {
            let ghost before = list@;
            if any {
                list.append(", ");
            }
            list.append(maps[k].as_str());
            assert(list@ =~= if any { before + ", "@ + maps@[k as int]@ } else { before + maps@[
                k as int]@ });
            any = true;
        }
        k += 1;
    }
    (list, any)
}

fn resolution_text(w: u32, h: u32, word: &str, a: u32, b: u32) -> (r: String)
    ensures
        r@ == resolution_message(w, h, word@, a, b),
{
    let mut m = String::from_str("Resolution ");
    let t = decimal_text(w as u128);
    m.append(t.as_str());
    m.append("x");
    let t = decimal_text(h as u128);
    m.append(t.as_str());
    m.append(word);
    let t = decimal_text(a as u128);
    m.append(t.as_str());
    m.append("x");
    let t = decimal_text(b as u128);
    m.append(t.as_str());
    m
}

/// What a condition finds in a material; a script condition reports the
/// first issue of its outcome.
pub fn check_condition(
    cond: &RuleCondition,
    set: &MaterialSet,
    rule_id: &str,
    severity: Severity,
    outcome: Option<&ScriptOutcome>,
) -> (r: Option<Issue>)
    ensures
        !(cond is Script) ==> opt_model(r) == condition_finding(
            *cond,
            *set,
            rule_id@,
            severity,
        ),
        cond is Script ==> opt_model(r) == match outcome {
            Some(o) => {
                let s = script_issue_models(rule_id@, cond->Script_command@, *o);
                if s.len() > 0 {
                    Some(s[0])
                } else {
                    None
                }
            },
            None => None,
        },
{
    match cond {
        RuleCondition::RequiredMaps { maps } => {
            let (list, any) = missing_maps(set, maps);
            if !any {
                return None;
            }
            let mut m = String::from_str("Missing required maps: ");
            m.append(list.as_str());
            Some(Issue { rule_id: String::from_str(rule_id), severity, message: m })
        },
        RuleCondition::MaxResolution { max_width, max_height } => {
            if let Some((w, h)) = set.dimensions() {
                if w > *max_width || h > *max_height {
                    let m = resolution_text(w, h, " exceeds max ", *max_width, *max_height);
                    return Some(Issue { rule_id: String::from_str(rule_id), severity, message: m });
                }
            }
            None
        },
        RuleCondition::MinResolution { min_width, min_height } => {
            if let Some((w, h)) = set.dimensions() {
                if w < *min_width || h < *min_height {
                    let m = resolution_text(w, h, " below min ", *min_width, *min_height);
                    return Some(Issue { rule_id: String::from_str(rule_id), severity, message: m });
                }
            }
            None
        },
        RuleCondition::PowerOfTwo => {
            let (list, any) = crate::validation::flagged_list(set, false);
            if !any {
                return None;
            }
            let mut m = String::from_str("Non-power-of-two: ");
            m.append(list.as_str());
            Some(Issue { rule_id: String::from_str(rule_id), severity, message: m })
        },
        RuleCondition::MaxTextureCount { max } => {
            let count = set.texture_count();
            if count > *max {
                let mut m = String::from_str("Texture count ");
                let t = decimal_text(count as u128);
                m.append(t.as_str());
                m.append(" exceeds max ");
                let t = decimal_text(*max as u128);
                m.append(t.as_str());
                Some(Issue { rule_id: String::from_str(rule_id), severity, message: m })
            } else {
                None
            }
        },
        RuleCondition::Script { command, args: _ } => {
            match outcome {
                Some(o) => {
                    let mut all = script_issues(rule_id, command.as_str(), o);
                    if all.len() > 0 {
                        let first = all.remove(0);
                        Some(first)
                    } else {
                        None
                    }
                },
                None => None,
            }
        },
    }
}

/// A validation rule backed by configuration.
#[derive(Debug)]
pub struct ConfigRule {
    pub config: RuleConfig,
}

/// The issues a config rule finds: every issue of a script's outcome, or
/// what its condition finds.
pub open spec fn config_rule_issues(
    c: ConfigRule,
    set: MaterialSet,
    outcome: Option<ScriptOutcome>,
) -> Seq<IssueModel> {
    match c.config.condition {
        RuleCondition::Script { command, .. } => match outcome {
            Some(o) => script_issue_models(c.config.id@, command@, o),
            None => Seq::empty(),
        },
        _ => opt_seq(
            condition_finding(
                c.config.condition,
                set,
                c.config.id@,
                severity_or_major(c.config.severity@),
            ),
        ),
    }
}

impl ConfigRule {
    pub fn id(&self) -> (r: &str)
        ensures
            r@ == self.config.id@,
    {
        self.config.id.as_str()
    }

    /// The configured description, or a generic one when it is empty.
    pub fn description(&self) -> &str {
        if self.config.description.unicode_len() == 0 {
            "Custom rule from plugin config"
        } else {
            self.config.description.as_str()
        }
    }

    /// Severity of this rule's findings (Major when the word is unknown).
    pub fn severity(&self) -> (r: Severity)
        ensures
            r == severity_or_major(self.config.severity@),
    {
        match parse_severity(self.config.severity.as_str()) {
            Some(s) => s,
            None => Severity::Major,
        }
    }

    /// The command and arguments when this rule runs a script.
    pub fn script(&self) -> (r: Option<(&String, &Vec<String>)>)
        ensures
            r is Some <==> self.config.condition is Script,
            r is Some ==> *r->Some_0.0 == self.config.condition->Script_command
                && *r->Some_0.1 == self.config.condition->Script_args,
    {
        match &self.config.condition {
            RuleCondition::Script { command, args } => Some((command, args)),
            _ => None,
        }
    }

    /// Every issue this rule finds.
    pub fn check_all(&self, set: &MaterialSet, outcome: Option<&ScriptOutcome>) -> (r: Vec<Issue>)
        ensures
            issues_view(r@) == config_rule_issues(*self, *set, deref_outcome(outcome)),
    {
        if let RuleCondition::Script { command, args: _ } = &self.config.condition {
            return match outcome {
                Some(o) => script_issues(self.config.id.as_str(), command.as_str(), o),
                None => Vec::new(),
            };
        }
        let sev = self.severity();
        let found = check_condition(&self.config.condition, set, self.config.id.as_str(), sev, None);
        let mut v: Vec<Issue> = Vec::new();
        if let Some(i) = found {
            v.push(i);
        }
        assert(issues_view(v@) =~= config_rule_issues(*self, *set, deref_outcome(outcome)));
        v
    }
}

// ---------------------------------------------------------------------------
// Discovery and the script protocol's request.

/// Metadata of a loaded plugin, for listings.
#[derive(Debug)]
pub struct PluginInfo {
    pub name: String,
    pub version: String,
    pub path: String,
    pub rule_ids: Vec<String>,
    pub preset_ids: Vec<String>,
}

/// The listing entry of a manifest found at `path`.
pub fn plugin_info(manifest: PluginManifest, path: &str) -> (r: PluginInfo)
    ensures
        r.name == manifest.name,
        r.version == manifest.version,
        r.path@ == path@,
        r.rule_ids@.len() == manifest.rules@.len(),
        forall|k: int| 0 <= k < manifest.rules@.len() ==> (#[trigger] r.rule_ids@[k]) == manifest.rules@[k].id,
        r.preset_ids@.len() == manifest.presets@.len(),
        forall|k: int| 0 <= k < manifest.presets@.len() ==> (#[trigger] r.preset_ids@[k]) == manifest.presets@[k].id,
{
    let mut rule_ids: Vec<String> = Vec::new();
    let mut k: usize = 0;
    while k < manifest.rules.len()
        invariant
            k <= manifest.rules@.len(),
            rule_ids@.len() == k,
            forall|j: int| 0 <= j < k ==> (#[trigger] rule_ids@[j]) == manifest.rules@[j].id,
        decreases manifest.rules@.len() - k,
    {
        rule_ids.push(manifest.rules[k].id.clone());
        k += 1;
    }
    let mut preset_ids: Vec<String> = Vec::new();
    let mut k: usize = 0;
    while k < manifest.presets.len()
        invariant
            k <= manifest.presets@.len(),
            preset_ids@.len() == k,
            forall|j: int| 0 <= j < k ==> (#[trigger] preset_ids@[j]) == manifest.presets@[j].id,
        decreases manifest.presets@.len() - k,
    {
        preset_ids.push(manifest.presets[k].id.clone());
        k += 1;
    }
    PluginInfo {
        name: manifest.name,
        version: manifest.version,
        path: String::from_str(path),
        rule_ids,
        preset_ids,
    }
}

/// The rules and presets a manifest contributes, in its order.
pub fn manifest_rules(manifest: PluginManifest) -> (r: (Vec<ConfigRule>, Vec<PresetConfig>))
    ensures
        r.0@.len() == manifest.rules@.len(),
        forall|k: int| 0 <= k < manifest.rules@.len() ==> (#[trigger] r.0@[k]).config == manifest.rules@[k],
        r.1@ == manifest.presets@,
{
    let mut rules = manifest.rules;
    let ghost orig = rules@;
    let n = rules.len();
    let mut out: Vec<ConfigRule> = Vec::new();
    let mut k: usize = 0;
    while k < n
        invariant
            n == orig.len(),
            k <= n,
            rules@ == orig.subrange(k as int, n as int),
            out@.len() == k,
            forall|j: int| 0 <= j < k ==> (#[trigger] out@[j]).config == orig[j],
        decreases n - k,
    {
        let c = rules.remove(0);
        out.push(ConfigRule { config: c });
        k += 1;
    }
    (out, manifest.presets)
}

/// Directories searched for plugins, in order. Each holds plugin folders,
/// or a manifest itself.
#[derive(Debug)]
pub struct PluginLoader {
    pub plugin_dirs: Vec<String>,
}

impl PluginLoader {
    pub fn new() -> (r: PluginLoader)
        ensures
            r.plugin_dirs@.len() == 0,
    {
        PluginLoader { plugin_dirs: Vec::new() }
    }

    /// This loader with one more directory, searched last.
    pub fn add_dir(self, path: &str) -> (r: PluginLoader)
        ensures
            r.plugin_dirs@.len() == self.plugin_dirs@.len() + 1,
            forall|k: int| 0 <= k < self.plugin_dirs@.len() ==> r.plugin_dirs@[k] == self.plugin_dirs@[k],
            r.plugin_dirs@.last()@ == path@,
    {
        let mut l = self;
        l.plugin_dirs.push(String::from_str(path));
        l
    }
}

/// Size in the script request.
#[derive(Clone, Copy, Debug, PartialEq, Eq, Structural)]
pub struct DimensionsForScript {
    pub width: u32,
    pub height: u32,
}

/// Present slots in the script request.
#[derive(Clone, Copy, Debug, PartialEq, Eq, Structural)]
pub struct MapsForScript {
    pub albedo: bool,
    pub normal: bool,
    pub roughness: bool,
    pub metallic: bool,
    pub ao: bool,
    pub height: bool,
}

/// The material summary a script receives.
#[derive(Debug)]
pub struct MaterialSummaryForScript {
    /// Empty when the material is named, absent otherwise.
    pub path: Option<String>,
    pub name: Option<String>,
    pub texture_count: usize,
    pub dimensions: Option<DimensionsForScript>,
    pub maps: MapsForScript,
    pub dimensions_consistent: bool,
}

/// The summary of a material sent to a script.
pub fn material_summary_for_script(set: &MaterialSet) -> (r: MaterialSummaryForScript)
    ensures
        r.path is Some == set.name is Some,
        r.path is Some ==> r.path->Some_0@ == Seq::<char>::empty(),
        r.name == set.name,
        r.texture_count == set.spec_texture_count(),
        r.dimensions == match set.spec_dimensions() {
            Some(d) => Some(DimensionsForScript { width: d.0, height: d.1 }),
            None => None,
        },
        r.maps == (MapsForScript {
            albedo: set.albedo is Some,
            normal: set.normal is Some,
            roughness: set.roughness is Some,
            metallic: set.metallic is Some,
            ao: set.ao is Some,
            height: set.height is Some,
        }),
        r.dimensions_consistent == set.spec_dimensions_consistent(),
{
    let dims = match set.dimensions() {
        Some((w, h)) => Some(DimensionsForScript { width: w, height: h }),
        None => None,
    };
    let path = match &set.name {
        Some(_) => Some(String::new()),
        None => None,
    };
    let name = match &set.name {
        Some(n) => Some(n.clone()),
        None => None,
    };
    MaterialSummaryForScript {
        path,
        name,
        texture_count: set.texture_count(),
        dimensions: dims,
        maps: MapsForScript {
            albedo: set.albedo.is_some(),
            normal: set.normal.is_some(),
            roughness: set.roughness.is_some(),
            metallic: set.metallic.is_some(),
            ao: set.ao.is_some(),
            height: set.height.is_some(),
        },
        dimensions_consistent: set.dimensions_consistent(),
    }
}

} // verus!
