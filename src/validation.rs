//! Validation rules, issues and scoring.
//!
//! The rule set is closed: nine built-in rules plus rules described by
//! plugin configuration. A validator is an ordered list of rules; its issues
//! are each rule's issues, in rule order.
use vstd::prelude::*;
use vstd::string::*;
use vstd::arithmetic::power2::{pow2, lemma2_to64, lemma_pow2_unfold, lemma_pow2_strictly_increases};
use crate::material::{MaterialSet, TextureMap};
use crate::plugin::{ConfigRule, ScriptOutcome, config_rule_issues};
use crate::stats::{
    lum_sum, lum_max, clipped_count, chan_count, chan_sum, chan_sq_sum, stddev_below_2,
    luminance_stats, count_clipped_pixels, channel_stats, stddev_small,
};
use crate::text::{decimal, decimal_text, tenths, tenths_text};

verus! {

/// Severity of a finding. Penalties: Critical 20, Major 10, Minor 5.
#[derive(Clone, Copy, Debug, PartialEq, Eq, Structural)]
pub enum Severity {
    Critical,
    Major,
    Minor,
}

/// Score penalty of a severity.
pub open spec fn penalty(s: Severity) -> int {
    match s {
        Severity::Critical => 20,
        Severity::Major => 10,
        Severity::Minor => 5,
    }
}

impl Severity {
    pub fn score_penalty(&self) -> (r: i32)
        ensures
            r == penalty(*self),
    {
        match self {
            Severity::Critical => 20,
            Severity::Major => 10,
            Severity::Minor => 5,
        }
    }
}

/// The value of an issue: rule identifier, severity, message.
pub struct IssueModel {
    pub rule_id: Seq<char>,
    pub severity: Severity,
    pub message: Seq<char>,
}

/// A finding of a rule.
#[derive(Debug)]
pub struct Issue {
    pub rule_id: String,
    pub severity: Severity,
    pub message: String,
}

impl View for Issue {
    type V = IssueModel;

    open spec fn view(&self) -> IssueModel {
        IssueModel { rule_id: self.rule_id@, severity: self.severity, message: self.message@ }
    }
}

/// The values of a list of issues.
pub open spec fn issues_view(s: Seq<Issue>) -> Seq<IssueModel> {
    s.map_values(|i: Issue| i@)
}

/// The value of an optional issue.
pub open spec fn opt_model(o: Option<Issue>) -> Option<IssueModel> {
    match o {
        Some(i) => Some(i@),
        None => None,
    }
}

/// The outcome behind an optional reference.
pub open spec fn deref_outcome(o: Option<&ScriptOutcome>) -> Option<ScriptOutcome> {
    match o {
        Some(x) => Some(*x),
        None => None,
    }
}

/// An issue value from its parts.
pub open spec fn issue(rule_id: Seq<char>, severity: Severity, message: Seq<char>) -> IssueModel {
    IssueModel { rule_id, severity, message }
}

/// Sum of the penalties of a list of issues.
pub open spec fn total_penalty(s: Seq<IssueModel>) -> int
    decreases s.len(),
{
    if s.len() == 0 {
        0
    } else {
        total_penalty(s.drop_last()) + penalty(s.last().severity)
    }
}

/// Score of a list of issues: `max(0, 100 - total penalty)`.
pub open spec fn score_of(s: Seq<IssueModel>) -> int {
    if 100 - total_penalty(s) > 0 {
        100 - total_penalty(s)
    } else {
        0
    }
}

proof fn lemma_total_penalty_prefix(s: Seq<IssueModel>, i: int)
    requires
        0 <= i <= s.len(),
    ensures
        total_penalty(s.subrange(0, i)) <= total_penalty(s),
        total_penalty(s) >= 0,
    decreases s.len(), s.len() - i,
{
    if i < s.len() {
        lemma_total_penalty_prefix(s, i + 1);
        assert(s.subrange(0, i + 1).drop_last() =~= s.subrange(0, i));
    } else {
        assert(s.subrange(0, i) =~= s);
    }
    if s.len() > 0 {
        lemma_total_penalty_prefix(s.drop_last(), s.len() - 1);
    }
}

/// Material score: 100 minus the sum of the issues' penalties, never below 0.
pub fn compute_score(issues: &[Issue]) -> (r: i32)
    ensures
        r == score_of(issues_view(issues@)),
        0 <= r <= 100,
{
    let ghost v = issues_view(issues@);
    let mut total: i32 = 0;
    let mut i: usize = 0;
    while i < issues.len()
        invariant
            v == issues_view(issues@),
            i <= issues@.len(),
            total == total_penalty(v.subrange(0, i as int)),
            0 <= total < 100,
        decreases issues@.len() - i,
    {
        assert(v.subrange(0, i + 1).drop_last() =~= v.subrange(0, i as int));
        total = total + issues[i].severity.score_penalty();
        i += 1;
        if total >= 100 {
            proof {
                lemma_total_penalty_prefix(v, i as int);
            }
            return 0;
        }
    }
    assert(v.subrange(0, i as int) =~= v);
    100 - total
}

impl Issue {
    /// An issue with the given parts.
    pub fn new(rule_id: &str, severity: Severity, message: &str) -> (r: Issue)
        ensures
            r@ == issue(rule_id@, severity, message@),
    {
        Issue { rule_id: String::from_str(rule_id), severity, message: String::from_str(message) }
    }
}

/// A finding as reported by the legacy report format.
#[derive(Debug)]
pub struct ValidationResult {
    pub rule_id: String,
    pub severity: Severity,
    pub message: String,
    pub passed: bool,
}

impl ValidationResult {
    /// The failed result that an issue stands for.
    pub fn from_issue(issue: Issue) -> (r: ValidationResult)
        ensures
            r.rule_id@ == issue.rule_id@,
            r.severity == issue.severity,
            r.message@ == issue.message@,
            !r.passed,
    {
        ValidationResult {
            rule_id: issue.rule_id,
            severity: issue.severity,
            message: issue.message,
            passed: false,
        }
    }
}

// ---------------------------------------------------------------------------
// Built-in rules: what each one finds.

/// A rule that inspects one material and reports at most one finding.
pub trait ValidationRule {
    /// The rule's identifier.
    spec fn spec_id(&self) -> Seq<char>;

    /// What the rule finds in a material.
    spec fn finding(&self, set: MaterialSet) -> Option<IssueModel>;

    /// Unique identifier of the rule.
    fn id(&self) -> (r: &str)
        ensures
            r@ == self.spec_id(),
    ;

    /// Human-readable description.
    fn description(&self) -> &str;

    /// The rule's finding in `set`, if any.
    fn check(&self, set: &MaterialSet) -> (r: Option<Issue>)
        ensures
            opt_model(r) == self.finding(*set),
    ;
}

/// Names of the six slots, in slot order.
pub open spec fn slot_name(k: int) -> Seq<char> {
    if k == 0 {
        "albedo"@
    } else if k == 1 {
        "normal"@
    } else if k == 2 {
        "roughness"@
    } else if k == 3 {
        "metallic"@
    } else if k == 4 {
        "ao"@
    } else {
        "height"@
    }
}

/// Whether `n` is a power of two.
pub open spec fn is_pow2(n: u32) -> bool {
    exists|k: nat| #[trigger] pow2(k) == n
}

/// The texture is flagged by the power-of-two rule (`over_4k == false`) or by
/// the resolution rule (`over_4k == true`).
pub open spec fn flagged(t: TextureMap, over_4k: bool) -> bool {
    if over_4k {
        t.width > 4096 || t.height > 4096
    } else {
        !is_pow2(t.width) || !is_pow2(t.height)
    }
}

/// Whether a present, flagged texture is among the first `k` slots.
pub open spec fn any_flagged(maps: Seq<Option<TextureMap>>, k: int, over_4k: bool) -> bool
    decreases k,
{
    if k <= 0 {
        false
    } else {
        any_flagged(maps, k - 1, over_4k) || (maps[k - 1].is_some() && flagged(
            maps[k - 1].unwrap(),
            over_4k,
        ))
    }
}

/// "name (WxH)" for a slot.
pub open spec fn dims_entry(k: int, t: TextureMap) -> Seq<char> {
    slot_name(k) + " ("@ + decimal(t.width as nat) + "x"@ + decimal(t.height as nat) + ")"@
}

/// The flagged slots among the first `k`, as "name (WxH)" joined by ", ".
pub open spec fn dims_list(maps: Seq<Option<TextureMap>>, k: int, over_4k: bool) -> Seq<char>
    decreases k,
{
    if k <= 0 {
        Seq::empty()
    } else {
        let prev = dims_list(maps, k - 1, over_4k);
        if maps[k - 1].is_some() && flagged(maps[k - 1].unwrap(), over_4k) {
            if any_flagged(maps, k - 1, over_4k) {
                prev + ", "@ + dims_entry(k - 1, maps[k - 1].unwrap())
            } else {
                dims_entry(k - 1, maps[k - 1].unwrap())
            }
        } else {
            prev
        }
    }
}

pub open spec fn required_maps_finding(set: MaterialSet) -> Option<IssueModel> {
    if set.albedo.is_none() {
        Some(
            issue(
                "required_maps"@,
                Severity::Critical,
                "Missing albedo/base color map. Required for PBR."@,
            ),
        )
    } else if set.normal.is_none() {
        Some(issue("required_maps"@, Severity::Critical, "Missing normal map. Required for PBR."@))
    } else {
        None
    }
}

pub open spec fn resolution_mismatch_finding(set: MaterialSet) -> Option<IssueModel> {
    if !set.spec_dimensions_consistent() {
        Some(
            issue(
                "resolution_mismatch"@,
                Severity::Major,
                "Texture resolution mismatch. All maps should have the same dimensions."@,
            ),
        )
    } else {
        None
    }
}

pub open spec fn non_power_of_two_finding(set: MaterialSet) -> Option<IssueModel> {
    if any_flagged(set.maps(), 6, false) {
        Some(
            issue(
                "non_power_of_two"@,
                Severity::Minor,
                "Non-power-of-two dimensions: "@ + dims_list(set.maps(), 6, false)
                    + ". May cause GPU issues."@,
            ),
        )
    } else {
        None
    }
}

pub open spec fn texture_resolution_finding(set: MaterialSet) -> Option<IssueModel> {
    if any_flagged(set.maps(), 6, true) {
        Some(
            issue(
                "texture_resolution"@,
                Severity::Major,
                "Texture resolution exceeds 4K: "@ + dims_list(set.maps(), 6, true)
                    + ". Large textures may impact performance."@,
            ),
        )
    } else {
        None
    }
}

/// Albedo: Major when the mean luminance is below 5 (or there are no whole
/// pixels), else Minor when the brightest pixel is above 250, else Minor
/// when more than 5% of `width * height` pixels are clipped.
pub open spec fn albedo_brightness_finding(set: MaterialSet) -> Option<IssueModel> {
    if set.albedo.is_none() {
        None
    } else {
        let t = set.albedo.unwrap();
        let d = t.data@;
        let n = d.len() / 4;
        let clip = clipped_count(d, n as int);
        let total = t.width as int * t.height as int;
        if lum_sum(d, n as int) < 5000 * n {
            Some(
                issue(
                    "albedo_brightness_range"@,
                    Severity::Major,
                    "Albedo appears nearly black (mean luminance "@ + tenths(
                        lum_sum(d, n as int) as nat,
                        if n == 0 { 1000nat } else { 1000 * n },
                    ) + "/255)."@,
                ),
            )
        } else if lum_max(d, n as int) > 250000 {
            Some(
                issue(
                    "albedo_brightness_range"@,
                    Severity::Minor,
                    "Albedo has very bright pixels (max "@ + tenths(
                        lum_max(d, n as int) as nat,
                        1000,
                    ) + "/255). May indicate non-PBR or HDR."@,
                ),
            )
        } else if clip > 0 && 100 * clip > 5 * total {
            Some(
                issue(
                    "albedo_brightness_range"@,
                    Severity::Minor,
                    "Albedo has "@ + tenths(
                        (100 * clip) as nat,
                        if total == 0 { 1nat } else { total as nat },
                    ) + "% clipped pixels (255 or 0)."@,
                ),
            )
        } else {
            None
        }
    }
}

/// Roughness (red channel): Major when the mean is below 5, else Minor when
/// the sample standard deviation is below 2.
pub open spec fn roughness_uniformity_finding(set: MaterialSet) -> Option<IssueModel> {
    if set.roughness.is_none() {
        None
    } else {
        let d = set.roughness.unwrap().data@;
        let n = chan_count(d.len() as int, 0);
        let s = chan_sum(d, 0, n);
        let q = chan_sq_sum(d, 0, n);
        if s < 5 * n || n == 0 {
            Some(
                issue(
                    "roughness_uniformity"@,
                    Severity::Major,
                    "Roughness map is nearly black. May indicate missing or incorrect texture."@,
                ),
            )
        } else if stddev_below_2(s, q, n) {
            Some(
                issue(
                    "roughness_uniformity"@,
                    Severity::Minor,
                    "Roughness map is nearly uniform (mean "@ + tenths(s as nat, n as nat)
                        + ")."@,
                ),
            )
        } else {
            None
        }
    }
}

/// Metallic (red channel): Minor when the mean is within 5 of 128 and the
/// sample standard deviation is below 2.
pub open spec fn metallic_mid_gray_finding(set: MaterialSet) -> Option<IssueModel> {
    if set.metallic.is_none() {
        None
    } else {
        let d = set.metallic.unwrap().data@;
        let n = chan_count(d.len() as int, 0);
        let s = chan_sum(d, 0, n);
        let q = chan_sq_sum(d, 0, n);
        if -5 * n < s - 128 * n < 5 * n && stddev_below_2(s, q, n) {
            Some(
                issue(
                    "metallic_mid_gray"@,
                    Severity::Minor,
                    "Metallic map is uniformly mid-gray. May indicate uniform or placeholder."@,
                ),
            )
        } else {
            None
        }
    }
}

/// Normal: Minor when the mean of the blue channel is below 100.
pub open spec fn normal_strength_finding(set: MaterialSet) -> Option<IssueModel> {
    if set.normal.is_none() {
        None
    } else {
        let d = set.normal.unwrap().data@;
        let n = chan_count(d.len() as int, 2);
        let s = chan_sum(d, 2, n);
        if s < 100 * n || n == 0 {
            Some(
                issue(
                    "normal_map_strength"@,
                    Severity::Minor,
                    "Normal map blue channel low (mean "@ + tenths(
                        s as nat,
                        if n == 0 { 1nat } else { n as nat },
                    ) + "). Tangent-space normals typically have dominant blue."@,
                ),
            )
        } else {
            None
        }
    }
}

/// Albedo of at least 4x4 whose edge difference exceeds 40.
pub open spec fn tileability_finding(set: MaterialSet) -> Option<IssueModel> {
    if set.albedo.is_none() {
        None
    } else {
        let t = set.albedo.unwrap();
        let e = crate::analysis::spec_edge(t);
        if t.width >= 4 && t.height >= 4 && e.0 > 40 * e.1 {
            Some(
                issue(
                    "tileability"@,
                    Severity::Minor,
                    "High edge difference ("@ + tenths(e.0 as nat, e.1 as nat)
                        + "). Texture may not tile seamlessly."@,
                ),
            )
        } else {
            None
        }
    }
}

fn mk_issue(rule_id: &str, severity: Severity, message: String) -> (r: Issue)
    ensures
        r@ == issue(rule_id@, severity, message@),
{
    Issue { rule_id: String::from_str(rule_id), severity, message }
}

/// Whether `n` is a power of two.
pub fn is_power_of_two(n: u32) -> (r: bool)
    ensures
        r == is_pow2(n),
{
    let mut p: u64 = 1;
    let ghost mut k: nat = 0;
    proof {
        lemma2_to64();
    }
    while p <= n as u64
        invariant
            p == pow2(k),
            1 <= p <= 0x2_0000_0000,
            forall|j: nat| j < k ==> #[trigger] pow2(j) != n,
        decreases 0x2_0000_0000 - p,
    {
        if p == n as u64 {
            return true;
        }
        p = p * 2;
        proof {
            lemma_pow2_unfold(k + 1);
            k = k + 1;
        }
    }
    proof {
        assert forall|j: nat| #[trigger] pow2(j) != n by {
            if j > k {
                lemma_pow2_strictly_increases(k, j);
            }
        }
    }
    false
}

/// Appends "name (WxH)" to a list, after ", " when the list is not empty.
fn append_entry(list: &mut String, nonempty: bool, name: &str, w: u32, h: u32)
    ensures
        final(list)@ == if nonempty {
            old(list)@ + ", "@ + name@ + " ("@ + decimal(w as nat) + "x"@ + decimal(h as nat)
                + ")"@
        } else {
            old(list)@ + name@ + " ("@ + decimal(w as nat) + "x"@ + decimal(h as nat) + ")"@
        },
{
    if nonempty {
        list.append(", ");
    }
    list.append(name);
    list.append(" (");
    let ws = decimal_text(w as u128);
    list.append(ws.as_str());
    list.append("x");
    let hs = decimal_text(h as u128);
    list.append(hs.as_str());
    list.append(")");
}

fn flagged_exec(t: &TextureMap, over_4k: bool) -> (r: bool)
    ensures
        r == flagged(*t, over_4k),
{
    if over_4k {
        t.width > 4096 || t.height > 4096
    } else {
        !is_power_of_two(t.width) || !is_power_of_two(t.height)
    }
}

/// The flagged slots of a material, as "name (WxH), ...", and whether any is.
#[verifier::rlimit(60)]
pub(crate) fn flagged_list(set: &MaterialSet, over_4k: bool) -> (r: (String, bool))
    ensures
        r.0@ == dims_list(set.maps(), 6, over_4k),
        r.1 == any_flagged(set.maps(), 6, over_4k),
{
    let ghost m = set.maps();
    let mut list = String::new();
    let mut any = false;
    let mut k: usize = 0;
    while k < 6
        invariant
            m == set.maps(),
            k <= 6,
            list@ == dims_list(m, k as int, over_4k),
            any == any_flagged(m, k as int, over_4k),
            !any ==> list@ == Seq::<char>::empty(),
        decreases 6 - k,
    {
        let (t, name) = if k == 0 {
            (&set.albedo, "albedo")
        } else if k == 1 {
            (&set.normal, "normal")
        } else if k == 2 {
            (&set.roughness, "roughness")
        } else if k == 3 {
            (&set.metallic, "metallic")
        } else if k == 4 {
            (&set.ao, "ao")
        } else {
            (&set.height, "height")
        };
        assert(*t == m[k as int] && name@ == slot_name(k as int));
        if let Some(map) = t {
            if flagged_exec(map, over_4k) {
                let ghost before = list@;
                append_entry(&mut list, any, name, map.width, map.height);
                assert(list@ =~= if any {
                    before + ", "@ + dims_entry(k as int, *map)
                } else {
                    before + dims_entry(k as int, *map)
                });
                any = true;
            }
        }
        k += 1;
    }
    (list, any)
}

/// Rule: albedo and normal maps are required.
pub struct RequiredMapsRule;

impl ValidationRule for RequiredMapsRule {
    open spec fn spec_id(&self) -> Seq<char> {
        "required_maps"@
    }

    open spec fn finding(&self, set: MaterialSet) -> Option<IssueModel> {
        required_maps_finding(set)
    }

    fn id(&self) -> (r: &str) {
        "required_maps"
    }

    fn description(&self) -> &str {
        "Albedo and normal maps are required minimum for PBR"
    }

    fn check(&self, set: &MaterialSet) -> (r: Option<Issue>) {
        if set.albedo.is_none() {
            return Some(
                Issue::new(
                    "required_maps",
                    Severity::Critical,
                    "Missing albedo/base color map. Required for PBR.",
                ),
            );
        }
        if set.normal.is_none() {
            return Some(
                Issue::new(
                    "required_maps",
                    Severity::Critical,
                    "Missing normal map. Required for PBR.",
                ),
            );
        }
        None
    }
}

/// Rule: all present maps share one size.
pub struct ResolutionMismatchRule;

impl ValidationRule for ResolutionMismatchRule {
    open spec fn spec_id(&self) -> Seq<char> {
        "resolution_mismatch"@
    }

    open spec fn finding(&self, set: MaterialSet) -> Option<IssueModel> {
        resolution_mismatch_finding(set)
    }

    fn id(&self) -> (r: &str) {
        "resolution_mismatch"
    }

    fn description(&self) -> &str {
        "Texture resolution mismatch across maps"
    }

    fn check(&self, set: &MaterialSet) -> (r: Option<Issue>) {
        if !set.dimensions_consistent() {
            return Some(
                Issue::new(
                    "resolution_mismatch",
                    Severity::Major,
                    "Texture resolution mismatch. All maps should have the same dimensions.",
                ),
            );
        }
        None
    }
}

/// Rule: every dimension should be a power of two.
pub struct NonPowerOfTwoRule;

impl ValidationRule for NonPowerOfTwoRule {
    open spec fn spec_id(&self) -> Seq<char> {
        "non_power_of_two"@
    }

    open spec fn finding(&self, set: MaterialSet) -> Option<IssueModel> {
        non_power_of_two_finding(set)
    }

    fn id(&self) -> (r: &str) {
        "non_power_of_two"
    }

    fn description(&self) -> &str {
        "Texture dimensions should be power of two (e.g. 2, 4, 8, 16, 32, 64, 128, 256, 512, 1024, 2048)"
    }

    fn check(&self, set: &MaterialSet) -> (r: Option<Issue>) {
        let (list, any) = flagged_list(set, false);
        if !any {
            return None;
        }
        let mut msg = String::from_str("Non-power-of-two dimensions: ");
        msg.append(list.as_str());
        msg.append(". May cause GPU issues.");
        Some(mk_issue("non_power_of_two", Severity::Minor, msg))
    }
}

/// Rule: no texture edge above 4096 pixels.
pub struct TextureResolutionRule;

impl ValidationRule for TextureResolutionRule {
    open spec fn spec_id(&self) -> Seq<char> {
        "texture_resolution"@
    }

    open spec fn finding(&self, set: MaterialSet) -> Option<IssueModel> {
        texture_resolution_finding(set)
    }

    fn id(&self) -> (r: &str) {
        "texture_resolution"
    }

    fn description(&self) -> &str {
        "Warns when texture resolution exceeds 4K (4096px)"
    }

    fn check(&self, set: &MaterialSet) -> (r: Option<Issue>) {
        let (list, any) = flagged_list(set, true);
        if !any {
            return None;
        }
        let mut msg = String::from_str("Texture resolution exceeds 4K: ");
        msg.append(list.as_str());
        msg.append(". Large textures may impact performance.");
        Some(mk_issue("texture_resolution", Severity::Major, msg))
    }
}

/// Rule: albedo brightness within a plausible PBR range.
pub struct AlbedoBrightnessRule;

impl ValidationRule for AlbedoBrightnessRule {
    open spec fn spec_id(&self) -> Seq<char> {
        "albedo_brightness_range"@
    }

    open spec fn finding(&self, set: MaterialSet) -> Option<IssueModel> {
        albedo_brightness_finding(set)
    }

    fn id(&self) -> (r: &str) {
        "albedo_brightness_range"
    }

    fn description(&self) -> &str {
        "Albedo brightness should be in valid PBR range (not fully black or excessively bright)"
    }

    fn check(&self, set: &MaterialSet) -> (r: Option<Issue>) {
        let albedo = match &set.albedo {
            Some(a) => a,
            None => return None,
        };
        let st = luminance_stats(&albedo.data);
        let clip = count_clipped_pixels(&albedo.data);
        let n = st.count as u128;
        assert(st.sum <= n * 255000) by {
            lemma_lum_sum_bound(albedo.data@, n as int);
        }
        if st.sum < 5000 * n {
            let den: u128 = if n == 0 { 1000 } else { 1000 * n };
            assert(st.sum / den <= 255) by (nonlinear_arith)
                requires
                    st.sum <= n * 255000,
                    den == if n == 0 { 1000 } else { 1000 * n },
            ;
            let mut msg = String::from_str("Albedo appears nearly black (mean luminance ");
            let t = tenths_text(st.sum, den);
            msg.append(t.as_str());
            msg.append("/255).");
            return Some(mk_issue("albedo_brightness_range", Severity::Major, msg));
        }
        if st.max > 250000 {
            let mut msg = String::from_str("Albedo has very bright pixels (max ");
            let t = tenths_text(st.max as u128, 1000);
            msg.append(t.as_str());
            msg.append("/255). May indicate non-PBR or HDR.");
            return Some(mk_issue("albedo_brightness_range", Severity::Minor, msg));
        }
        let total: u128 = crate::analysis::mul32(albedo.width, albedo.height);
        if clip > 0 && 100 * (clip as u128) > 5 * total {
            let den: u128 = if total == 0 { 1 } else { total };
            let mut msg = String::from_str("Albedo has ");
            let t = tenths_text(100 * clip as u128, den);
            msg.append(t.as_str());
            msg.append("% clipped pixels (255 or 0).");
            return Some(mk_issue("albedo_brightness_range", Severity::Minor, msg));
        }
        None
    }
}

proof fn lemma_lum_sum_bound(d: Seq<u8>, n: int)
    requires
        0 <= n,
        4 * n <= d.len(),
    ensures
        0 <= lum_sum(d, n) <= n * 255000,
    decreases n,
{
    if n > 0 {
        lemma_lum_sum_bound(d, n - 1);
    }
}

/// Rule: the roughness map should vary.
pub struct RoughnessUniformityRule;

impl ValidationRule for RoughnessUniformityRule {
    open spec fn spec_id(&self) -> Seq<char> {
        "roughness_uniformity"@
    }

    open spec fn finding(&self, set: MaterialSet) -> Option<IssueModel> {
        roughness_uniformity_finding(set)
    }

    fn id(&self) -> (r: &str) {
        "roughness_uniformity"
    }

    fn description(&self) -> &str {
        "Roughness map should have variation; uniformly constant or black may indicate placeholder"
    }

    fn check(&self, set: &MaterialSet) -> (r: Option<Issue>) {
        let rough = match &set.roughness {
            Some(a) => a,
            None => return None,
        };
        let st = channel_stats(&rough.data, 0);
        let n = st.count as u128;
        if st.sum < 5 * n || n == 0 {
            return Some(
                Issue::new(
                    "roughness_uniformity",
                    Severity::Major,
                    "Roughness map is nearly black. May indicate missing or incorrect texture.",
                ),
            );
        }
        if stddev_small(st.sum, st.sq_sum, st.count) {
            assert(st.sum / n <= 255) by (nonlinear_arith)
                requires
                    st.sum <= 255 * n,
                    n > 0,
            ;
            let mut msg = String::from_str("Roughness map is nearly uniform (mean ");
            let t = tenths_text(st.sum, n);
            msg.append(t.as_str());
            msg.append(").");
            return Some(mk_issue("roughness_uniformity", Severity::Minor, msg));
        }
        None
    }
}

/// Rule: a uniformly mid-gray metallic map is likely a placeholder.
pub struct MetallicMidGrayRule;

impl ValidationRule for MetallicMidGrayRule {
    open spec fn spec_id(&self) -> Seq<char> {
        "metallic_mid_gray"@
    }

    open spec fn finding(&self, set: MaterialSet) -> Option<IssueModel> {
        metallic_mid_gray_finding(set)
    }

    fn id(&self) -> (r: &str) {
        "metallic_mid_gray"
    }

    fn description(&self) -> &str {
        "Metallic map uniformly mid-gray may indicate non-metallic or placeholder"
    }

    fn check(&self, set: &MaterialSet) -> (r: Option<Issue>) {
        let metal = match &set.metallic {
            Some(a) => a,
            None => return None,
        };
        let st = channel_stats(&metal.data, 0);
        let n = st.count as u128;
        let near = st.sum + 5 * n > 128 * n && st.sum < 133 * n;
        if near && stddev_small(st.sum, st.sq_sum, st.count) {
            return Some(
                Issue::new(
                    "metallic_mid_gray",
                    Severity::Minor,
                    "Metallic map is uniformly mid-gray. May indicate uniform or placeholder.",
                ),
            );
        }
        None
    }
}

/// Rule: tangent-space normal maps are blue-dominant.
pub struct NormalMapStrengthRule;

impl ValidationRule for NormalMapStrengthRule {
    open spec fn spec_id(&self) -> Seq<char> {
        "normal_map_strength"@
    }

    open spec fn finding(&self, set: MaterialSet) -> Option<IssueModel> {
        normal_strength_finding(set)
    }

    fn id(&self) -> (r: &str) {
        "normal_map_strength"
    }

    fn description(&self) -> &str {
        "Normal map blue channel should be dominant (tangent-space normals point up)"
    }

    fn check(&self, set: &MaterialSet) -> (r: Option<Issue>) {
        let normal = match &set.normal {
            Some(a) => a,
            None => return None,
        };
        let st = channel_stats(&normal.data, 2);
        let n = st.count as u128;
        if st.sum < 100 * n || n == 0 {
            let den: u128 = if n == 0 { 1 } else { n };
            assert(st.sum / den <= 255) by (nonlinear_arith)
                requires
                    st.sum <= 255 * n,
                    den == if n == 0 { 1 } else { n },
            ;
            let mut msg = String::from_str("Normal map blue channel low (mean ");
            let t = tenths_text(st.sum, den);
            msg.append(t.as_str());
            msg.append("). Tangent-space normals typically have dominant blue.");
            return Some(mk_issue("normal_map_strength", Severity::Minor, msg));
        }
        None
    }
}

/// Rule: opposite edges of the albedo should match (threshold 40).
pub struct TileabilityRule;

impl ValidationRule for TileabilityRule {
    open spec fn spec_id(&self) -> Seq<char> {
        "tileability"@
    }

    open spec fn finding(&self, set: MaterialSet) -> Option<IssueModel> {
        tileability_finding(set)
    }

    fn id(&self) -> (r: &str) {
        "tileability"
    }

    fn description(&self) -> &str {
        "Detect obvious seams at texture edges (simple edge difference)"
    }

    fn check(&self, set: &MaterialSet) -> (r: Option<Issue>) {
        let albedo = match &set.albedo {
            Some(a) => a,
            None => return None,
        };
        if albedo.width < 4 || albedo.height < 4 {
            return None;
        }
        let e = crate::analysis::edge_difference(albedo);
        if e.total as u128 > 40 * e.samples as u128 {
            assert(e.total as u128 / e.samples as u128 <= 765) by (nonlinear_arith)
                requires
                    e.total <= 765 * e.samples,
                    e.samples > 0,
            ;
            let mut msg = String::from_str("High edge difference (");
            let t = tenths_text(e.total as u128, e.samples as u128);
            msg.append(t.as_str());
            msg.append("). Texture may not tile seamlessly.");
            return Some(mk_issue("tileability", Severity::Minor, msg));
        }
        None
    }
}

// ---------------------------------------------------------------------------
// The validator.

/// One rule of a validator.
pub enum Rule {
    RequiredMaps,
    ResolutionMismatch,
    NonPowerOfTwo,
    TextureResolution,
    AlbedoBrightness,
    RoughnessUniformity,
    MetallicMidGray,
    NormalMapStrength,
    Tileability,
    Config(ConfigRule),
}

/// What an optional finding contributes to a list of issues.
pub open spec fn opt_seq(o: Option<IssueModel>) -> Seq<IssueModel> {
    match o {
        Some(i) => seq![i],
        None => Seq::empty(),
    }
}

/// The issues a rule finds; a script rule reports through its outcome.
pub open spec fn rule_issues(rule: Rule, set: MaterialSet, outcome: Option<ScriptOutcome>) -> Seq<
    IssueModel,
> {
    match rule {
        Rule::RequiredMaps => opt_seq(required_maps_finding(set)),
        Rule::ResolutionMismatch => opt_seq(resolution_mismatch_finding(set)),
        Rule::NonPowerOfTwo => opt_seq(non_power_of_two_finding(set)),
        Rule::TextureResolution => opt_seq(texture_resolution_finding(set)),
        Rule::AlbedoBrightness => opt_seq(albedo_brightness_finding(set)),
        Rule::RoughnessUniformity => opt_seq(roughness_uniformity_finding(set)),
        Rule::MetallicMidGray => opt_seq(metallic_mid_gray_finding(set)),
        Rule::NormalMapStrength => opt_seq(normal_strength_finding(set)),
        Rule::Tileability => opt_seq(tileability_finding(set)),
        Rule::Config(c) => config_rule_issues(c, set, outcome),
    }
}

/// The outcome handed in for rule `i`, if any.
pub open spec fn outcome_at(outcomes: Seq<Option<ScriptOutcome>>, i: int) -> Option<ScriptOutcome> {
    if 0 <= i < outcomes.len() {
        outcomes[i]
    } else {
        None
    }
}

/// The issues of the first `k` rules, in rule order.
pub open spec fn all_issues(
    rules: Seq<Rule>,
    set: MaterialSet,
    outcomes: Seq<Option<ScriptOutcome>>,
    k: int,
) -> Seq<IssueModel>
    decreases k,
{
    if k <= 0 {
        Seq::empty()
    } else {
        all_issues(rules, set, outcomes, k - 1) + rule_issues(
            rules[k - 1],
            set,
            outcome_at(outcomes, k - 1),
        )
    }
}

/// The built-in rules, in their fixed order.
pub open spec fn default_rules() -> Seq<Rule> {
    seq![
        Rule::RequiredMaps,
        Rule::ResolutionMismatch,
        Rule::NonPowerOfTwo,
        Rule::TextureResolution,
        Rule::AlbedoBrightness,
        Rule::RoughnessUniformity,
        Rule::MetallicMidGray,
        Rule::NormalMapStrength,
        Rule::Tileability,
    ]
}

fn opt_vec(o: Option<Issue>) -> (r: Vec<Issue>)
    ensures
        issues_view(r@) == opt_seq(opt_model(o)),
{
    let mut v: Vec<Issue> = Vec::new();
    if let Some(i) = o {
        v.push(i);
    }
    assert(issues_view(v@) =~= opt_seq(opt_model(o)));
    v
}

impl Rule {
    /// The issues this rule finds in `set`; a script rule reports what its
    /// outcome says, and nothing without one.
    pub fn check_all(&self, set: &MaterialSet, outcome: Option<&ScriptOutcome>) -> (r: Vec<Issue>)
        ensures
            issues_view(r@) == rule_issues(*self, *set, deref_outcome(outcome)),
    {
        match self {
            Rule::RequiredMaps => opt_vec(RequiredMapsRule.check(set)),
            Rule::ResolutionMismatch => opt_vec(ResolutionMismatchRule.check(set)),
            Rule::NonPowerOfTwo => opt_vec(NonPowerOfTwoRule.check(set)),
            Rule::TextureResolution => opt_vec(TextureResolutionRule.check(set)),
            Rule::AlbedoBrightness => opt_vec(AlbedoBrightnessRule.check(set)),
            Rule::RoughnessUniformity => opt_vec(RoughnessUniformityRule.check(set)),
            Rule::MetallicMidGray => opt_vec(MetallicMidGrayRule.check(set)),
            Rule::NormalMapStrength => opt_vec(NormalMapStrengthRule.check(set)),
            Rule::Tileability => opt_vec(TileabilityRule.check(set)),
            Rule::Config(c) => c.check_all(set, outcome),
        }
    }
}

/// An ordered list of rules.
pub struct Validator {
    pub rules: Vec<Rule>,
}

impl Validator {
    /// A validator with no rules.
    pub fn new() -> (r: Validator)
        ensures
            r.rules@ == Seq::<Rule>::empty(),
    {
        Validator { rules: Vec::new() }
    }

    /// The nine built-in rules, in their fixed order.
    pub fn with_default_rules() -> (r: Validator)
        ensures
            r.rules@ == default_rules(),
    {
        let mut rules: Vec<Rule> = Vec::new();
        rules.push(Rule::RequiredMaps);
        rules.push(Rule::ResolutionMismatch);
        rules.push(Rule::NonPowerOfTwo);
        rules.push(Rule::TextureResolution);
        rules.push(Rule::AlbedoBrightness);
        rules.push(Rule::RoughnessUniformity);
        rules.push(Rule::MetallicMidGray);
        rules.push(Rule::NormalMapStrength);
        rules.push(Rule::Tileability);
        assert(rules@ =~= default_rules());
        Validator { rules }
    }

    /// This validator with one more rule at the end.
    pub fn with_rule(self, rule: Rule) -> (r: Validator)
        ensures
            r.rules@ == self.rules@.push(rule),
    {
        let mut v = self;
        v.rules.push(rule);
        v
    }

    /// Appends a rule.
    pub fn add_rule(&mut self, rule: Rule)
        ensures
            final(self).rules@ == old(self).rules@.push(rule),
    {
        self.rules.push(rule);
    }

    /// This validator with plugin rules appended, in the order given.
    pub fn with_plugins(self, plugin_rules: Vec<ConfigRule>) -> (r: Validator)
        ensures
            r.rules@.len() == self.rules@.len() + plugin_rules@.len(),
            forall|i: int| 0 <= i < self.rules@.len() ==> r.rules@[i] == self.rules@[i],
            forall|i: int|
                0 <= i < plugin_rules@.len() ==> r.rules@[self.rules@.len() + i] == Rule::Config(
                    plugin_rules@[i],
                ),
    {
        let mut v = self;
        let ghost before = v.rules@;
        let mut plugin_rules = plugin_rules;
        let ghost pr = plugin_rules@;
        let mut k: usize = 0;
        let total = plugin_rules.len();
        while k < total
            invariant
                total == pr.len(),
                k <= total,
                plugin_rules@ == pr.subrange(k as int, total as int),
                v.rules@.len() == before.len() + k,
                forall|i: int| 0 <= i < before.len() ==> v.rules@[i] == before[i],
                forall|i: int| 0 <= i < k ==> v.rules@[before.len() + i] == Rule::Config(pr[i]),
            decreases total - k,
        {
            let c = plugin_rules.remove(0);
            v.rules.push(Rule::Config(c));
            k += 1;
        }
        v
    }

    /// All issues of all rules, in rule order; script rules report nothing.
    pub fn check(&self, set: &MaterialSet) -> (r: Vec<Issue>)
        ensures
            issues_view(r@) == all_issues(self.rules@, *set, Seq::empty(), self.rules@.len() as int),
    {
        let none: Vec<Option<ScriptOutcome>> = Vec::new();
        self.check_with_outcomes(set, &none)
    }

    /// All issues of all rules, in rule order; rule `i`, when it runs a
    /// script, reports what `outcomes[i]` says.
    pub fn check_with_outcomes(&self, set: &MaterialSet, outcomes: &Vec<Option<ScriptOutcome>>) -> (r:
        Vec<Issue>)
        ensures
            issues_view(r@) == all_issues(self.rules@, *set, outcomes@, self.rules@.len() as int),
    {
        let mut out: Vec<Issue> = Vec::new();
        let mut k: usize = 0;
        while k < self.rules.len()
            invariant
                k <= self.rules@.len(),
                issues_view(out@) == all_issues(self.rules@, *set, outcomes@, k as int),
            decreases self.rules@.len() - k,
        {
            let outcome: Option<&ScriptOutcome> = if k < outcomes.len() {
                outcomes[k].as_ref()
            } else {
                None
            };
            assert(deref_outcome(outcome) == outcome_at(outcomes@, k as int));
            let mut found = self.rules[k].check_all(set, outcome);
            let ghost before = out@;
            let ghost add = found@;
            out.append(&mut found);
            assert(issues_view(out@) =~= issues_view(before) + issues_view(add));
            k += 1;
        }
        out
    }

    /// Whether any rule finds an issue.
    pub fn has_issues(&self, set: &MaterialSet) -> (r: bool)
        ensures
            r == (all_issues(self.rules@, *set, Seq::empty(), self.rules@.len() as int).len() > 0),
    {
        let v = self.check(set);
        v.len() > 0
    }
}

impl Default for Validator {
    fn default() -> (r: Validator)
        ensures
            r.rules@ == default_rules(),
    {
        Validator::with_default_rules()
    }
}

proof fn lemma_all_issues_prefix(
    rules: Seq<Rule>,
    set: MaterialSet,
    outcomes: Seq<Option<ScriptOutcome>>,
    j: int,
    k: int,
)
    requires
        0 <= j <= k,
    ensures
        all_issues(rules, set, outcomes, k).subrange(0, all_issues(rules, set, outcomes, j).len() as int)
            == all_issues(rules, set, outcomes, j),
        all_issues(rules, set, outcomes, j).len() <= all_issues(rules, set, outcomes, k).len(),
    decreases k - j,
{
    if j < k {
        lemma_all_issues_prefix(rules, set, outcomes, j, k - 1);
        let a = all_issues(rules, set, outcomes, k - 1);
        let b = all_issues(rules, set, outcomes, j);
        assert(all_issues(rules, set, outcomes, k).subrange(0, b.len() as int) =~= a.subrange(
            0,
            b.len() as int,
        ));
    } else {
        assert(all_issues(rules, set, outcomes, k).subrange(
            0,
            all_issues(rules, set, outcomes, k).len() as int,
        ) =~= all_issues(rules, set, outcomes, k));
    }
}

/// A material with neither an albedo nor a normal map gets a Critical
/// `required_maps` issue from the built-in rules, whatever else it holds.
pub proof fn lemma_missing_maps_critical(set: MaterialSet)
    requires
        set.albedo.is_none(),
        set.normal.is_none(),
    ensures
        exists|i: int|
            0 <= i < all_issues(default_rules(), set, Seq::empty(), 9).len() && (#[trigger] all_issues(
                default_rules(),
                set,
                Seq::empty(),
                9,
            )[i]).rule_id == "required_maps"@ && all_issues(default_rules(), set, Seq::empty(), 9)[i].severity
                == Severity::Critical,
{
    let all = all_issues(default_rules(), set, Seq::empty(), 9);
    let first = all_issues(default_rules(), set, Seq::empty(), 1);
    assert(all_issues(default_rules(), set, Seq::empty(), 0) =~= Seq::<IssueModel>::empty());
    assert(first =~= opt_seq(required_maps_finding(set)));
    lemma_all_issues_prefix(default_rules(), set, Seq::empty(), 1, 9);
    assert(all[0] == first[0]);
}

/// Zero issues score 100, and each further issue lowers the score by its
/// penalty, never below 0.
pub proof fn lemma_score_additive(issues: Seq<IssueModel>, extra: IssueModel)
    ensures
        score_of(Seq::empty()) == 100,
        score_of(issues.push(extra)) == if score_of(issues) - penalty(extra.severity) > 0 {
            score_of(issues) - penalty(extra.severity)
        } else {
            0
        },
{
    assert(total_penalty(Seq::<IssueModel>::empty()) == 0);
    assert(issues.push(extra).drop_last() =~= issues);
    lemma_total_penalty_prefix(issues, 0);
}

} // verus!
