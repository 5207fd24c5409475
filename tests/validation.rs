use pbr_core::material::{MaterialSet, TextureMap};
use pbr_core::plugin::{dimension_of_word, has_map_named, severity_of_word};
use pbr_core::plugin::{
    parse_severity, ConfigRule, RuleCondition, RuleConfig, ScriptIssue, ScriptOutcome,
    ScriptPluginResponse,
};
use pbr_core::validation::{
    AlbedoBrightnessRule, Issue, NonPowerOfTwoRule, RequiredMapsRule,
    RoughnessUniformityRule, Rule, Severity, TextureResolutionRule, TileabilityRule, ValidationRule,
    Validator,
};

fn make_texture_map(width: u32, height: u32, data: Vec<u8>) -> TextureMap {
    TextureMap { width, height, data, path: None }
}

#[test]
fn required_maps_critical_when_missing() {
    let set = MaterialSet::new();
    let issue = RequiredMapsRule.check(&set);
    assert!(issue.is_some());
    assert!(issue.unwrap().message.contains("albedo"));
}

#[test]
fn albedo_brightness_major_on_black() {
    let mut set = MaterialSet::new();
    set.albedo = Some(make_texture_map(
        2,
        2,
        vec![0, 0, 0, 255, 0, 0, 0, 255, 0, 0, 0, 255, 0, 0, 0, 255],
    ));
    set.normal = Some(make_texture_map(2, 2, vec![128u8; 16]));
    let issue = AlbedoBrightnessRule.check(&set);
    assert!(issue.is_some());
    assert!(issue.unwrap().message.contains("black"));
}

#[test]
fn albedo_brightness_passes_on_valid() {
    let mut set = MaterialSet::new();
    let data: Vec<u8> = (0..4).flat_map(|_| [128u8, 128, 128, 255]).collect();
    set.albedo = Some(make_texture_map(2, 2, data));
    set.normal = Some(make_texture_map(2, 2, vec![128u8; 16]));
    let issue = AlbedoBrightnessRule.check(&set);
    assert!(issue.is_none());
}

#[test]
fn roughness_uniformity_minor_on_constant() {
    let mut set = MaterialSet::new();
    set.albedo = Some(make_texture_map(4, 4, vec![128u8; 256]));
    set.normal = Some(make_texture_map(4, 4, vec![128u8; 256]));
    set.roughness = Some(make_texture_map(4, 4, vec![128u8; 256]));
    let issue = RoughnessUniformityRule.check(&set);
    assert!(issue.is_some());
    assert!(issue.unwrap().message.contains("uniform"));
}

#[test]
fn texture_resolution_major_over_4k() {
    let mut set = MaterialSet::new();
    set.albedo = Some(make_texture_map(4097, 2, vec![128; 4097 * 2 * 4]));
    set.normal = Some(make_texture_map(4097, 2, vec![128; 4097 * 2 * 4]));
    let issue = TextureResolutionRule.check(&set);
    assert!(issue.is_some());
    assert!(issue.unwrap().message.contains("4K"));
}

#[test]
fn validator_returns_issues() {
    let validator = Validator::default();
    let mut set = MaterialSet::new();
    set.albedo = Some(make_texture_map(2, 2, vec![0u8; 16]));
    set.normal = Some(make_texture_map(2, 2, vec![128u8; 16]));
    set.roughness = Some(make_texture_map(4, 4, vec![128u8; 256]));
    let issues = validator.check(&set);
    assert!(issues.len() >= 2);
}

#[test]
fn compute_score() {
    let issues = vec![
        Issue::new("r1", Severity::Critical, "c"),
        Issue::new("r2", Severity::Major, "m"),
    ];
    assert_eq!(pbr_core::validation::compute_score(&issues), 70);
}

#[test]
fn score_of_no_issue_and_one_critical() {
    assert_eq!(pbr_core::validation::compute_score(&[]), 100);
    assert_eq!(pbr_core::validation::compute_score(&[Issue::new("r", Severity::Critical, "c")]), 80);
    assert_eq!(pbr_core::validation::compute_score(&[Issue::new("r", Severity::Minor, "c")]), 95);
}

#[test]
fn score_never_below_zero() {
    let issues: Vec<Issue> = (0..7).map(|_| Issue::new("r", Severity::Critical, "c")).collect();
    assert_eq!(pbr_core::validation::compute_score(&issues), 0);
}

#[test]
fn missing_albedo_and_normal_gives_critical_required_maps() {
    let mut set = MaterialSet::new();
    set.roughness = Some(make_texture_map(4, 4, vec![100u8; 64]));
    let issues = Validator::default().check(&set);
    assert!(issues
        .iter()
        .any(|i| i.rule_id == "required_maps" && i.severity == Severity::Critical));
    assert_eq!(issues[0].message, "Missing albedo/base color map. Required for PBR.");
}

#[test]
fn missing_normal_only() {
    let mut set = MaterialSet::new();
    set.albedo = Some(make_texture_map(2, 2, vec![128u8; 16]));
    let issue = RequiredMapsRule.check(&set).unwrap();
    assert_eq!(issue.message, "Missing normal map. Required for PBR.");
}

#[test]
fn non_power_of_two_lists_slots() {
    let mut set = MaterialSet::new();
    set.albedo = Some(make_texture_map(3, 4, vec![128u8; 48]));
    set.height = Some(make_texture_map(5, 6, vec![128u8; 120]));
    set.normal = Some(make_texture_map(4, 4, vec![128u8; 64]));
    let issue = NonPowerOfTwoRule.check(&set).unwrap();
    assert_eq!(issue.severity, Severity::Minor);
    assert_eq!(
        issue.message,
        "Non-power-of-two dimensions: albedo (3x4), height (5x6). May cause GPU issues."
    );
}

#[test]
fn albedo_black_message_has_mean() {
    let mut set = MaterialSet::new();
    set.albedo = Some(make_texture_map(1, 1, vec![0, 0, 0, 255]));
    let issue = AlbedoBrightnessRule.check(&set).unwrap();
    assert_eq!(issue.severity, Severity::Major);
    assert_eq!(issue.message, "Albedo appears nearly black (mean luminance 0.0/255).");
}

#[test]
fn albedo_bright_is_minor() {
    let mut set = MaterialSet::new();
    set.albedo = Some(make_texture_map(1, 1, vec![255, 255, 255, 255]));
    let issue = AlbedoBrightnessRule.check(&set).unwrap();
    assert_eq!(issue.severity, Severity::Minor);
    assert_eq!(
        issue.message,
        "Albedo has very bright pixels (max 255.0/255). May indicate non-PBR or HDR."
    );
}

#[test]
fn roughness_black_is_major() {
    let mut set = MaterialSet::new();
    set.roughness = Some(make_texture_map(2, 2, vec![0u8; 16]));
    let issue = RoughnessUniformityRule.check(&set).unwrap();
    assert_eq!(issue.severity, Severity::Major);
}

#[test]
fn tileability_rule_flags_seams() {
    let mut data = vec![0u8; 8 * 8 * 4];
    for y in 0..8 {
        for x in 0..8 {
            let i = (y * 8 + x) * 4;
            let v = if x < 4 { 0 } else { 255 };
            data[i] = v;
            data[i + 1] = v;
            data[i + 2] = v;
            data[i + 3] = 255;
        }
    }
    let mut set = MaterialSet::new();
    set.albedo = Some(make_texture_map(8, 8, data));
    let issue = TileabilityRule.check(&set).unwrap();
    assert_eq!(issue.rule_id, "tileability");
    assert_eq!(issue.message, "High edge difference (382.5). Texture may not tile seamlessly.");
}

#[test]
fn parse_severity_any_case() {
    assert_eq!(parse_severity("CRITICAL"), Some(Severity::Critical));
    assert_eq!(parse_severity("Warning"), Some(Severity::Major));
    assert_eq!(parse_severity("info"), Some(Severity::Minor));
    assert_eq!(parse_severity("nope"), None);
}

fn config_rule(id: &str, severity: &str, condition: RuleCondition) -> ConfigRule {
    ConfigRule {
        config: RuleConfig {
            id: id.to_string(),
            description: String::new(),
            severity: severity.to_string(),
            condition,
        },
    }
}

#[test]
fn config_rules_check_conditions() {
    let mut set = MaterialSet::new();
    set.albedo = Some(make_texture_map(8, 4, vec![128u8; 128]));
    let rules = vec![
        config_rule(
            "needs",
            "minor",
            RuleCondition::RequiredMaps { maps: vec!["BaseColor".into(), "normal".into(), "bump".into()] },
        ),
        config_rule("max", "critical", RuleCondition::MaxResolution { max_width: 4, max_height: 4 }),
        config_rule("count", "whatever", RuleCondition::MaxTextureCount { max: 0 }),
    ];
    let v = Validator::new().with_plugins(rules);
    let issues = v.check(&set);
    assert_eq!(issues.len(), 3);
    assert_eq!(issues[0].message, "Missing required maps: normal, bump");
    assert_eq!(issues[0].severity, Severity::Minor);
    assert_eq!(issues[1].message, "Resolution 8x4 exceeds max 4x4");
    assert_eq!(issues[1].severity, Severity::Critical);
    assert_eq!(issues[2].message, "Texture count 1 exceeds max 0");
    assert_eq!(issues[2].severity, Severity::Major);
}

#[test]
fn script_outcomes_become_issues() {
    let set = MaterialSet::new();
    let rule = config_rule(
        "script",
        "major",
        RuleCondition::Script { command: "check.py".into(), args: vec![] },
    );
    let v = Validator::new().with_rule(Rule::Config(rule));
    assert!(v.check(&set).is_empty());

    let failed = vec![Some(ScriptOutcome::Failed { status: "exit status: 2".into() })];
    let issues = v.check_with_outcomes(&set, &failed);
    assert_eq!(issues.len(), 1);
    assert_eq!(issues[0].severity, Severity::Minor);
    assert_eq!(issues[0].message, "Plugin script check.py failed (exit exit status: 2)");

    let done = vec![Some(ScriptOutcome::Completed {
        response: Some(ScriptPluginResponse {
            issues: vec![
                ScriptIssue { rule_id: "x".into(), severity: "critical".into(), message: "a".into() },
                ScriptIssue { rule_id: "y".into(), severity: "odd".into(), message: "b".into() },
            ],
        }),
    })];
    let issues = v.check_with_outcomes(&set, &done);
    assert_eq!(issues.len(), 2);
    assert_eq!(issues[0].rule_id, "script");
    assert_eq!(issues[0].severity, Severity::Critical);
    assert_eq!(issues[1].severity, Severity::Major);

    let garbage = vec![Some(ScriptOutcome::Completed { response: None })];
    assert!(v.check_with_outcomes(&set, &garbage).is_empty());
}

#[test]
fn lowered_word_helpers() {
    assert_eq!(severity_of_word("error"), Some(Severity::Critical));
    assert_eq!(severity_of_word("ERROR"), None);
    assert_eq!(dimension_of_word("1k"), 1024);
    assert_eq!(dimension_of_word("weird"), 2048);
    let mut set = MaterialSet::new();
    set.height = Some(make_texture_map(1, 1, vec![0; 4]));
    assert!(has_map_named(&set, "bump"));
    assert!(!has_map_named(&set, "diffuse"));
}
