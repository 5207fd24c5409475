use pbr_core::estimation::estimate_vram;
use pbr_core::history::{export_audit_log_text, AuditAction, AuditEntry, AuditLog, UndoStack, VersionLog};
use pbr_core::image_loading::{ImageFormat, ImageLoader, LoadedImage};
use pbr_core::json_report::MaterialReport;
use pbr_core::material::{MaterialClass, MaterialSet, TextureMap, TextureSlot};
use pbr_core::plugin::material_summary_for_script;
use pbr_core::report::{Report, TextureSet};
use pbr_core::validation::{Issue, Severity};

fn make_texture(w: u32, h: u32) -> TextureMap {
    TextureMap { width: w, height: h, data: vec![0; (w as usize) * (h as usize) * 4], path: None }
}

#[test]
fn estimate_vram_single_texture() {
    let mut set = MaterialSet::new();
    set.albedo = Some(make_texture(1024, 1024));
    let est = estimate_vram(&set, false, false);
    assert_eq!(est.bytes, 1024 * 1024 * 4);
    assert!(est.formatted.contains("MB"));
}

#[test]
fn estimate_vram_with_mipmaps() {
    let mut set = MaterialSet::new();
    set.albedo = Some(make_texture(1024, 1024));
    let est = estimate_vram(&set, true, false);
    assert!(est.bytes > 1024 * 1024 * 4);
}

#[test]
fn estimate_vram_packs_orm() {
    let mut set = MaterialSet::new();
    set.roughness = Some(make_texture(2, 2));
    set.metallic = Some(make_texture(2, 2));
    set.ao = Some(make_texture(2, 2));
    let est = estimate_vram(&set, true, true);
    assert_eq!(est.textures.len(), 1);
    assert_eq!(est.textures[0].slot, "orm");
    assert_eq!(est.bytes, 21);
    assert_eq!(est.formatted, "21 B");
    let est = estimate_vram(&set, false, false);
    assert_eq!(est.bytes, 48);
}

#[test]
fn detect_slot_albedo_exr() {
    assert_eq!(ImageLoader::detect_slot_from_path("material_albedo.exr"), Some(TextureSlot::Albedo));
    assert_eq!(ImageLoader::detect_slot_from_path("roughness.exr"), Some(TextureSlot::Roughness));
}

#[test]
fn detect_slot_albedo_basecolor_normal() {
    assert_eq!(ImageLoader::detect_slot_from_path("material_albedo.png"), Some(TextureSlot::Albedo));
    assert_eq!(ImageLoader::detect_slot_from_path("basecolor.jpg"), Some(TextureSlot::Albedo));
    assert_eq!(ImageLoader::detect_slot_from_path("normal_map.tga"), Some(TextureSlot::Normal));
    assert_eq!(ImageLoader::detect_slot_from_path("roughness.png"), Some(TextureSlot::Roughness));
    assert_eq!(ImageLoader::detect_slot_from_path("metallic.png"), Some(TextureSlot::Metallic));
    assert_eq!(ImageLoader::detect_slot_from_path("ao.png"), Some(TextureSlot::AmbientOcclusion));
    assert_eq!(ImageLoader::detect_slot_from_path("height.tga"), Some(TextureSlot::Height));
}

#[test]
fn detect_slot_uses_stem_in_any_case() {
    assert_eq!(ImageLoader::detect_slot_from_path("/a/normal.d/Wood_ROUGH.png"), Some(TextureSlot::Roughness));
    assert_eq!(ImageLoader::detect_slot_from_path("plain.png"), None);
}

#[test]
fn validate_exr_channels_valid() {
    let loaded = LoadedImage {
        width: 4,
        height: 4,
        data: vec![128; 4 * 4 * 4],
        format: ImageFormat::OpenExr,
        color_type: "Rgba32F".into(),
    };
    let report = loaded.validate_exr_channels();
    assert!(report.valid);
    assert_eq!(report.channel_count, 4);
}

#[test]
fn validate_exr_channels_invalid_dimensions() {
    let loaded = LoadedImage {
        width: 0,
        height: 4,
        data: vec![],
        format: ImageFormat::OpenExr,
        color_type: "Rgba32F".into(),
    };
    let report = loaded.validate_exr_channels();
    assert!(!report.valid);
    assert!(!report.warnings.is_empty());
}

#[test]
fn material_report_fields() {
    let mut set = MaterialSet::new();
    set.name = Some("TestMaterial".into());
    set.albedo = Some(TextureMap { width: 4, height: 4, data: vec![128; 64], path: None });
    let issues = vec![Issue::new("test_rule", Severity::Major, "Test issue message")];
    let report = MaterialReport::from_material_set(&set, issues);
    assert_eq!(report.name, Some("TestMaterial".to_string()));
    assert_eq!(report.score, 90);
    assert_eq!(report.issues[0].rule_id, "test_rule");
    assert_eq!(report.warning_count, 1);
    assert!(report.passed);
    assert_eq!(report.summary.texture_count, 1);
    assert!(report.vram_estimate.is_some());
}

#[test]
fn suggestions_follow_issues() {
    let mut set = MaterialSet::new();
    set.albedo = Some(make_texture(4096 + 4, 4));
    let report = MaterialReport::from_material_set(&set, vec![]);
    assert_eq!(report.optimization_suggestions.len(), 1);
    assert_eq!(report.optimization_suggestions[0].priority, Some(1));
    let report = MaterialReport::from_material_set(
        &set,
        vec![Issue::new("texture_resolution", Severity::Major, "big")],
    );
    assert_eq!(report.optimization_suggestions.len(), 1);
    assert_eq!(report.optimization_suggestions[0].details, Some("big".to_string()));
    assert_eq!(report.optimization_suggestions[0].priority, Some(2));
}

#[test]
fn legacy_report_counts() {
    let mut set = MaterialSet::new();
    set.albedo = Some(make_texture(2, 2));
    let r = Report::from_material_set(
        &set,
        vec![Issue::new("a", Severity::Critical, "x"), Issue::new("b", Severity::Major, "y")],
    );
    assert_eq!(r.error_count, 1);
    assert_eq!(r.warning_count, 1);
    assert!(!r.passed);
    assert_eq!(r.name, Some("Unnamed".to_string()));
    let ts = TextureSet::from_material_set(&set);
    assert!(ts.has_slot(TextureSlot::Albedo));
    assert!(!ts.has_slot(TextureSlot::Normal));
}

#[test]
fn audit_log_text_and_bound() {
    let mut log = AuditLog::new();
    for k in 0..1002 {
        log.add(AuditEntry {
            timestamp: format!("t{}", k),
            action: AuditAction::Validation,
            material_path: Some("/m".into()),
            score: Some(-3),
            passed: None,
            min_score: Some(70),
            issue_count: Some(2),
            error_count: None,
            warning_count: None,
            output_path: None,
            preset: Some("unreal".into()),
            format: None,
            texture_count: None,
            certified: true,
        });
    }
    assert_eq!(log.entries.len(), 1000);
    assert_eq!(log.entries[0].timestamp, "t1001");
    let text = export_audit_log_text(&log, Some(2));
    assert_eq!(
        text,
        "t1001 [validation] path=/m score=-3/70 [certified] issues=2 preset=unreal\nt1000 [validation] path=/m score=-3/70 [certified] issues=2 preset=unreal"
    );
}

#[test]
fn undo_stack_keeps_newest() {
    let mut s = UndoStack::new(0);
    assert_eq!(s.max_size, 1);
    s.record_validation("/a", 50);
    s.record_validation("/b", 60);
    assert_eq!(s.len(), 1);
    assert_eq!(s.entries[0].score, Some(60));
    assert!(!s.entries[0].timestamp.is_empty());
    s.clear();
    assert!(s.is_empty());
}

#[test]
fn version_log_entries() {
    let mut v = VersionLog::new("/f");
    v.add_entry(80, true, 0, 1, 2);
    assert_eq!(v.entries.len(), 1);
    assert_eq!(v.entries[0].score, 80);
    assert!(v.entries[0].timestamp.contains('T'));
}

#[test]
fn script_summary() {
    let mut set = MaterialSet::new();
    set.name = Some("n".into());
    set.normal = Some(make_texture(2, 2));
    let s = material_summary_for_script(&set);
    assert_eq!(s.path, Some(String::new()));
    assert_eq!(s.texture_count, 1);
    assert!(s.maps.normal && !s.maps.albedo);
    assert_eq!(MaterialClass::Stone.as_str(), "stone");
}

#[test]
fn slot_from_lowered_stem() {
    assert_eq!(ImageLoader::slot_from_stem("wood_metal_rough"), Some(TextureSlot::Metallic));
    assert_eq!(ImageLoader::slot_from_stem("emission"), Some(TextureSlot::Emissive));
    assert_eq!(ImageLoader::slot_from_stem("BASECOLOR"), None);
}

#[test]
fn report_counts_from_issues() {
    let set = MaterialSet::new();
    let r = Report::from_material_set(
        &set,
        vec![
            Issue::new("a", Severity::Major, "x"),
            Issue::new("b", Severity::Major, "y"),
            Issue::new("c", Severity::Minor, "z"),
        ],
    );
    assert_eq!(r.error_count, 0);
    assert_eq!(r.warning_count, 2);
    assert!(r.passed);
    assert!(r.to_text().ends_with("Result: PASSED (0 errors, 2 warnings)"));
}

#[test]
fn stems_drop_only_the_last_extension() {
    assert_eq!(pbr_core::image_loading::stem_of("wood.rough.png"), "wood.rough");
    assert_eq!(pbr_core::image_loading::stem_of(".hidden"), ".hidden");
    assert_eq!(pbr_core::image_loading::stem_of("plain"), "plain");
    assert_eq!(ImageLoader::detect_slot_from_path("dir/.ao"), Some(TextureSlot::AmbientOcclusion));
    assert_eq!(ImageLoader::detect_slot_from_path("dir/x.height.png"), Some(TextureSlot::Height));
}
