use pbr_core::analysis::{
    analyze_cross_material, analyze_tileability, detect_duplicates, edge_difference,
    fix_tileability, fix_tileability_with_report, hash_similarity, perceptual_hash,
    run_advanced_analysis, TILEABILITY_THRESHOLD,
};
use pbr_core::material::{MaterialSet, TextureMap};
use pbr_core::Error;

fn make_texture(w: u32, h: u32, value: u8) -> TextureMap {
    let len = (w as usize) * (h as usize) * 4;
    TextureMap { width: w, height: h, data: vec![value; len], path: None }
}

fn gradient(w: u32, h: u32) -> TextureMap {
    let mut data = vec![0u8; (w * h * 4) as usize];
    for y in 0..h as usize {
        for x in 0..w as usize {
            let i = (y * w as usize + x) * 4;
            data[i] = (x * 16) as u8;
            data[i + 1] = (y * 16) as u8;
            data[i + 2] = 128;
            data[i + 3] = 255;
        }
    }
    TextureMap { width: w, height: h, data, path: None }
}

#[test]
fn detect_duplicate_identical() {
    let tex = make_texture(8, 8, 128);
    let mut set1 = MaterialSet::new();
    set1.albedo = Some(tex.clone());
    let mut set2 = MaterialSet::new();
    set2.albedo = Some(tex);
    let materials = vec![("mat1".to_string(), set1), ("mat2".to_string(), set2)];
    let result = detect_duplicates(&materials, 990_000, 800_000);
    assert_eq!(result.duplicate_pairs.len(), 1);
    assert!(result.duplicate_pairs[0].similarity >= 990_000);
}

#[test]
fn fix_tileability_reduces_edge_difference() {
    let tex = gradient(16, 16);
    let ed_before = edge_difference(&tex);
    let fixed = fix_tileability(&tex, 4).unwrap();
    let ed_after = edge_difference(&fixed);
    assert!(ed_after.less_than(&ed_before) || ed_before.total < ed_before.samples);
}

#[test]
fn run_advanced_analysis_produces_json() {
    let mut set = MaterialSet::new();
    set.albedo = Some(make_texture(64, 64, 128));
    set.normal = Some(make_texture(64, 64, 128));
    let materials = vec![("test".to_string(), set)];
    let report = run_advanced_analysis(&materials, 990_000, 800_000, false).unwrap();
    assert_eq!(report.duplicates.duplicate_pairs.len(), 0);
    assert_eq!(report.cross_material.material_count, 1);
}

#[test]
fn self_similarity_is_full() {
    let tex = gradient(16, 16);
    let f = perceptual_hash(&tex);
    assert_eq!(f.values.len(), 64);
    assert_eq!(hash_similarity(&f, &f), 1_000_000);
    let g = perceptual_hash(&make_texture(16, 16, 0));
    assert!(hash_similarity(&f, &g) < 1_000_000);
    let empty = perceptual_hash(&make_texture(0, 0, 0));
    assert_eq!(hash_similarity(&empty, &empty), 0);
}

#[test]
fn fingerprint_block_means() {
    let f = perceptual_hash(&make_texture(4, 4, 100));
    assert_eq!(f.values[0], 100_000);
    assert_eq!(f.values[63], 0);
}

#[test]
fn repaired_edges_match() {
    let tex = gradient(16, 16);
    let before = edge_difference(&tex);
    let (fixed, report) = fix_tileability_with_report(&tex, 4).unwrap();
    let after = edge_difference(&fixed);
    assert_eq!(after.total, 0);
    assert_eq!(after.samples, before.samples);
    assert!(report.improved);
    assert_eq!(report.path, "unknown");
    assert_eq!(fixed.width, 16);
}

#[test]
fn repair_leaves_small_textures_alone() {
    let tex = gradient(3, 3);
    let (fixed, report) = fix_tileability_with_report(&tex, 4).unwrap();
    assert_eq!(fixed.data, tex.data);
    assert!(!report.improved);
}

#[test]
fn repair_refuses_bad_buffer() {
    let tex = TextureMap { width: 8, height: 8, data: vec![0u8; 12], path: None };
    assert_eq!(fix_tileability(&tex, 2).unwrap_err(), Error::InvalidDimensions);
}

#[test]
fn uniform_texture_does_not_improve() {
    let tex = make_texture(8, 8, 77);
    let (_, report) = fix_tileability_with_report(&tex, 2).unwrap();
    assert!(!report.improved);
}

#[test]
fn two_resolutions_two_buckets() {
    let mut a = MaterialSet::new();
    a.albedo = Some(make_texture(8, 8, 1));
    let mut b = MaterialSet::new();
    b.albedo = Some(make_texture(4, 4, 1));
    b.normal = Some(make_texture(4, 4, 1));
    let mut c = MaterialSet::new();
    c.albedo = Some(make_texture(8, 8, 1));
    c.name = Some("named".into());
    let materials = vec![
        ("/x/first".to_string(), a),
        ("/x/second".to_string(), b),
        ("/x/third".to_string(), c),
    ];
    let r = analyze_cross_material(&materials);
    assert!(r.resolution_inconsistent);
    assert_eq!(r.resolution_distributions.len(), 2);
    let total: usize = r.resolution_distributions.iter().map(|d| d.count).sum();
    assert_eq!(total, 3);
    assert_eq!(r.resolution_distributions[0].materials, vec!["first".to_string(), "named".to_string()]);
    assert_eq!(r.map_coverage[1].present_count, 1);
    assert_eq!(r.map_coverage[1].coverage_percent, 33);
    assert_eq!(r.map_coverage[1].missing_in, vec!["first".to_string(), "named".to_string()]);
    assert_eq!(r.recommendations.len(), 2);
    assert_eq!(
        r.recommendations[1],
        "Map 'normal' missing in 2 material(s). Consider adding for consistency."
    );
}

#[test]
fn tileability_analysis_flags_above_threshold() {
    let mut a = MaterialSet::new();
    a.albedo = Some(gradient(16, 16));
    a.normal = Some(make_texture(16, 16, 5));
    let materials = vec![("m".to_string(), a)];
    let entries = analyze_tileability(&materials, TILEABILITY_THRESHOLD);
    assert_eq!(entries.len(), 2);
    assert_eq!(entries[0].slot, "albedo");
    assert!(entries[0].needs_fix);
    assert!(!entries[1].needs_fix);
    assert_eq!(entries[0].material_name, Some("m".to_string()));
}

#[test]
fn advanced_analysis_reports_improving_fixes() {
    let mut a = MaterialSet::new();
    a.albedo = Some(gradient(16, 16));
    let mut b = MaterialSet::new();
    b.albedo = Some(make_texture(16, 16, 9));
    let materials = vec![("a".to_string(), a), ("b".to_string(), b)];
    let r = run_advanced_analysis(&materials, 990_000, 800_000, true).unwrap();
    let fixes = r.tileability_fixes.unwrap();
    assert_eq!(fixes.len(), 1);
    assert!(fixes[0].improved);
    assert_eq!(r.duplicates.duplicate_pairs.len(), 0);
}
