use pbr_core::material::{MaterialSet, TextureMap};
use pbr_core::optimization::{
    batch_export_plan, compute_target_dimensions, generate_lod_chain, lod_export_plan, material_files, pack_rma,
    pack_rma_from_material, resize_material_set, resize_texture, ExportPreset,
    OptimizationPreset, TargetResolution,
};
use pbr_core::Error;

fn make_test_texture(w: u32, h: u32) -> TextureMap {
    let len = (w as usize) * (h as usize) * 4;
    TextureMap { width: w, height: h, data: vec![128u8; len], path: None }
}

fn make_grayscale_texture(w: u32, h: u32, value: u8) -> TextureMap {
    let len = (w as usize) * (h as usize) * 4;
    TextureMap { width: w, height: h, data: vec![value; len], path: None }
}

#[test]
fn resize_texture_4k() {
    let tex = make_test_texture(5120, 5120);
    let resized = resize_texture(&tex, TargetResolution::Res4K).unwrap();
    assert_eq!(resized.width, 4096);
    assert_eq!(resized.height, 4096);
    assert_eq!(resized.data.len(), 4096 * 4096 * 4);
}

#[test]
fn resize_texture_2k() {
    let tex = make_test_texture(4096, 4096);
    let resized = resize_texture(&tex, TargetResolution::Res2K).unwrap();
    assert_eq!(resized.width, 2048);
    assert_eq!(resized.height, 2048);
    assert_eq!(resized.data.len(), 2048 * 2048 * 4);
}

#[test]
fn resize_texture_1k() {
    let tex = make_test_texture(2048, 2048);
    let resized = resize_texture(&tex, TargetResolution::Res1K).unwrap();
    assert_eq!(resized.width, 1024);
    assert_eq!(resized.height, 1024);
    assert_eq!(resized.data.len(), 1024 * 1024 * 4);
}

#[test]
fn resize_texture_unchanged_when_smaller() {
    let tex = make_test_texture(512, 512);
    let resized = resize_texture(&tex, TargetResolution::Res2K).unwrap();
    assert_eq!(resized.width, 512);
    assert_eq!(resized.height, 512);
}

#[test]
fn resize_texture_preserves_aspect_ratio() {
    let tex = make_test_texture(4096, 2048);
    let resized = resize_texture(&tex, TargetResolution::Res2K).unwrap();
    assert_eq!(resized.width, 2048);
    assert_eq!(resized.height, 1024);
}

#[test]
fn pack_rma_combines_channels() {
    let roughness = make_grayscale_texture(4, 4, 64);
    let metallic = make_grayscale_texture(4, 4, 128);
    let ao = make_grayscale_texture(4, 4, 192);

    let packed = pack_rma(&roughness, &metallic, &ao).unwrap();
    assert_eq!(packed.width, 4);
    assert_eq!(packed.height, 4);
    assert_eq!(packed.data.len(), 4 * 4 * 4);
    assert_eq!(packed.pixel(0, 0), Some([192, 64, 128, 255]));
}

#[test]
fn pack_rma_resizes_mismatched_dimensions() {
    let roughness = make_grayscale_texture(4, 4, 100);
    let metallic = make_grayscale_texture(2, 2, 150);
    let ao = make_grayscale_texture(8, 8, 200);

    let packed = pack_rma(&roughness, &metallic, &ao).unwrap();
    assert_eq!(packed.width, 4);
    assert_eq!(packed.height, 4);
    assert_eq!(packed.data.len(), 4 * 4 * 4);
}

#[test]
fn optimization_preset_defaults() {
    let unreal = OptimizationPreset::unreal();
    assert_eq!(unreal.effective_resolution(), TargetResolution::Res2K);
    assert_eq!(unreal.effective_lod_levels().len(), 3);

    let mobile = OptimizationPreset::mobile();
    assert_eq!(mobile.effective_resolution(), TargetResolution::Res1K);
    assert_eq!(mobile.effective_lod_levels().len(), 2);

    let unity_4k = OptimizationPreset::unity().with_resolution(TargetResolution::Res4K);
    assert_eq!(unity_4k.effective_resolution(), TargetResolution::Res4K);
}

#[test]
fn export_preset_lod_levels() {
    assert_eq!(ExportPreset::UnrealEngine.default_lod_levels().len(), 3);
    assert_eq!(ExportPreset::MobileOptimized.default_lod_levels().len(), 2);
}

#[test]
fn target_dimensions_round_and_fit() {
    assert_eq!(compute_target_dimensions(5120, 5120, 4096), (4096, 4096));
    assert_eq!(compute_target_dimensions(512, 512, 2048), (512, 512));
    assert_eq!(compute_target_dimensions(1000, 3, 100), (100, 1));
    assert_eq!(compute_target_dimensions(300, 1000, 100), (30, 100));
    assert_eq!(compute_target_dimensions(5, 1000, 100), (1, 100));
}

#[test]
fn resize_changes_pixels_of_a_gradient() {
    let mut data = vec![0u8; 8 * 8 * 4];
    for (i, b) in data.iter_mut().enumerate() {
        *b = (i % 251) as u8;
    }
    let tex = TextureMap { width: 8, height: 8, data: data.clone(), path: Some("a.png".into()) };
    let r = resize_texture(&tex, TargetResolution::Custom(4)).unwrap();
    assert_eq!((r.width, r.height), (4, 4));
    assert_eq!(r.data.len(), 64);
    assert_ne!(r.data[..], data[..64]);
    assert_eq!(r.path, Some("a.png".to_string()));
}

#[test]
fn resize_refuses_short_buffer() {
    let tex = TextureMap { width: 8, height: 8, data: vec![0u8; 10], path: None };
    assert_eq!(resize_texture(&tex, TargetResolution::Custom(4)).unwrap_err(), Error::InvalidDimensions);
}

#[test]
fn labels() {
    assert_eq!(TargetResolution::Res4K.label(), "4K");
    assert_eq!(TargetResolution::Custom(300).label(), "300px");
    assert_eq!(ExportPreset::MobileOptimized.label(), "Mobile Optimized");
    assert_eq!(TargetResolution::Custom(300).max_dimension(), 300);
}

#[test]
fn lod_export_has_one_directory_per_level() {
    let mut m = MaterialSet::new();
    m.albedo = Some(make_test_texture(16, 16));
    m.roughness = Some(make_grayscale_texture(16, 16, 10));
    m.metallic = Some(make_grayscale_texture(16, 16, 20));
    m.ao = Some(make_grayscale_texture(16, 16, 30));
    let levels = [TargetResolution::Custom(8), TargetResolution::Custom(4)];
    let dirs = lod_export_plan(&m, TargetResolution::Res2K, &levels).unwrap();
    let names: Vec<&str> = dirs.iter().map(|d| d.dir_name.as_str()).collect();
    assert_eq!(names, vec!["LOD0", "LOD1", "LOD2"]);
    for d in &dirs {
        let files: Vec<&str> = d.files.iter().map(|f| f.file_name.as_str()).collect();
        assert_eq!(files, vec!["BaseColor.png", "ORM.png"]);
    }
    assert_eq!(dirs[2].files[0].texture.width, 4);
    assert_eq!(dirs[0].files[0].texture.width, 16);
}

#[test]
fn separate_maps_without_full_orm() {
    let mut m = MaterialSet::new();
    m.normal = Some(make_test_texture(4, 4));
    m.roughness = Some(make_grayscale_texture(4, 4, 10));
    m.ao = Some(make_grayscale_texture(4, 4, 30));
    m.height = Some(make_test_texture(4, 4));
    let files = material_files(&m).unwrap();
    let names: Vec<&str> = files.iter().map(|f| f.file_name.as_str()).collect();
    assert_eq!(names, vec!["Normal.png", "Roughness.png", "AmbientOcclusion.png", "Height.png"]);
    assert!(pack_rma_from_material(&m).unwrap().is_none());
}

#[test]
fn lod_chain_resizes_from_original() {
    let mut m = MaterialSet::new();
    m.albedo = Some(make_test_texture(64, 32));
    let chain = generate_lod_chain(&m, &[TargetResolution::Custom(16), TargetResolution::Custom(8)]).unwrap();
    assert_eq!(chain.len(), 2);
    let a = chain[1].1.albedo.as_ref().unwrap();
    assert_eq!((a.width, a.height), (8, 4));
    let whole = resize_material_set(&m, TargetResolution::Res4K).unwrap();
    assert_eq!(whole.albedo.as_ref().unwrap().width, 64);
}

#[test]
fn batch_plan_names_materials() {
    let mut a = MaterialSet::new();
    a.albedo = Some(make_test_texture(8, 8));
    let mut b = MaterialSet::new();
    b.name = Some("brick".into());
    b.normal = Some(make_test_texture(8, 8));
    let materials = vec![("/in/wood".to_string(), a), ("/in/other".to_string(), b)];
    let plan = batch_export_plan(&materials, &OptimizationPreset::mobile(), true).unwrap();
    assert_eq!(plan.len(), 2);
    assert_eq!(plan[0].dir_name, "wood");
    assert_eq!(plan[1].dir_name, "brick");
    assert_eq!(plan[0].dirs.len(), 3);
    assert_eq!(plan[1].dirs[2].files[0].file_name, "Normal.png");
    let flat = batch_export_plan(&materials, &OptimizationPreset::unreal(), false).unwrap();
    assert_eq!(flat[0].dirs.len(), 1);
    assert_eq!(flat[0].dirs[0].dir_name, "");
}

#[test]
fn pack_from_material_gives_packed_pixels() {
    let mut m = MaterialSet::new();
    m.roughness = Some(make_grayscale_texture(2, 2, 11));
    m.metallic = Some(make_grayscale_texture(2, 2, 22));
    m.ao = Some(make_grayscale_texture(2, 2, 33));
    let p = pack_rma_from_material(&m).unwrap().unwrap();
    assert_eq!(p.pixel(1, 1), Some([33, 11, 22, 255]));
    assert!(p.path.is_none());
    let files = material_files(&m).unwrap();
    assert_eq!(files[0].file_name, "ORM.png");
    assert_eq!(files[0].texture.data, p.data);
}

#[test]
fn export_plan_refuses_short_buffer() {
    let mut m = MaterialSet::new();
    m.albedo = Some(TextureMap { width: 64, height: 64, data: vec![0u8; 16], path: None });
    assert_eq!(
        pbr_core::optimization::export_plan(&m, TargetResolution::Custom(8)).unwrap_err(),
        Error::InvalidDimensions
    );
    let levels = [TargetResolution::Custom(8)];
    assert!(lod_export_plan(&m, TargetResolution::Res4K, &levels).is_err());
    let plan = pbr_core::optimization::export_plan(&m, TargetResolution::Res4K).unwrap();
    assert_eq!(plan[0].file_name, "BaseColor.png");
    assert_eq!(plan[0].texture.data.len(), 16);
}
