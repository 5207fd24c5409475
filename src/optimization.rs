//! Optimization: resolution targets, Lanczos resizing, ORM channel packing,
//! presets and LOD export plans.
//!
//! Writing files is the caller's work: an export plan lists, per output
//! directory, the file names and the textures to write under them.
use vstd::prelude::*;
use vstd::string::*;
use crate::material::{MaterialSet, TextureMap};
use crate::text::{decimal, decimal_text};
use crate::Error;

verus! {

/// What `image::imageops::resize` with the Lanczos3 filter returns for an
/// RGBA8 buffer of `w x h` resized to `nw x nh`.
pub uninterp spec fn lanczos3(data: Seq<u8>, w: u32, h: u32, nw: u32, nh: u32) -> Seq<u8>;

/// Relies on `image::ImageBuffer::from_raw` (accepts a buffer of at least
/// `w * h * 4` bytes) and `image::imageops::resize` with
/// `FilterType::Lanczos3`, whose result is an `nw x nh` RGBA8 buffer (all
/// zero for an empty source).
#[verifier::external_body]
fn lanczos_resize(data: &Vec<u8>, w: u32, h: u32, nw: u32, nh: u32) -> (r: Vec<u8>)
    requires
        nw >= 1,
        nh >= 1,
        data@.len() >= w as int * h as int * 4,
        nw as int * nh as int * 4 <= usize::MAX,
    ensures
        r@ == lanczos3(data@, w, h, nw, nh),
        r@.len() == nw as int * nh as int * 4,
{
    let img: image::RgbaImage = image::ImageBuffer::from_raw(w, h, data.clone()).unwrap();
    image::imageops::resize(&img, nw, nh, image::imageops::FilterType::Lanczos3).into_raw()
}

/// Target resolution: the longest edge in pixels.
#[derive(Clone, Copy, Debug, PartialEq, Eq, Structural)]
pub enum TargetResolution {
    Res4K,
    Res2K,
    Res1K,
    Res512,
    Res256,
    Res128,
    Custom(u32),
}

/// Longest edge of a target.
pub open spec fn max_dim(t: TargetResolution) -> u32 {
    match t {
        TargetResolution::Res4K => 4096,
        TargetResolution::Res2K => 2048,
        TargetResolution::Res1K => 1024,
        TargetResolution::Res512 => 512,
        TargetResolution::Res256 => 256,
        TargetResolution::Res128 => 128,
        TargetResolution::Custom(d) => d,
    }
}

impl TargetResolution {
    /// Maximum dimension (longest edge) in pixels.
    pub fn max_dimension(&self) -> (r: u32)
        ensures
            r == max_dim(*self),
    {
        match self {
            TargetResolution::Res4K => 4096,
            TargetResolution::Res2K => 2048,
            TargetResolution::Res1K => 1024,
            TargetResolution::Res512 => 512,
            TargetResolution::Res256 => 256,
            TargetResolution::Res128 => 128,
            TargetResolution::Custom(d) => *d,
        }
    }

    /// Human-readable label: "4K", "2K", "1K", "512", "256", "128" or "<n>px".
    pub fn label(&self) -> (r: String)
        ensures
            r@ == match *self {
                TargetResolution::Res4K => "4K"@,
                TargetResolution::Res2K => "2K"@,
                TargetResolution::Res1K => "1K"@,
                TargetResolution::Res512 => "512"@,
                TargetResolution::Res256 => "256"@,
                TargetResolution::Res128 => "128"@,
                TargetResolution::Custom(d) => decimal(d as nat) + "px"@,
            },
    {
        match self {
            TargetResolution::Res4K => String::from_str("4K"),
            TargetResolution::Res2K => String::from_str("2K"),
            TargetResolution::Res1K => String::from_str("1K"),
            TargetResolution::Res512 => String::from_str("512"),
            TargetResolution::Res256 => String::from_str("256"),
            TargetResolution::Res128 => String::from_str("128"),
            TargetResolution::Custom(d) => {
                let mut s = decimal_text(*d as u128);
                s.append("px");
                s
            },
        }
    }

    /// Default LOD chain: 512, 256, 128.
    pub fn default_lod_levels() -> (r: Vec<TargetResolution>)
        ensures
            r@ == seq![TargetResolution::Res512, TargetResolution::Res256, TargetResolution::Res128],
    {
        let r = vec![TargetResolution::Res512, TargetResolution::Res256, TargetResolution::Res128];
        assert(r@ =~= seq![TargetResolution::Res512, TargetResolution::Res256, TargetResolution::Res128]);
        r
    }
}

/// Size after fitting the longest edge to `m`: unchanged when both edges fit
/// (never upscaled); otherwise the longer edge becomes `m` and the other is
/// scaled in proportion, rounded to nearest (halves up), at least 1.
pub open spec fn target_dims(w: u32, h: u32, m: u32) -> (u32, u32) {
    if w <= m && h <= m {
        (w, h)
    } else if w >= h {
        (if m >= 1 { m } else { 1 }, {
            let s = (2 * h * m + w) / (2 * w);
            if s >= 1 { s as u32 } else { 1 }
        })
    } else {
        ({
            let s = (2 * w * m + h) / (2 * h);
            if s >= 1 { s as u32 } else { 1 }
        }, if m >= 1 { m } else { 1 })
    }
}

/// Scales `other` by `m / long`, rounded to nearest, at least 1.
fn scaled_edge(other: u32, long: u32, m: u32) -> (r: u32)
    requires
        long > m,
        long >= other,
    ensures
        r == ({
            let s = (2 * other * m + long) / (2 * long);
            if s >= 1 { s as u32 } else { 1 }
        }),
        r >= 1,
{
    let prod = crate::analysis::mul32(other, m);
    let num: u128 = 2 * prod + long as u128;
    let den: u128 = 2 * (long as u128);
    let s = num / den;
    assert(num as int == 2 * other as int * m as int + long as int) by (nonlinear_arith)
        requires
            prod == other as int * m as int,
            num == 2 * prod + long,
    ;
    assert(s as int == (2 * other as int * m as int + long as int) / (2 * long as int));
    assert(s <= other) by (nonlinear_arith)
        requires
            s as int == (2 * other as int * m as int + long as int) / (2 * long as int),
            long > m,
            long >= other,
    ;
    if s >= 1 {
        s as u32
    } else {
        1
    }
}

/// New size for fitting the longest edge to `max_dim`.
pub fn compute_target_dimensions(width: u32, height: u32, max_dim: u32) -> (r: (u32, u32))
    ensures
        r == target_dims(width, height, max_dim),
        !(width <= max_dim && height <= max_dim) ==> r.0 >= 1 && r.1 >= 1,
{
    if width <= max_dim && height <= max_dim {
        return (width, height);
    }
    let m = if max_dim >= 1 { max_dim } else { 1 };
    if width >= height {
        (m, scaled_edge(height, width, max_dim))
    } else {
        (scaled_edge(width, height, max_dim), m)
    }
}

/// The texture resized for `target`: `r` has the target size of `t`, keeps
/// `t`'s path, and holds `t` unchanged when the size is unchanged, else the
/// Lanczos3 resampling of `t`.
pub open spec fn resized_from(r: TextureMap, t: TextureMap, target: TargetResolution) -> bool {
    let d = target_dims(t.width, t.height, max_dim(target));
    &&& r.width == d.0
    &&& r.height == d.1
    &&& r.path == t.path
    &&& if d == (t.width, t.height) {
        r.data@ == t.data@
    } else {
        &&& r.data@ == lanczos3(t.data@, t.width, t.height, d.0, d.1)
        &&& r.data@.len() == d.0 as int * d.1 as int * 4
    }
}

/// Resizing can be done: the buffer covers the image, and the new buffer
/// fits in memory.
pub open spec fn resizable(t: TextureMap, target: TargetResolution) -> bool {
    let d = target_dims(t.width, t.height, max_dim(target));
    d == (t.width, t.height) || (t.data@.len() >= t.width as int * t.height as int * 4
        && d.0 as int * d.1 as int * 4 <= usize::MAX)
}

/// Resizes a texture so its longest edge is at most the target (Lanczos3),
/// preserving aspect ratio; a texture that already fits comes back
/// unchanged. A buffer shorter than `width * height * 4` is refused.
pub fn resize_texture(texture: &TextureMap, target: TargetResolution) -> (r: Result<TextureMap, Error>)
    ensures
        r is Ok <==> resizable(*texture, target),
        r is Ok ==> resized_from(r->Ok_0, *texture, target),
        r is Err ==> r->Err_0 == Error::InvalidDimensions,
{
    let max_dim = target.max_dimension();
    let (nw, nh) = compute_target_dimensions(texture.width, texture.height, max_dim);
    if nw == texture.width && nh == texture.height {
        return Ok(texture.duplicate());
    }
    let need = crate::analysis::mul32(texture.width, texture.height) * 4;
    if (texture.data.len() as u128) < need {
        return Err(Error::InvalidDimensions);
    }
    let out = crate::analysis::mul32(nw, nh) * 4;
    if out > usize::MAX as u128 {
        return Err(Error::InvalidDimensions);
    }
    let data = lanczos_resize(&texture.data, texture.width, texture.height, nw, nh);
    let path = match &texture.path {
        Some(p) => Some(p.clone()),
        None => None,
    };
    Ok(TextureMap { width: nw, height: nh, data, path })
}

/// Resizing never upscales: a texture whose edges both fit the target comes
/// back with the same size and pixels; otherwise its longest edge becomes
/// the target exactly.
pub proof fn lemma_never_upscale(t: TextureMap, r: TextureMap, target: TargetResolution)
    requires
        resized_from(r, t, target),
    ensures
        t.width <= max_dim(target) && t.height <= max_dim(target) ==> r.width == t.width
            && r.height == t.height && r.data@ == t.data@,
        !(t.width <= max_dim(target) && t.height <= max_dim(target)) && max_dim(target) >= 1 ==> (
        if t.width >= t.height {
            r.width == max_dim(target)
        } else {
            r.height == max_dim(target)
        }),
{
}

fn resize_opt(t: &Option<TextureMap>, target: TargetResolution) -> (r: Result<Option<TextureMap>, Error>)
    ensures
        r is Ok <==> (t is Some ==> resizable(t->Some_0, target)),
        r is Ok ==> (r->Ok_0 is Some <==> t is Some),
        r is Ok && t is Some ==> resized_from(r->Ok_0->Some_0, t->Some_0, target),
        r is Err ==> r->Err_0 == Error::InvalidDimensions,
{
    match t {
        Some(m) => match resize_texture(m, target) {
            Ok(x) => Ok(Some(x)),
            Err(e) => Err(e),
        },
        None => Ok(None),
    }
}

/// Every present slot of `r` is the resized slot of `m`; the name is kept.
pub open spec fn set_resized_from(r: MaterialSet, m: MaterialSet, target: TargetResolution) -> bool {
    &&& forall|i: int|
        0 <= i < 6 ==> (#[trigger] r.maps()[i] is Some <==> m.maps()[i] is Some)
    &&& forall|i: int|
        0 <= i < 6 && #[trigger] m.maps()[i] is Some ==> resized_from(
            r.maps()[i]->Some_0,
            m.maps()[i]->Some_0,
            target,
        )
    &&& r.name == m.name
}

/// Every present slot can be resized.
pub open spec fn set_resizable(m: MaterialSet, target: TargetResolution) -> bool {
    forall|i: int|
        0 <= i < 6 && #[trigger] m.maps()[i] is Some ==> resizable(m.maps()[i]->Some_0, target)
}

/// Resizes every present slot of a material to the target.
pub fn resize_material_set(material: &MaterialSet, target: TargetResolution) -> (r: Result<
    MaterialSet,
    Error,
>)
    ensures
        r is Ok <==> set_resizable(*material, target),
        r is Ok ==> set_resized_from(r->Ok_0, *material, target),
{
    let albedo = resize_opt(&material.albedo, target);
    let normal = resize_opt(&material.normal, target);
    let roughness = resize_opt(&material.roughness, target);
    let metallic = resize_opt(&material.metallic, target);
    let ao = resize_opt(&material.ao, target);
    let height = resize_opt(&material.height, target);
    let ghost ok = albedo is Ok && normal is Ok && roughness is Ok && metallic is Ok && ao is Ok
        && height is Ok;
    assert(ok <==> set_resizable(*material, target)) by {
        if !ok {
            if !(albedo is Ok) {
                assert(material.maps()[0] is Some && !resizable(material.maps()[0]->Some_0, target));
            } else if !(normal is Ok) {
                assert(material.maps()[1] is Some && !resizable(material.maps()[1]->Some_0, target));
            } else if !(roughness is Ok) {
                assert(material.maps()[2] is Some && !resizable(material.maps()[2]->Some_0, target));
            } else if !(metallic is Ok) {
                assert(material.maps()[3] is Some && !resizable(material.maps()[3]->Some_0, target));
            } else if !(ao is Ok) {
                assert(material.maps()[4] is Some && !resizable(material.maps()[4]->Some_0, target));
            } else {
                assert(material.maps()[5] is Some && !resizable(material.maps()[5]->Some_0, target));
            }
        }
    }
    let (albedo, normal, roughness, metallic, ao, height) = match (
        albedo,
        normal,
        roughness,
        metallic,
        ao,
        height,
    ) {
        (Ok(a), Ok(b), Ok(c), Ok(d), Ok(e), Ok(f)) => (a, b, c, d, e, f),
        _ => return Err(Error::InvalidDimensions),
    };
    let name = match &material.name {
        Some(n) => Some(n.clone()),
        None => None,
    };
    let r = MaterialSet { albedo, normal, roughness, metallic, ao, height, name };
    assert(set_resized_from(r, *material, target));
    Ok(r)
}

/// Resizes to an exact size (Lanczos3); unchanged when the size already
/// matches.
fn resize_to_exact(texture: &TextureMap, width: u32, height: u32) -> (r: Result<TextureMap, Error>)
    requires
        width >= 1,
        height >= 1,
    ensures
        r is Ok <==> ((texture.width == width && texture.height == height) || (texture.width >= 1
            && texture.height >= 1 && texture.data@.len() >= texture.width as int
            * texture.height as int * 4 && width as int * height as int * 4 <= usize::MAX)),
        r is Ok ==> r->Ok_0.width == width && r->Ok_0.height == height,
        r is Ok ==> r->Ok_0.data@ == if texture.width == width && texture.height == height {
            texture.data@
        } else {
            lanczos3(texture.data@, texture.width, texture.height, width, height)
        },
        r is Ok && !(texture.width == width && texture.height == height) ==> r->Ok_0.data@.len()
            == width as int * height as int * 4,
{
    if texture.width == width && texture.height == height {
        return Ok(texture.duplicate());
    }
    if texture.width == 0 || texture.height == 0 {
        return Err(Error::InvalidDimensions);
    }
    let need = crate::analysis::mul32(texture.width, texture.height) * 4;
    if (texture.data.len() as u128) < need {
        return Err(Error::InvalidDimensions);
    }
    let out = crate::analysis::mul32(width, height) * 4;
    if out > usize::MAX as u128 {
        return Err(Error::InvalidDimensions);
    }
    let data = lanczos_resize(&texture.data, texture.width, texture.height, width, height);
    Ok(TextureMap { width, height, data, path: None })
}

/// Grey level of pixel `p` (its red byte), 0 outside the buffer.
pub open spec fn gray(d: Seq<u8>, p: int) -> u8 {
    if 4 * p < d.len() {
        d[4 * p]
    } else {
        0
    }
}

/// Byte `k` of a packed ORM buffer: R = ambient occlusion, G = roughness,
/// B = metallic, A = 255.
pub open spec fn orm_byte(ao: Seq<u8>, rough: Seq<u8>, metal: Seq<u8>, k: int) -> u8 {
    let p = k / 4;
    if k % 4 == 0 {
        gray(ao, p)
    } else if k % 4 == 1 {
        gray(rough, p)
    } else if k % 4 == 2 {
        gray(metal, p)
    } else {
        255
    }
}

/// A map brought to `w x h` for packing: as it is when its size matches, else
/// resampled; nothing to sample when the target is empty.
pub open spec fn fitted(t: TextureMap, w: u32, h: u32) -> Seq<u8> {
    if t.width == w && t.height == h {
        t.data@
    } else if w == 0 || h == 0 {
        Seq::empty()
    } else {
        lanczos3(t.data@, t.width, t.height, w, h)
    }
}

/// Whether a map of `tw x th` with a buffer of `len` bytes can be brought to
/// `w x h`.
pub open spec fn fits_into(tw: u32, th: u32, len: int, w: u32, h: u32) -> bool {
    (tw == w && th == h) || w == 0 || h == 0 || (tw >= 1 && th >= 1 && len >= tw as int * th as int
        * 4 && w as int * h as int * 4 <= usize::MAX)
}

/// Whether a map can be brought to `w x h`.
pub open spec fn fittable(t: TextureMap, w: u32, h: u32) -> bool {
    fits_into(t.width, t.height, t.data@.len() as int, w, h)
}

/// A resampled map has exactly `w * h` pixels.
pub open spec fn fitted_len_known(t: TextureMap, w: u32, h: u32) -> bool {
    !(t.width == w && t.height == h) ==> fitted(t, w, h).len() == w as int * h as int * 4
}

/// `p` packs roughness, metallic and AO: the roughness map's size, no path,
/// R = AO, G = roughness, B = metallic, A = 255 in every pixel, with the
/// resampled maps of the right length.
pub open spec fn packed_from(p: TextureMap, rough: TextureMap, metal: TextureMap, ao: TextureMap) -> bool {
    let w = rough.width;
    let h = rough.height;
    &&& p.width == w
    &&& p.height == h
    &&& p.path is None
    &&& p.data@.len() == w as int * h as int * 4
    &&& fitted_len_known(metal, w, h)
    &&& fitted_len_known(ao, w, h)
    &&& forall|k: int|
        0 <= k < p.data@.len() ==> #[trigger] p.data@[k] == orm_byte(
            fitted(ao, w, h),
            rough.data@,
            fitted(metal, w, h),
            k,
        )
}

/// Packing can be done: both maps can be brought to the roughness size, and
/// the packed buffer fits in memory.
pub open spec fn packable_maps(rough: TextureMap, metal: TextureMap, ao: TextureMap) -> bool {
    &&& fittable(metal, rough.width, rough.height)
    &&& fittable(ao, rough.width, rough.height)
    &&& rough.width as int * rough.height as int * 4 <= usize::MAX
}

fn fit(t: &TextureMap, w: u32, h: u32) -> (r: Result<Vec<u8>, Error>)
    ensures
        r is Ok <==> fittable(*t, w, h),
        r is Ok ==> r->Ok_0@ == fitted(*t, w, h),
        r is Ok ==> fitted_len_known(*t, w, h),
{
    if t.width == w && t.height == h {
        let d = t.duplicate();
        return Ok(d.data);
    }
    if w == 0 || h == 0 {
        return Ok(Vec::new());
    }
    match resize_to_exact(t, w, h) {
        Ok(x) => Ok(x.data),
        Err(e) => Err(e),
    }
}

fn gray_at(d: &Vec<u8>, p: usize) -> (r: u8)
    ensures
        r == gray(d@, p as int),
{
    if p < d.len() / 4 + 1 && 4 * (p as u128) < d.len() as u128 {
        d[4 * p]
    } else {
        0
    }
}

/// Packs roughness, metallic and ambient occlusion into one RGBA texture of
/// the roughness map's size: R = AO, G = roughness, B = metallic, A = 255,
/// each sampled from the red channel. Metallic and AO are resampled to that
/// size when theirs differs.
pub fn pack_rma(roughness: &TextureMap, metallic: &TextureMap, ao: &TextureMap) -> (r: Result<
    TextureMap,
    Error,
>)
    ensures
        r is Ok <==> packable_maps(*roughness, *metallic, *ao),
        r is Ok ==> packed_from(r->Ok_0, *roughness, *metallic, *ao),
        r is Err ==> r->Err_0 == Error::InvalidDimensions,
{
    let w = roughness.width;
    let h = roughness.height;
    let m = match fit(metallic, w, h) {
        Ok(x) => x,
        Err(e) => return Err(e),
    };
    let a = match fit(ao, w, h) {
        Ok(x) => x,
        Err(e) => return Err(e),
    };
    let total = crate::analysis::mul32(w, h) * 4;
    if total > usize::MAX as u128 {
        return Err(Error::InvalidDimensions);
    }
    let n = total as usize;
    let mut data: Vec<u8> = Vec::new();
    let mut k: usize = 0;
    while k < n
        invariant
            n == w as int * h as int * 4,
            k <= n,
            data@.len() == k,
            m@ == fitted(*metallic, w, h),
            a@ == fitted(*ao, w, h),
            forall|j: int|
                0 <= j < k ==> #[trigger] data@[j] == orm_byte(a@, roughness.data@, m@, j),
        decreases n - k,
    {
        let p = k / 4;
        let v = if k % 4 == 0 {
            gray_at(&a, p)
        } else if k % 4 == 1 {
            gray_at(&roughness.data, p)
        } else if k % 4 == 2 {
            gray_at(&m, p)
        } else {
            255
        };
        data.push(v);
        k += 1;
    }
    Ok(TextureMap { width: w, height: h, data, path: None })
}

/// Packs ORM from a material when roughness, metallic and AO are all
/// present; `None` otherwise.
pub fn pack_rma_from_material(material: &MaterialSet) -> (r: Result<Option<TextureMap>, Error>)
    ensures
        (material.roughness is None || material.metallic is None || material.ao is None) ==> (r
            is Ok && r->Ok_0 is None),
        (material.roughness is Some && material.metallic is Some && material.ao is Some) ==> ({
            let rough = material.roughness->Some_0;
            let w = rough.width;
            let h = rough.height;
            &&& (r is Ok <==> packable_maps(rough, material.metallic->Some_0, material.ao->Some_0))
            &&& r is Ok ==> r->Ok_0 is Some && packed_from(
                r->Ok_0->Some_0,
                rough,
                material.metallic->Some_0,
                material.ao->Some_0,
            )
        }),
        r is Err ==> r->Err_0 == Error::InvalidDimensions,
{
    let roughness = match &material.roughness {
        Some(t) => t,
        None => return Ok(None),
    };
    let metallic = match &material.metallic {
        Some(t) => t,
        None => return Ok(None),
    };
    let ao = match &material.ao {
        Some(t) => t,
        None => return Ok(None),
    };
    match pack_rma(roughness, metallic, ao) {
        Ok(t) => Ok(Some(t)),
        Err(e) => Err(e),
    }
}

// ---------------------------------------------------------------------------
// Presets.

/// Built-in export presets.
#[derive(Clone, Copy, Debug, PartialEq, Eq, Structural)]
pub enum ExportPreset {
    /// 4K base, LOD 512/256/128.
    Res4K,
    /// 2K base, LOD 512/256/128.
    UnrealEngine,
    /// 2K base, LOD 512/256/128.
    Unity,
    /// 1K base, LOD 256/128.
    MobileOptimized,
}

/// Base resolution of a preset.
pub open spec fn preset_target(p: ExportPreset) -> TargetResolution {
    match p {
        ExportPreset::Res4K => TargetResolution::Res4K,
        ExportPreset::UnrealEngine => TargetResolution::Res2K,
        ExportPreset::Unity => TargetResolution::Res2K,
        ExportPreset::MobileOptimized => TargetResolution::Res1K,
    }
}

/// Default LOD ladder of a preset.
pub open spec fn preset_lods(p: ExportPreset) -> Seq<TargetResolution> {
    match p {
        ExportPreset::MobileOptimized => seq![TargetResolution::Res256, TargetResolution::Res128],
        _ => seq![TargetResolution::Res512, TargetResolution::Res256, TargetResolution::Res128],
    }
}

impl ExportPreset {
    /// Base resolution for this preset.
    pub fn target_resolution(&self) -> (r: TargetResolution)
        ensures
            r == preset_target(*self),
    {
        match self {
            ExportPreset::Res4K => TargetResolution::Res4K,
            ExportPreset::UnrealEngine => TargetResolution::Res2K,
            ExportPreset::Unity => TargetResolution::Res2K,
            ExportPreset::MobileOptimized => TargetResolution::Res1K,
        }
    }

    /// Display name.
    pub fn label(&self) -> (r: &'static str)
        ensures
            r@ == match *self {
                ExportPreset::Res4K => "4K"@,
                ExportPreset::UnrealEngine => "Unreal Engine"@,
                ExportPreset::Unity => "Unity"@,
                ExportPreset::MobileOptimized => "Mobile Optimized"@,
            },
    {
        match self {
            ExportPreset::Res4K => "4K",
            ExportPreset::UnrealEngine => "Unreal Engine",
            ExportPreset::Unity => "Unity",
            ExportPreset::MobileOptimized => "Mobile Optimized",
        }
    }

    /// Default LOD chain: 512/256/128, or 256/128 for mobile.
    pub fn default_lod_levels(&self) -> (r: Vec<TargetResolution>)
        ensures
            r@ == preset_lods(*self),
    {
        match self {
            ExportPreset::MobileOptimized => {
                let r = vec![TargetResolution::Res256, TargetResolution::Res128];
                assert(r@ =~= preset_lods(*self));
                r
            },
            _ => TargetResolution::default_lod_levels(),
        }
    }
}

/// A platform preset with optional overrides.
#[derive(Debug)]
pub struct OptimizationPreset {
    pub preset: ExportPreset,
    /// Base resolution override.
    pub resolution: Option<TargetResolution>,
    /// Pack R = AO, G = roughness, B = metallic (always on for presets).
    pub pack_rma: bool,
    /// LOD ladder override.
    pub lod_levels: Option<Vec<TargetResolution>>,
}

fn plain_preset(p: ExportPreset) -> (r: OptimizationPreset)
    ensures
        r.preset == p,
        r.resolution is None,
        r.pack_rma,
        r.lod_levels is None,
{
    OptimizationPreset { preset: p, resolution: None, pack_rma: true, lod_levels: None }
}

fn copy_levels(levels: &[TargetResolution]) -> (r: Vec<TargetResolution>)
    ensures
        r@ == levels@,
{
    let mut v: Vec<TargetResolution> = Vec::new();
    let mut i: usize = 0;
    while i < levels.len()
        invariant
            i <= levels@.len(),
            v@ == levels@.subrange(0, i as int),
        decreases levels@.len() - i,
    {
        v.push(levels[i]);
        i += 1;
    }
    assert(v@ =~= levels@);
    v
}

impl OptimizationPreset {
    /// Unreal Engine: 2K base, packed ORM, LOD 512/256/128.
    pub fn unreal() -> (r: OptimizationPreset)
        ensures
            r.preset == ExportPreset::UnrealEngine,
            r.resolution is None,
            r.pack_rma,
            r.lod_levels is None,
    {
        plain_preset(ExportPreset::UnrealEngine)
    }

    /// Unity: 2K base, packed ORM, LOD 512/256/128.
    pub fn unity() -> (r: OptimizationPreset)
        ensures
            r.preset == ExportPreset::Unity,
            r.resolution is None,
            r.pack_rma,
            r.lod_levels is None,
    {
        plain_preset(ExportPreset::Unity)
    }

    /// Mobile: 1K base, packed ORM, LOD 256/128.
    pub fn mobile() -> (r: OptimizationPreset)
        ensures
            r.preset == ExportPreset::MobileOptimized,
            r.resolution is None,
            r.pack_rma,
            r.lod_levels is None,
    {
        plain_preset(ExportPreset::MobileOptimized)
    }

    /// 4K base, packed ORM, LOD 512/256/128.
    pub fn res_4k() -> (r: OptimizationPreset)
        ensures
            r.preset == ExportPreset::Res4K,
            r.resolution is None,
            r.pack_rma,
            r.lod_levels is None,
    {
        plain_preset(ExportPreset::Res4K)
    }

    /// This preset with its base resolution overridden.
    pub fn with_resolution(self, resolution: TargetResolution) -> (r: OptimizationPreset)
        ensures
            r.preset == self.preset,
            r.resolution == Some(resolution),
            r.pack_rma == self.pack_rma,
            r.lod_levels == self.lod_levels,
    {
        let mut p = self;
        p.resolution = Some(resolution);
        p
    }

    /// This preset with its LOD ladder overridden.
    pub fn with_lod_levels(self, levels: &[TargetResolution]) -> (r: OptimizationPreset)
        ensures
            r.preset == self.preset,
            r.resolution == self.resolution,
            r.pack_rma == self.pack_rma,
            r.lod_levels is Some && r.lod_levels->Some_0@ == levels@,
    {
        let mut p = self;
        p.lod_levels = Some(copy_levels(levels));
        p
    }

    /// The override, else the preset's base resolution.
    pub fn effective_resolution(&self) -> (r: TargetResolution)
        ensures
            r == match self.resolution {
                Some(x) => x,
                None => preset_target(self.preset),
            },
    {
        match self.resolution {
            Some(x) => x,
            None => self.preset.target_resolution(),
        }
    }

    /// The override, else the preset's LOD ladder.
    pub fn effective_lod_levels(&self) -> (r: Vec<TargetResolution>)
        ensures
            r@ == match self.lod_levels {
                Some(v) => v@,
                None => preset_lods(self.preset),
            },
    {
        match &self.lod_levels {
            Some(v) => copy_levels(v.as_slice()),
            None => self.preset.default_lod_levels(),
        }
    }
}

/// Resized versions of a material, one per level, each from the original.
pub fn generate_lod_chain(material: &MaterialSet, levels: &[TargetResolution]) -> (r: Result<
    Vec<(TargetResolution, MaterialSet)>,
    Error,
>)
    ensures
        r is Ok <==> forall|k: int| 0 <= k < levels@.len() ==> set_resizable(*material, #[trigger] levels@[k]),
        r is Ok ==> r->Ok_0@.len() == levels@.len() && forall|k: int|
            0 <= k < levels@.len() ==> (#[trigger] r->Ok_0@[k]).0 == levels@[k] && set_resized_from(
                r->Ok_0@[k].1,
                *material,
                levels@[k],
            ),
{
    let mut out: Vec<(TargetResolution, MaterialSet)> = Vec::new();
    let mut k: usize = 0;
    while k < levels.len()
        invariant
            k <= levels@.len(),
            out@.len() == k,
            forall|j: int| 0 <= j < k ==> set_resizable(*material, #[trigger] levels@[j]),
            forall|j: int|
                0 <= j < k ==> (#[trigger] out@[j]).0 == levels@[j] && set_resized_from(
                    out@[j].1,
                    *material,
                    levels@[j],
                ),
        decreases levels@.len() - k,
    {
        let level = levels[k];
        match resize_material_set(material, level) {
            Ok(m) => out.push((level, m)),
            Err(e) => return Err(e),
        }
        k += 1;
    }
    Ok(out)
}

// ---------------------------------------------------------------------------
// Export plans.

/// One file to write: its name within the directory and its pixels.
#[derive(Debug)]
pub struct ExportFile {
    pub file_name: String,
    pub texture: TextureMap,
}

/// One directory of an export: its name under the output directory and
/// its files.
#[derive(Debug)]
pub struct ExportDir {
    pub dir_name: String,
    pub files: Vec<ExportFile>,
}

/// Whether roughness, metallic and AO are all present (they go packed).
pub open spec fn packs_orm(m: MaterialSet) -> bool {
    m.roughness is Some && m.metallic is Some && m.ao is Some
}

/// The file names an export of `m` writes, in order: BaseColor, Normal,
/// then ORM (or Roughness, Metallic, AmbientOcclusion), then Height, each
/// only for slots present.
pub open spec fn file_names(m: MaterialSet) -> Seq<Seq<char>> {
    let one = |present: bool, name: Seq<char>| if present { seq![name] } else { Seq::empty() };
    one(m.albedo is Some, "BaseColor.png"@) + one(m.normal is Some, "Normal.png"@) + if packs_orm(
        m,
    ) {
        seq!["ORM.png"@]
    } else {
        one(m.roughness is Some, "Roughness.png"@) + one(m.metallic is Some, "Metallic.png"@) + one(
            m.ao is Some,
            "AmbientOcclusion.png"@,
        )
    } + one(m.height is Some, "Height.png"@)
}

/// Names of a list of files.
pub open spec fn names_of(files: Seq<ExportFile>) -> Seq<Seq<char>> {
    files.map_values(|f: ExportFile| f.file_name@)
}

/// What each file of an export of `m` holds, in file order: 0 albedo,
/// 1 normal, 2 packed ORM, 3 roughness, 4 metallic, 5 AO, 6 height.
pub open spec fn file_sources(m: MaterialSet) -> Seq<int> {
    let one = |present: bool, code: int| if present { seq![code] } else { Seq::empty() };
    one(m.albedo is Some, 0) + one(m.normal is Some, 1) + if packs_orm(m) {
        seq![2int]
    } else {
        one(m.roughness is Some, 3) + one(m.metallic is Some, 4) + one(m.ao is Some, 5)
    } + one(m.height is Some, 6)
}

/// The texture of slot `t`, copied unchanged into `f`.
pub open spec fn copied(f: TextureMap, t: Option<TextureMap>) -> bool {
    t is Some && f.same_as(&t->Some_0)
}

/// File texture `f` holds what source `code` of `m` says.
pub open spec fn holds_source(f: TextureMap, m: MaterialSet, code: int) -> bool {
    if code == 0 {
        copied(f, m.albedo)
    } else if code == 1 {
        copied(f, m.normal)
    } else if code == 2 {
        packs_orm(m) && packed_from(f, m.roughness->Some_0, m.metallic->Some_0, m.ao->Some_0)
    } else if code == 3 {
        copied(f, m.roughness)
    } else if code == 4 {
        copied(f, m.metallic)
    } else if code == 5 {
        copied(f, m.ao)
    } else {
        copied(f, m.height)
    }
}

/// The first files hold their sources in order.
pub open spec fn files_hold(files: Seq<ExportFile>, m: MaterialSet, codes: Seq<int>) -> bool {
    &&& files.len() == codes.len()
    &&& forall|k: int| 0 <= k < files.len() ==> holds_source(#[trigger] files[k].texture, m, codes[k])
}

/// `files` is the export of `m`: the right names, each holding the slot it
/// is named after (or the packed ORM texture).
pub open spec fn files_match(files: Seq<ExportFile>, m: MaterialSet) -> bool {
    &&& names_of(files) == file_names(m)
    &&& files_hold(files, m, file_sources(m))
}

fn push_file(
    files: &mut Vec<ExportFile>,
    name: &str,
    texture: TextureMap,
    m: Ghost<MaterialSet>,
    codes: Ghost<Seq<int>>,
    code: Ghost<int>,
)
    requires
        files_hold(old(files)@, m@, codes@),
        holds_source(texture, m@, code@),
    ensures
        names_of(final(files)@) == names_of(old(files)@).push(name@),
        files_hold(final(files)@, m@, codes@.push(code@)),
{
    let ghost before = files@;
    files.push(ExportFile { file_name: String::from_str(name), texture });
    assert(names_of(files@) =~= names_of(before).push(name@));
}

fn push_opt(
    files: &mut Vec<ExportFile>,
    name: &str,
    t: &Option<TextureMap>,
    m: Ghost<MaterialSet>,
    codes: Ghost<Seq<int>>,
    code: Ghost<int>,
)
    requires
        files_hold(old(files)@, m@, codes@),
        code@ != 2,
        t is Some ==> forall|x: TextureMap| x.same_as(&t->Some_0) ==> holds_source(x, m@, code@),
    ensures
        names_of(final(files)@) == names_of(old(files)@) + if t is Some {
            seq![name@]
        } else {
            Seq::empty()
        },
        files_hold(final(files)@, m@, codes@ + if t is Some { seq![code@] } else { Seq::empty() }),
{
    match t {
        Some(x) => {
            let copy = x.duplicate();
            push_file(files, name, copy, m, codes, code);
            assert(codes@.push(code@) =~= codes@ + seq![code@]);
        },
        None => {
            assert(names_of(files@) =~= names_of(files@) + Seq::<Seq<char>>::empty());
            assert(codes@ =~= codes@ + Seq::<int>::empty());
        },
    }
}

/// The files an export of one material writes into one directory:
/// `BaseColor.png` holds the albedo, `Normal.png` the normal map, `ORM.png`
/// the packed roughness/metallic/AO (else each of those in its own file),
/// `Height.png` the height map; only slots present get a file.
#[verifier::rlimit(100)]
pub fn material_files(material: &MaterialSet) -> (r: Result<Vec<ExportFile>, Error>)
    ensures
        r is Ok ==> files_match(r->Ok_0@, *material),
        r is Ok <==> (!packs_orm(*material) || packable_maps(
            material.roughness->Some_0,
            material.metallic->Some_0,
            material.ao->Some_0,
        )),
        r is Err ==> r->Err_0 == Error::InvalidDimensions,
{
    let ghost m = *material;
    let mut files: Vec<ExportFile> = Vec::new();
    let ghost c0: Seq<int> = Seq::empty();
    push_opt(&mut files, "BaseColor.png", &material.albedo, Ghost(m), Ghost(c0), Ghost(0));
    let ghost c1 = c0 + if m.albedo is Some { seq![0int] } else { Seq::empty() };
    push_opt(&mut files, "Normal.png", &material.normal, Ghost(m), Ghost(c1), Ghost(1));
    let ghost c2 = c1 + if m.normal is Some { seq![1int] } else { Seq::empty() };
    let packed = match pack_rma_from_material(material) {
        Ok(p) => p,
        Err(e) => return Err(e),
    };
    let ghost mut c3: Seq<int> = c2;
    match packed {
        Some(orm) => {
            push_file(&mut files, "ORM.png", orm, Ghost(m), Ghost(c2), Ghost(2));
            proof {
                c3 = c2.push(2);
            }
        },
        None => {
            push_opt(&mut files, "Roughness.png", &material.roughness, Ghost(m), Ghost(c2), Ghost(3));
            let ghost d1 = c2 + if m.roughness is Some { seq![3int] } else { Seq::empty() };
            push_opt(&mut files, "Metallic.png", &material.metallic, Ghost(m), Ghost(d1), Ghost(4));
            let ghost d2 = d1 + if m.metallic is Some { seq![4int] } else { Seq::empty() };
            push_opt(&mut files, "AmbientOcclusion.png", &material.ao, Ghost(m), Ghost(d2), Ghost(5));
            proof {
                c3 = d2 + if m.ao is Some { seq![5int] } else { Seq::empty() };
            }
        },
    }
    push_opt(&mut files, "Height.png", &material.height, Ghost(m), Ghost(c3), Ghost(6));
    assert(names_of(files@) =~= file_names(*material));
    assert(c3 + (if m.height is Some { seq![6int] } else { Seq::empty() }) =~= file_sources(m));
    Ok(files)
}

/// "LOD<k>".
pub open spec fn lod_dir_name(k: nat) -> Seq<char> {
    "LOD"@ + decimal(k)
}

fn lod_name(k: usize) -> (r: String)
    ensures
        r@ == lod_dir_name(k as nat),
{
    let mut s = String::from_str("LOD");
    let d = decimal_text(k as u128);
    s.append(d.as_str());
    s
}

proof fn lemma_same_presence_same_names(a: MaterialSet, b: MaterialSet, t: TargetResolution)
    requires
        set_resized_from(a, b, t),
    ensures
        file_names(a) == file_names(b),
        packs_orm(a) == packs_orm(b),
{
    assert(a.maps()[0] is Some <==> b.maps()[0] is Some);
    assert(a.maps()[1] is Some <==> b.maps()[1] is Some);
    assert(a.maps()[2] is Some <==> b.maps()[2] is Some);
    assert(a.maps()[3] is Some <==> b.maps()[3] is Some);
    assert(a.maps()[4] is Some <==> b.maps()[4] is Some);
    assert(a.maps()[5] is Some <==> b.maps()[5] is Some);
}

/// Size of a texture resized for `target`.
pub open spec fn resized_dims(t: TextureMap, target: TargetResolution) -> (u32, u32) {
    target_dims(t.width, t.height, max_dim(target))
}

/// Buffer length of a texture resized for `target`.
pub open spec fn resized_len(t: TextureMap, target: TargetResolution) -> int {
    let d = resized_dims(t, target);
    if d == (t.width, t.height) {
        t.data@.len() as int
    } else {
        d.0 as int * d.1 as int * 4
    }
}

/// After resizing for `target`, roughness, metallic and AO (when all three
/// are present) can be packed.
pub open spec fn packable_after(m: MaterialSet, target: TargetResolution) -> bool {
    packs_orm(m) ==> {
        let rd = resized_dims(m.roughness->Some_0, target);
        let md = resized_dims(m.metallic->Some_0, target);
        let ad = resized_dims(m.ao->Some_0, target);
        &&& fits_into(md.0, md.1, resized_len(m.metallic->Some_0, target), rd.0, rd.1)
        &&& fits_into(ad.0, ad.1, resized_len(m.ao->Some_0, target), rd.0, rd.1)
        &&& rd.0 as int * rd.1 as int * 4 <= usize::MAX
    }
}

/// The export of `m` at `target` can be made: every slot can be resized,
/// and the resized maps can be packed.
pub open spec fn plan_ok(m: MaterialSet, target: TargetResolution) -> bool {
    set_resizable(m, target) && packable_after(m, target)
}

/// `files` is the export of `m` resized for `target`, resized from `m`
/// itself.
pub open spec fn plan_holds(files: Seq<ExportFile>, m: MaterialSet, target: TargetResolution) -> bool {
    exists|r: MaterialSet| #[trigger] set_resized_from(r, m, target) && files_match(files, r)
}

proof fn lemma_packable_after(r: MaterialSet, m: MaterialSet, t: TargetResolution)
    requires
        set_resized_from(r, m, t),
    ensures
        (!packs_orm(r) || packable_maps(r.roughness->Some_0, r.metallic->Some_0, r.ao->Some_0))
            == packable_after(m, t),
{
    lemma_same_presence_same_names(r, m, t);
    if packs_orm(m) {
        assert(m.maps()[2] is Some && m.maps()[3] is Some && m.maps()[4] is Some);
        assert(resized_from(r.maps()[2]->Some_0, m.maps()[2]->Some_0, t));
        assert(resized_from(r.maps()[3]->Some_0, m.maps()[3]->Some_0, t));
        assert(resized_from(r.maps()[4]->Some_0, m.maps()[4]->Some_0, t));
    }
}

/// Resolution of directory `k` of a LOD export: the base, then the levels.
pub open spec fn level_at(base: TargetResolution, levels: Seq<TargetResolution>, k: int) -> TargetResolution {
    if k == 0 {
        base
    } else {
        levels[k - 1]
    }
}

/// Every directory of a LOD export of `m` can be made.
pub open spec fn lod_ok(m: MaterialSet, base: TargetResolution, levels: Seq<TargetResolution>) -> bool {
    forall|k: int| 0 <= k <= levels.len() ==> #[trigger] plan_ok(m, level_at(base, levels, k))
}

/// `dirs` is the LOD export of `m`: `LOD0` at the base resolution, then one
/// directory per level, each the export of `m` resized for its resolution.
pub open spec fn lod_dirs_match(
    dirs: Seq<ExportDir>,
    m: MaterialSet,
    base: TargetResolution,
    levels: Seq<TargetResolution>,
) -> bool {
    &&& dirs.len() == levels.len() + 1
    &&& forall|k: int|
        0 <= k < dirs.len() ==> {
            &&& (#[trigger] dirs[k]).dir_name@ == lod_dir_name(k as nat)
            &&& names_of(dirs[k].files@) == file_names(m)
            &&& plan_holds(dirs[k].files@, m, level_at(base, levels, k))
        }
}

/// The export of `m` resized for `target`, with its files' names.
fn plan_files(material: &MaterialSet, target: TargetResolution) -> (r: Result<Vec<ExportFile>, Error>)
    ensures
        r is Ok <==> plan_ok(*material, target),
        r is Ok ==> plan_holds(r->Ok_0@, *material, target),
        r is Ok ==> names_of(r->Ok_0@) == file_names(*material),
        r is Err ==> r->Err_0 == Error::InvalidDimensions,
{
    let resized = match resize_material_set(material, target) {
        Ok(m) => m,
        Err(e) => return Err(e),
    };
    proof {
        lemma_same_presence_same_names(resized, *material, target);
        lemma_packable_after(resized, *material, target);
    }
    let files = match material_files(&resized) {
        Ok(f) => f,
        Err(e) => return Err(e),
    };
    assert(set_resized_from(resized, *material, target) && files_match(files@, resized));
    Ok(files)
}

/// The LOD export of a material: `LOD0` at the base resolution, then
/// `LOD1`, `LOD2`, ... one per level, each resized from the original
/// material. Every directory holds one file per present slot, with
/// roughness, metallic and AO packed into `ORM.png` when all three are
/// present. It can be made exactly when every directory can.
pub fn lod_export_plan(material: &MaterialSet, base: TargetResolution, lod_levels: &[TargetResolution]) -> (r:
    Result<Vec<ExportDir>, Error>)
    ensures
        r is Ok <==> lod_ok(*material, base, lod_levels@),
        r is Ok ==> lod_dirs_match(r->Ok_0@, *material, base, lod_levels@),
        r is Err ==> r->Err_0 == Error::InvalidDimensions,
{
    let mut dirs: Vec<ExportDir> = Vec::new();
    let n = lod_levels.len();
    let mut k: usize = 0;
    while k <= n
        invariant_except_break
            dirs@.len() == k,
        invariant
            n == lod_levels@.len(),
            k <= n,
            forall|j: int|
                0 <= j < dirs@.len() ==> {
                    &&& (#[trigger] dirs@[j]).dir_name@ == lod_dir_name(j as nat)
                    &&& names_of(dirs@[j].files@) == file_names(*material)
                    &&& plan_holds(dirs@[j].files@, *material, level_at(base, lod_levels@, j))
                    &&& plan_ok(*material, level_at(base, lod_levels@, j))
                },
        ensures
            dirs@.len() == n + 1,
            forall|j: int|
                0 <= j < dirs@.len() ==> {
                    &&& (#[trigger] dirs@[j]).dir_name@ == lod_dir_name(j as nat)
                    &&& names_of(dirs@[j].files@) == file_names(*material)
                    &&& plan_holds(dirs@[j].files@, *material, level_at(base, lod_levels@, j))
                    &&& plan_ok(*material, level_at(base, lod_levels@, j))
                },
        decreases n - k,
    {
        let level = if k == 0 { base } else { lod_levels[k - 1] };
        assert(level == level_at(base, lod_levels@, k as int));
        let files = match plan_files(material, level) {
            Ok(f) => f,
            Err(e) => {
                assert(!plan_ok(*material, level_at(base, lod_levels@, k as int)));
                return Err(e);
            },
        };
        dirs.push(ExportDir { dir_name: lod_name(k), files });
        if k == n {
            break;
        }
        k += 1;
    }
    assert(lod_ok(*material, base, lod_levels@)) by {
        assert forall|j: int| 0 <= j <= lod_levels@.len() implies #[trigger] plan_ok(
            *material,
            level_at(base, lod_levels@, j),
        ) by {
            assert(dirs@[j].dir_name@ == lod_dir_name(j as nat));
        }
    }
    Ok(dirs)
}

/// The export of a material resized to one target, into one directory. It
/// can be made exactly when every slot can be resized and the resized maps
/// packed.
pub fn export_plan(material: &MaterialSet, target: TargetResolution) -> (r: Result<
    Vec<ExportFile>,
    Error,
>)
    ensures
        r is Ok <==> plan_ok(*material, target),
        r is Ok ==> plan_holds(r->Ok_0@, *material, target),
        r is Ok ==> names_of(r->Ok_0@) == file_names(*material),
        r is Err ==> r->Err_0 == Error::InvalidDimensions,
{
    plan_files(material, target)
}

/// An export writes one file per present slot, except that roughness,
/// metallic and AO share `ORM.png` when all three are present.
pub proof fn lemma_one_file_per_slot(m: MaterialSet)
    ensures
        file_names(m).len() + (if packs_orm(m) { 2int } else { 0int }) == m.spec_texture_count(),
        file_names(m).contains("ORM.png"@) <==> packs_orm(m),
{
    reveal_with_fuel(crate::material::count_present, 7);
    let s = m.maps();
    assert(s.drop_last() =~= s.subrange(0, 5));
    assert(s.drop_last().drop_last() =~= s.subrange(0, 4));
    assert(s.drop_last().drop_last().drop_last() =~= s.subrange(0, 3));
    assert(s.drop_last().drop_last().drop_last().drop_last() =~= s.subrange(0, 2));
    assert(s.drop_last().drop_last().drop_last().drop_last().drop_last() =~= s.subrange(0, 1));
    reveal_strlit("ORM.png");
    reveal_strlit("BaseColor.png");
    reveal_strlit("Normal.png");
    reveal_strlit("Roughness.png");
    reveal_strlit("Metallic.png");
    reveal_strlit("AmbientOcclusion.png");
    reveal_strlit("Height.png");
    let names = file_names(m);
    if packs_orm(m) {
        let k = if m.albedo is Some { 1int } else { 0int } + if m.normal is Some { 1int } else { 0int };
        assert(names[k] == "ORM.png"@);
    } else {
        assert forall|i: int| 0 <= i < names.len() implies names[i] != "ORM.png"@ by {
            assert(names[i].len() > 0);
            if names[i] == "ORM.png"@ {
                assert(names[i][0] == 'O');
            }
        }
    }
}

/// Output directory name of a material in a batch: its name, else its
/// folder's last component, else "material".
pub open spec fn batch_dir_name(m: (String, MaterialSet)) -> Seq<char> {
    match crate::analysis::material_label(m) {
        Some(n) => n,
        None => "material"@,
    }
}

/// One material's part of a batch export.
#[derive(Debug)]
pub struct MaterialExport {
    /// Directory under the output root.
    pub dir_name: String,
    /// Directories under it (`LOD0`, `LOD1`, ... with LOD; one unnamed
    /// directory, the material directory itself, without).
    pub dirs: Vec<ExportDir>,
}

/// Base resolution of a preset, with its override.
pub open spec fn effective_res(p: OptimizationPreset) -> TargetResolution {
    match p.resolution {
        Some(x) => x,
        None => preset_target(p.preset),
    }
}

/// LOD ladder of a preset, with its override.
pub open spec fn effective_lods(p: OptimizationPreset) -> Seq<TargetResolution> {
    match p.lod_levels {
        Some(v) => v@,
        None => preset_lods(p.preset),
    }
}

/// The export of one material of a batch can be made.
pub open spec fn batch_item_ok(m: MaterialSet, p: OptimizationPreset, include_lod: bool) -> bool {
    if include_lod {
        lod_ok(m, effective_res(p), effective_lods(p))
    } else {
        plan_ok(m, effective_res(p))
    }
}

/// `e` is the export of material `m` of a batch: its directory name, and
/// its LOD directories, or one unnamed directory holding its export at the
/// preset's base resolution.
pub open spec fn batch_item_matches(
    e: MaterialExport,
    m: (String, MaterialSet),
    p: OptimizationPreset,
    include_lod: bool,
) -> bool {
    &&& e.dir_name@ == batch_dir_name(m)
    &&& if include_lod {
        lod_dirs_match(e.dirs@, m.1, effective_res(p), effective_lods(p))
    } else {
        &&& e.dirs@.len() == 1
        &&& e.dirs@[0].dir_name@ == Seq::<char>::empty()
        &&& names_of(e.dirs@[0].files@) == file_names(m.1)
        &&& plan_holds(e.dirs@[0].files@, m.1, effective_res(p))
    }
}

/// The export of every material of a batch with one preset, in order. It
/// can be made exactly when every material's export can; otherwise the
/// batch fails.
pub fn batch_export_plan(
    materials: &Vec<(String, MaterialSet)>,
    preset: &OptimizationPreset,
    include_lod: bool,
) -> (r: Result<Vec<MaterialExport>, Error>)
    ensures
        r is Ok <==> forall|k: int|
            0 <= k < materials@.len() ==> batch_item_ok(#[trigger] materials@[k].1, *preset, include_lod),
        r is Ok ==> r->Ok_0@.len() == materials@.len(),
        r is Ok ==> forall|k: int|
            0 <= k < materials@.len() ==> batch_item_matches(
                #[trigger] r->Ok_0@[k],
                materials@[k],
                *preset,
                include_lod,
            ),
        r is Err ==> r->Err_0 == Error::InvalidDimensions,
{
    let base = preset.effective_resolution();
    let levels = preset.effective_lod_levels();
    let mut out: Vec<MaterialExport> = Vec::new();
    let mut k: usize = 0;
    while k < materials.len()
        invariant
            k <= materials@.len(),
            out@.len() == k,
            base == effective_res(*preset),
            levels@ == effective_lods(*preset),
            forall|i: int| 0 <= i < k ==> batch_item_ok(#[trigger] materials@[i].1, *preset, include_lod),
            forall|i: int|
                0 <= i < k ==> batch_item_matches(#[trigger] out@[i], materials@[i], *preset, include_lod),
        decreases materials@.len() - k,
    {
        let m = &materials[k];
        let dir_name = match crate::analysis::label_of(m) {
            Some(n) => n,
            None => String::from_str("material"),
        };
        let dirs = if include_lod {
            match lod_export_plan(&m.1, base, levels.as_slice()) {
                Ok(d) => d,
                Err(e) => {
                    assert(!batch_item_ok(materials@[k as int].1, *preset, include_lod));
                    return Err(e);
                },
            }
        } else {
            let files = match export_plan(&m.1, base) {
                Ok(f) => f,
                Err(e) => {
                    assert(!batch_item_ok(materials@[k as int].1, *preset, include_lod));
                    return Err(e);
                },
            };
            let mut d: Vec<ExportDir> = Vec::new();
            d.push(ExportDir { dir_name: String::new(), files });
            d
        };
        let item = MaterialExport { dir_name, dirs };
        assert(batch_item_matches(item, materials@[k as int], *preset, include_lod));
        out.push(item);
        k += 1;
    }
    Ok(out)
}

} // verus!
