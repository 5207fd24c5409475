//! VRAM estimates for a material, assuming uncompressed RGBA8 textures.
use vstd::prelude::*;
use vstd::string::*;
use crate::material::{MaterialSet, TextureMap};
use crate::text::{tenths, tenths_text, decimal, decimal_text};

verus! {

/// Bytes of one texture: `width * height * 4`, times 4/3 (rounded) with a
/// mipmap chain.
pub open spec fn texture_bytes(w: u32, h: u32, mips: bool) -> int {
    let base = w as int * h as int * 4;
    if mips {
        (4 * base + 1) / 3
    } else {
        base
    }
}

/// Estimated bytes of one texture.
pub fn estimate_texture_bytes(width: u32, height: u32, include_mipmaps: bool) -> (r: u128)
    ensures
        r == texture_bytes(width, height, include_mipmaps),
        r <= 0x6_0000_0000_0000_0000,
{
    let base = crate::analysis::mul32(width, height) * 4;
    if include_mipmaps {
        (4 * base + 1) / 3
    } else {
        base
    }
}

/// One texture's share of an estimate.
#[derive(Debug)]
pub struct TextureVramEntry {
    pub slot: String,
    pub width: u32,
    pub height: u32,
    pub bytes: u128,
}

/// Estimated memory of a material.
#[derive(Debug)]
pub struct VramEstimate {
    pub bytes: u128,
    /// Human-readable size, e.g. "4.0 MB".
    pub formatted: String,
    pub include_mipmaps: bool,
    pub packed_orm: bool,
    pub textures: Vec<TextureVramEntry>,
}

/// The (slot name, texture) pairs an estimate counts, in order: albedo,
/// normal, then one "orm" entry (roughness's size) when packing applies, else
/// roughness, metallic and ao; then height.
pub open spec fn counted(m: MaterialSet, packed_orm: bool) -> Seq<(Seq<char>, TextureMap)> {
    one(m.albedo, "albedo"@) + one(m.normal, "normal"@) + if packed_orm && m.roughness is Some
        && m.metallic is Some && m.ao is Some {
        seq![("orm"@, m.roughness->Some_0)]
    } else {
        one(m.roughness, "roughness"@) + one(m.metallic, "metallic"@) + one(m.ao, "ao"@)
    } + one(m.height, "height"@)
}

/// A present texture under a name, or nothing.
pub open spec fn one(t: Option<TextureMap>, name: Seq<char>) -> Seq<(Seq<char>, TextureMap)> {
    match t {
        Some(x) => seq![(name, x)],
        None => Seq::empty(),
    }
}

/// The entries describe the counted textures one for one.
pub open spec fn entries_match(
    v: Seq<TextureVramEntry>,
    c: Seq<(Seq<char>, TextureMap)>,
    mips: bool,
) -> bool {
    &&& v.len() == c.len()
    &&& forall|k: int|
        0 <= k < c.len() ==> {
            let e = #[trigger] v[k];
            &&& e.slot@ == c[k].0
            &&& e.width == c[k].1.width
            &&& e.height == c[k].1.height
            &&& e.bytes == texture_bytes(c[k].1.width, c[k].1.height, mips)
        }
}

/// Sum of the bytes of the first `k` counted textures.
pub open spec fn counted_bytes(c: Seq<(Seq<char>, TextureMap)>, mips: bool, k: int) -> int
    decreases k,
{
    if k <= 0 {
        0
    } else {
        counted_bytes(c, mips, k - 1) + texture_bytes(c[k - 1].1.width, c[k - 1].1.height, mips)
    }
}

/// "N B" below 1 KiB, else the size in KB, MB or GB (powers of 1024) with
/// one decimal.
pub open spec fn size_text(b: nat) -> Seq<char> {
    if b >= 1024 * 1024 * 1024 {
        tenths(b, 1024 * 1024 * 1024) + " GB"@
    } else if b >= 1024 * 1024 {
        tenths(b, 1024 * 1024) + " MB"@
    } else if b >= 1024 {
        tenths(b, 1024) + " KB"@
    } else {
        decimal(b) + " B"@
    }
}

/// Human-readable size.
pub fn format_bytes(bytes: u128) -> (r: String)
    requires
        bytes <= 0xf_ffff_ffff_ffff_ffff_ffff_ffff,
    ensures
        r@ == size_text(bytes as nat),
{
    let mut s = if bytes >= 1024 * 1024 * 1024 {
        tenths_text(bytes, 1024 * 1024 * 1024)
    } else if bytes >= 1024 * 1024 {
        tenths_text(bytes, 1024 * 1024)
    } else if bytes >= 1024 {
        tenths_text(bytes, 1024)
    } else {
        decimal_text(bytes)
    };
    if bytes >= 1024 * 1024 * 1024 {
        s.append(" GB");
    } else if bytes >= 1024 * 1024 {
        s.append(" MB");
    } else if bytes >= 1024 {
        s.append(" KB");
    } else {
        s.append(" B");
    }
    s
}

proof fn lemma_counted_prefix(
    a: Seq<(Seq<char>, TextureMap)>,
    b: Seq<(Seq<char>, TextureMap)>,
    mips: bool,
    k: int,
)
    requires
        0 <= k <= a.len(),
        k <= b.len(),
        forall|i: int| 0 <= i < k ==> a[i] == b[i],
    ensures
        counted_bytes(a, mips, k) == counted_bytes(b, mips, k),
    decreases k,
{
    if k > 0 {
        lemma_counted_prefix(a, b, mips, k - 1);
    }
}

fn add_texture(
    textures: &mut Vec<TextureVramEntry>,
    total: &mut u128,
    slot: &str,
    opt: &Option<TextureMap>,
    include_mipmaps: bool,
    acc: Ghost<Seq<(Seq<char>, TextureMap)>>,
)
    requires
        entries_match(old(textures)@, acc@, include_mipmaps),
        *old(total) == counted_bytes(acc@, include_mipmaps, acc@.len() as int),
        *old(total) <= 5 * 0x6_0000_0000_0000_0000,
    ensures
        entries_match(final(textures)@, acc@ + one(*opt, slot@), include_mipmaps),
        *final(total) == counted_bytes(
            acc@ + one(*opt, slot@),
            include_mipmaps,
            (acc@ + one(*opt, slot@)).len() as int,
        ),
        *final(total) <= *old(total) + 0x6_0000_0000_0000_0000,
{
    let ghost c = acc@ + one(*opt, slot@);
    if let Some(t) = opt {
        let bytes = estimate_texture_bytes(t.width, t.height, include_mipmaps);
        *total = *total + bytes;
        textures.push(
            TextureVramEntry { slot: String::from_str(slot), width: t.width, height: t.height, bytes },
        );
        assert(c.drop_last() =~= acc@);
        proof {
            lemma_counted_prefix(c, acc@, include_mipmaps, acc@.len() as int);
        }
        assert(entries_match(textures@, c, include_mipmaps));
    } else {
        assert(c =~= acc@);
    }
}

/// Estimated VRAM of a material: the sum over the counted textures, with
/// roughness, metallic and AO counted once (at roughness's size) when
/// `packed_orm` is set and all three are present.
pub fn estimate_vram(material: &MaterialSet, include_mipmaps: bool, packed_orm: bool) -> (r:
    VramEstimate)
    ensures
        ({
            let c = counted(*material, packed_orm);
            &&& entries_match(r.textures@, c, include_mipmaps)
            &&& r.bytes == counted_bytes(c, include_mipmaps, c.len() as int)
            &&& r.formatted@ == size_text(r.bytes as nat)
        }),
        r.include_mipmaps == include_mipmaps,
        r.packed_orm == packed_orm,
{
    let mut textures: Vec<TextureVramEntry> = Vec::new();
    let mut total: u128 = 0;
    let ghost e: Seq<(Seq<char>, TextureMap)> = Seq::empty();
    add_texture(&mut textures, &mut total, "albedo", &material.albedo, include_mipmaps, Ghost(e));
    let ghost a1 = e + one(material.albedo, "albedo"@);
    add_texture(&mut textures, &mut total, "normal", &material.normal, include_mipmaps, Ghost(a1));
    let ghost a2 = a1 + one(material.normal, "normal"@);
    let pack = packed_orm && material.roughness.is_some() && material.metallic.is_some()
        && material.ao.is_some();
    let ghost a3;
    if pack {
        add_texture(&mut textures, &mut total, "orm", &material.roughness, include_mipmaps, Ghost(a2));
        proof {
            a3 = a2 + one(material.roughness, "orm"@);
        }
    } else {
        add_texture(&mut textures, &mut total, "roughness", &material.roughness, include_mipmaps, Ghost(a2));
        let ghost b1 = a2 + one(material.roughness, "roughness"@);
        add_texture(&mut textures, &mut total, "metallic", &material.metallic, include_mipmaps, Ghost(b1));
        let ghost b2 = b1 + one(material.metallic, "metallic"@);
        add_texture(&mut textures, &mut total, "ao", &material.ao, include_mipmaps, Ghost(b2));
        proof {
            a3 = b2 + one(material.ao, "ao"@);
        }
    }
    add_texture(&mut textures, &mut total, "height", &material.height, include_mipmaps, Ghost(a3));
    let ghost c = counted(*material, packed_orm);
    assert(entries_match(textures@, c, include_mipmaps) && total == counted_bytes(c, include_mipmaps, c.len() as int)) by {
        let a4 = a3 + one(material.height, "height"@);
        if pack {
            assert(a4 =~= c);
        } else {
            assert(a4 =~= c);
        }
    }
    let formatted = format_bytes(total);
    VramEstimate { bytes: total, formatted, include_mipmaps, packed_orm, textures }
}

} // verus!
