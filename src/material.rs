//! Decoded textures and the material model: six optional texture slots.
use vstd::prelude::*;

verus! {

/// Standard PBR texture slot identifiers.
#[derive(Clone, Copy, Debug, PartialEq, Eq, Hash, Structural)]
pub enum TextureSlot {
    Albedo,
    Normal,
    Metallic,
    Roughness,
    AmbientOcclusion,
    Emissive,
    Height,
}

/// A decoded texture: row-major RGBA8 pixels.
///
/// A well-formed texture holds exactly `width * height * 4` bytes; this is
/// advisory, functions that depend on it say so.
#[derive(Clone, Debug)]
pub struct TextureMap {
    pub width: u32,
    pub height: u32,
    pub data: Vec<u8>,
    /// Source path, when loaded from a file.
    pub path: Option<String>,
}

impl TextureMap {
    /// The buffer holds exactly one RGBA pixel per position.
    pub open spec fn wf(&self) -> bool {
        self.data@.len() == self.width as int * self.height as int * 4
    }

    /// Two textures hold the same size, pixels and path.
    pub open spec fn same_as(&self, o: &TextureMap) -> bool {
        &&& self.width == o.width
        &&& self.height == o.height
        &&& self.data@ == o.data@
        &&& self.path == o.path
    }

    /// Byte index of channel `c` of the pixel at (x, y).
    pub open spec fn index_of(&self, x: int, y: int, c: int) -> int {
        (y * self.width + x) * 4 + c
    }

    /// An independent copy of this texture.
    pub fn duplicate(&self) -> (r: TextureMap)
        ensures
            r.same_as(self),
    {
        let mut data: Vec<u8> = Vec::new();
        let mut i: usize = 0;
        while i < self.data.len()
            invariant
                i <= self.data@.len(),
                data@ == self.data@.subrange(0, i as int),
            decreases self.data@.len() - i,
        {
            data.push(self.data[i]);
            i += 1;
        }
        assert(data@ == self.data@);
        let path = match &self.path {
            Some(p) => Some(p.clone()),
            None => None,
        };
        TextureMap { width: self.width, height: self.height, data, path }
    }

    /// Pixel at (x, y) as [R, G, B, A]; `None` outside the image or the buffer.
    pub fn pixel(&self, x: u32, y: u32) -> (r: Option<[u8; 4]>)
        ensures
            r.is_some() <==> (x < self.width && y < self.height && self.index_of(
                x as int,
                y as int,
                4,
            ) <= self.data@.len()),
            r.is_some() ==> forall|c: int|
                0 <= c < 4 ==> r.unwrap()[c] == self.data@[self.index_of(x as int, y as int, c)],
    {
        if x >= self.width || y >= self.height {
            return None;
        }
        assert(y as u64 * self.width as u64 <= 0xffff_ffffu64 * 0xffff_ffffu64) by (nonlinear_arith)
            requires
                y as u64 <= 0xffff_ffffu64,
                self.width as u64 <= 0xffff_ffffu64,
        ;
        let p: u64 = y as u64 * self.width as u64 + x as u64;
        assert(p * 4 == self.index_of(x as int, y as int, 0)) by (nonlinear_arith)
            requires
                p == y as u64 * self.width as u64 + x as u64,
        ;
        if p >= (self.data.len() / 4) as u64 {
            return None;
        }
        let i = p * 4;
        let i = i as usize;
        let r = [self.data[i], self.data[i + 1], self.data[i + 2], self.data[i + 3]];
        Some(r)
    }
}

/// A material: up to six optional texture maps and an optional display name.
///
/// "Dimensions consistent" is reported, not enforced.
#[derive(Clone, Debug)]
pub struct MaterialSet {
    pub albedo: Option<TextureMap>,
    pub normal: Option<TextureMap>,
    pub roughness: Option<TextureMap>,
    pub metallic: Option<TextureMap>,
    pub ao: Option<TextureMap>,
    pub height: Option<TextureMap>,
    pub name: Option<String>,
}

/// Number of present entries.
pub open spec fn count_present(s: Seq<Option<TextureMap>>) -> nat
    decreases s.len(),
{
    if s.len() == 0 {
        0
    } else {
        count_present(s.drop_last()) + if s.last().is_some() { 1nat } else { 0nat }
    }
}

/// Size of the first present entry.
pub open spec fn first_dims(s: Seq<Option<TextureMap>>) -> Option<(u32, u32)>
    decreases s.len(),
{
    if s.len() == 0 {
        None
    } else if s[0].is_some() {
        Some((s[0].unwrap().width, s[0].unwrap().height))
    } else {
        first_dims(s.drop_first())
    }
}

/// Whether a present texture has the given size (an absent one always fits).
pub open spec fn fits(t: Option<TextureMap>, w: u32, h: u32) -> bool {
    t.is_some() ==> (t.unwrap().width == w && t.unwrap().height == h)
}

/// Whether two optional textures agree: both absent, or both the same texture.
pub open spec fn same_opt(a: Option<TextureMap>, b: Option<TextureMap>) -> bool {
    &&& a.is_some() == b.is_some()
    &&& a.is_some() ==> a.unwrap().same_as(&b.unwrap())
}

fn dims_fit(t: &Option<TextureMap>, w: u32, h: u32) -> (r: bool)
    ensures
        r == fits(*t, w, h),
{
    match t {
        Some(m) => m.width == w && m.height == h,
        None => true,
    }
}

fn duplicate_opt(t: &Option<TextureMap>) -> (r: Option<TextureMap>)
    ensures
        same_opt(r, *t),
{
    match t {
        Some(m) => Some(m.duplicate()),
        None => None,
    }
}

impl MaterialSet {
    /// The six slots in their fixed order: albedo, normal, roughness,
    /// metallic, ambient occlusion, height.
    pub open spec fn maps(&self) -> Seq<Option<TextureMap>> {
        seq![self.albedo, self.normal, self.roughness, self.metallic, self.ao, self.height]
    }

    /// Number of present slots.
    pub open spec fn spec_texture_count(&self) -> nat {
        count_present(self.maps())
    }

    /// Size of the first present slot, in slot order.
    pub open spec fn spec_dimensions(&self) -> Option<(u32, u32)> {
        first_dims(self.maps())
    }

    /// Every present slot shares one size.
    pub open spec fn spec_dimensions_consistent(&self) -> bool {
        match self.spec_dimensions() {
            None => true,
            Some(d) => forall|i: int| 0 <= i < 6 ==> fits(#[trigger] self.maps()[i], d.0, d.1),
        }
    }

    /// Every present texture is well formed.
    pub open spec fn wf(&self) -> bool {
        forall|i: int|
            0 <= i < 6 && (#[trigger] self.maps()[i]).is_some() ==> self.maps()[i].unwrap().wf()
    }

    /// Two materials hold the same textures and name.
    pub open spec fn same_as(&self, o: &MaterialSet) -> bool {
        &&& forall|i: int| 0 <= i < 6 ==> same_opt(#[trigger] self.maps()[i], o.maps()[i])
        &&& self.name == o.name
    }

    /// The texture of a slot; `Emissive` has no slot here.
    pub open spec fn spec_get(&self, slot: TextureSlot) -> Option<TextureMap> {
        match slot {
            TextureSlot::Albedo => self.albedo,
            TextureSlot::Normal => self.normal,
            TextureSlot::Roughness => self.roughness,
            TextureSlot::Metallic => self.metallic,
            TextureSlot::AmbientOcclusion => self.ao,
            TextureSlot::Height => self.height,
            TextureSlot::Emissive => None,
        }
    }

    /// A material with no textures and no name.
    pub fn new() -> (r: MaterialSet)
        ensures
            forall|i: int| 0 <= i < 6 ==> (#[trigger] r.maps()[i]).is_none(),
            r.name.is_none(),
    {
        MaterialSet {
            albedo: None,
            normal: None,
            roughness: None,
            metallic: None,
            ao: None,
            height: None,
            name: None,
        }
    }

    /// An independent copy of this material.
    pub fn duplicate(&self) -> (r: MaterialSet)
        ensures
            r.same_as(self),
    {
        let name = match &self.name {
            Some(n) => Some(n.clone()),
            None => None,
        };
        let r = MaterialSet {
            albedo: duplicate_opt(&self.albedo),
            normal: duplicate_opt(&self.normal),
            roughness: duplicate_opt(&self.roughness),
            metallic: duplicate_opt(&self.metallic),
            ao: duplicate_opt(&self.ao),
            height: duplicate_opt(&self.height),
            name,
        };
        assert(forall|i: int| 0 <= i < 6 ==> same_opt(#[trigger] r.maps()[i], self.maps()[i]));
        r
    }

    pub fn add_albedo(&mut self, map: TextureMap)
        ensures
            final(self).albedo == Some(map),
            final(self).normal == old(self).normal,
            final(self).roughness == old(self).roughness,
            final(self).metallic == old(self).metallic,
            final(self).ao == old(self).ao,
            final(self).height == old(self).height,
            final(self).name == old(self).name,
    {
        self.albedo = Some(map);
    }

    pub fn add_normal(&mut self, map: TextureMap)
        ensures
            final(self).normal == Some(map),
            final(self).albedo == old(self).albedo,
            final(self).roughness == old(self).roughness,
            final(self).metallic == old(self).metallic,
            final(self).ao == old(self).ao,
            final(self).height == old(self).height,
            final(self).name == old(self).name,
    {
        self.normal = Some(map);
    }

    pub fn add_roughness(&mut self, map: TextureMap)
        ensures
            final(self).roughness == Some(map),
            final(self).albedo == old(self).albedo,
            final(self).normal == old(self).normal,
            final(self).metallic == old(self).metallic,
            final(self).ao == old(self).ao,
            final(self).height == old(self).height,
            final(self).name == old(self).name,
    {
        self.roughness = Some(map);
    }

    pub fn add_metallic(&mut self, map: TextureMap)
        ensures
            final(self).metallic == Some(map),
            final(self).albedo == old(self).albedo,
            final(self).normal == old(self).normal,
            final(self).roughness == old(self).roughness,
            final(self).ao == old(self).ao,
            final(self).height == old(self).height,
            final(self).name == old(self).name,
    {
        self.metallic = Some(map);
    }

    pub fn add_ao(&mut self, map: TextureMap)
        ensures
            final(self).ao == Some(map),
            final(self).albedo == old(self).albedo,
            final(self).normal == old(self).normal,
            final(self).roughness == old(self).roughness,
            final(self).metallic == old(self).metallic,
            final(self).height == old(self).height,
            final(self).name == old(self).name,
    {
        self.ao = Some(map);
    }

    pub fn add_height(&mut self, map: TextureMap)
        ensures
            final(self).height == Some(map),
            final(self).albedo == old(self).albedo,
            final(self).normal == old(self).normal,
            final(self).roughness == old(self).roughness,
            final(self).metallic == old(self).metallic,
            final(self).ao == old(self).ao,
            final(self).name == old(self).name,
    {
        self.height = Some(map);
    }

    pub fn has_albedo(&self) -> (r: bool)
        ensures
            r == self.albedo.is_some(),
    {
        self.albedo.is_some()
    }

    pub fn has_normal(&self) -> (r: bool)
        ensures
            r == self.normal.is_some(),
    {
        self.normal.is_some()
    }

    pub fn has_roughness(&self) -> (r: bool)
        ensures
            r == self.roughness.is_some(),
    {
        self.roughness.is_some()
    }

    pub fn has_metallic(&self) -> (r: bool)
        ensures
            r == self.metallic.is_some(),
    {
        self.metallic.is_some()
    }

    pub fn has_ao(&self) -> (r: bool)
        ensures
            r == self.ao.is_some(),
    {
        self.ao.is_some()
    }

    pub fn has_height(&self) -> (r: bool)
        ensures
            r == self.height.is_some(),
    {
        self.height.is_some()
    }

    /// The texture of a slot, if present.
    pub fn get(&self, slot: TextureSlot) -> (r: Option<&TextureMap>)
        ensures
            r.is_some() == self.spec_get(slot).is_some(),
            r.is_some() ==> *r.unwrap() == self.spec_get(slot).unwrap(),
    {
        match slot {
            TextureSlot::Albedo => self.albedo.as_ref(),
            TextureSlot::Normal => self.normal.as_ref(),
            TextureSlot::Roughness => self.roughness.as_ref(),
            TextureSlot::Metallic => self.metallic.as_ref(),
            TextureSlot::AmbientOcclusion => self.ao.as_ref(),
            TextureSlot::Height => self.height.as_ref(),
            TextureSlot::Emissive => None,
        }
    }

    /// Number of present slots.
    pub fn texture_count(&self) -> (r: usize)
        ensures
            r == self.spec_texture_count(),
            r <= 6,
    {
        let mut n: usize = 0;
        if self.albedo.is_some() {
            n += 1;
        }
        if self.normal.is_some() {
            n += 1;
        }
        if self.roughness.is_some() {
            n += 1;
        }
        if self.metallic.is_some() {
            n += 1;
        }
        if self.ao.is_some() {
            n += 1;
        }
        if self.height.is_some() {
            n += 1;
        }
        proof {
            reveal_with_fuel(count_present, 7);
            let m = self.maps();
            assert(m.drop_last() =~= m.subrange(0, 5));
            assert(m.drop_last().drop_last() =~= m.subrange(0, 4));
            assert(m.drop_last().drop_last().drop_last() =~= m.subrange(0, 3));
            assert(m.drop_last().drop_last().drop_last().drop_last() =~= m.subrange(0, 2));
            assert(m.drop_last().drop_last().drop_last().drop_last().drop_last() =~= m.subrange(
                0,
                1,
            ));
        }
        n
    }

    /// Size of the first present slot, in slot order.
    pub fn dimensions(&self) -> (r: Option<(u32, u32)>)
        ensures
            r == self.spec_dimensions(),
    {
        proof {
            reveal_with_fuel(first_dims, 7);
            let m = self.maps();
            assert(m.drop_first() =~= m.subrange(1, 6));
            assert(m.drop_first().drop_first() =~= m.subrange(2, 6));
            assert(m.drop_first().drop_first().drop_first() =~= m.subrange(3, 6));
            assert(m.drop_first().drop_first().drop_first().drop_first() =~= m.subrange(4, 6));
            assert(m.drop_first().drop_first().drop_first().drop_first().drop_first()
                =~= m.subrange(5, 6));
        }
        if let Some(t) = &self.albedo {
            return Some((t.width, t.height));
        }
        if let Some(t) = &self.normal {
            return Some((t.width, t.height));
        }
        if let Some(t) = &self.roughness {
            return Some((t.width, t.height));
        }
        if let Some(t) = &self.metallic {
            return Some((t.width, t.height));
        }
        if let Some(t) = &self.ao {
            return Some((t.width, t.height));
        }
        if let Some(t) = &self.height {
            return Some((t.width, t.height));
        }
        None
    }

    /// Whether every present slot shares one size (true when none is present).
    pub fn dimensions_consistent(&self) -> (r: bool)
        ensures
            r == self.spec_dimensions_consistent(),
    {
        match self.dimensions() {
            None => true,
            Some((w, h)) => {
                let r = dims_fit(&self.albedo, w, h) && dims_fit(&self.normal, w, h) && dims_fit(
                    &self.roughness,
                    w,
                    h,
                ) && dims_fit(&self.metallic, w, h) && dims_fit(&self.ao, w, h) && dims_fit(
                    &self.height,
                    w,
                    h,
                );
                assert(r ==> forall|i: int| 0 <= i < 6 ==> fits(#[trigger] self.maps()[i], w, h));
                assert(!r ==> !fits(self.maps()[0], w, h) || !fits(self.maps()[1], w, h) || !fits(
                    self.maps()[2],
                    w,
                    h,
                ) || !fits(self.maps()[3], w, h) || !fits(self.maps()[4], w, h) || !fits(
                    self.maps()[5],
                    w,
                    h,
                ));
                r
            },
        }
    }
}

/// Broad material classes used in reports.
#[derive(Clone, Copy, Debug, PartialEq, Eq, Structural)]
pub enum MaterialClass {
    Metal,
    Wood,
    Skin,
    Fabric,
    Stone,
    Plastic,
    Unknown,
}

impl MaterialClass {
    /// Lower-case name of the class.
    pub fn as_str(&self) -> (r: &'static str)
        ensures
            r@ == match *self {
                MaterialClass::Metal => "metal"@,
                MaterialClass::Wood => "wood"@,
                MaterialClass::Skin => "skin"@,
                MaterialClass::Fabric => "fabric"@,
                MaterialClass::Stone => "stone"@,
                MaterialClass::Plastic => "plastic"@,
                MaterialClass::Unknown => "unknown"@,
            },
    {
        match self {
            MaterialClass::Metal => "metal",
            MaterialClass::Wood => "wood",
            MaterialClass::Skin => "skin",
            MaterialClass::Fabric => "fabric",
            MaterialClass::Stone => "stone",
            MaterialClass::Plastic => "plastic",
            MaterialClass::Unknown => "unknown",
        }
    }
}

} // verus!
