//! Decoded images as the loader hands them over, their checks, and the
//! detection of a texture's slot from its file name. Decoding is the
//! caller's work.
use vstd::prelude::*;
use vstd::string::*;
use crate::material::TextureSlot;
use crate::plugin::{lower_of, lowercase};
use crate::text::decimal_text;
use crate::analysis::{file_name, file_name_of};

verus! {

/// Index of the last '.' among the first `k` characters, or -1.
pub open spec fn last_dot(n: Seq<char>, k: int) -> int
    decreases k,
{
    if k <= 0 {
        -1
    } else if n[k - 1] == '.' {
        k - 1
    } else {
        last_dot(n, k - 1)
    }
}

/// A file name without its extension: the text before the last '.', or the
/// whole name when it has no '.' or only a leading one (as
/// `Path::file_stem` does).
pub open spec fn stem_of_name(n: Seq<char>) -> Seq<char> {
    let i = last_dot(n, n.len() as int);
    if i <= 0 {
        n
    } else {
        n.subrange(0, i)
    }
}

/// The stem of a file name.
pub fn stem_of(name: &str) -> (r: &str)
    ensures
        r@ == stem_of_name(name@),
{
    let n = name.unicode_len();
    let mut k = n;
    while k > 0
        invariant
            n == name@.len(),
            k <= n,
            last_dot(name@, n as int) == last_dot(name@, k as int),
        decreases k,
    {
        if name.get_char(k - 1) == '.' {
            if k - 1 == 0 {
                return name;
            }
            return name.substring_char(0, k - 1);
        }
        k -= 1;
    }
    name
}

/// Whether `t` occurs in `s`.
pub open spec fn has_substring(s: Seq<char>, t: Seq<char>) -> bool {
    exists|i: int| 0 <= i && i + t.len() <= s.len() && #[trigger] s.subrange(i, i + t.len()) == t
}

/// Whether `t` occurs in `s`.
pub fn contains_str(s: &str, t: &str) -> (r: bool)
    ensures
        r == has_substring(s@, t@),
{
    let n = s.unicode_len();
    let m = t.unicode_len();
    if m > n {
        assert forall|i: int| 0 <= i && i + t@.len() <= s@.len() implies #[trigger] s@.subrange(
            i,
            i + t@.len(),
        ) != t@ by {}
        return false;
    }
    let mut i: usize = 0;
    while i <= n - m
        invariant
            n == s@.len(),
            m == t@.len(),
            m <= n,
            i <= n - m + 1,
            forall|j: int| 0 <= j < i ==> #[trigger] s@.subrange(j, j + m) != t@,
        decreases n - m + 1 - i,
    {
        let mut k: usize = 0;
        let mut same = true;
        while k < m
            invariant
                n == s@.len(),
                m == t@.len(),
                i + m <= n,
                k <= m,
                same == forall|q: int| 0 <= q < k ==> s@[i + q] == t@[q],
            decreases m - k,
        {
            if s.get_char(i + k) != t.get_char(k) {
                same = false;
            }
            k += 1;
        }
        if same {
            assert(s@.subrange(i as int, i + m) =~= t@);
            return true;
        }
        assert(s@.subrange(i as int, i + m) != t@) by {
            let q = choose|q: int| 0 <= q < m && s@[i + q] != t@[q];
            assert(s@.subrange(i as int, i + m)[q] != t@[q]);
        }
        i += 1;
    }
    false
}

/// File-name markers of a slot.
pub open spec fn suffixes(slot: TextureSlot) -> Seq<Seq<char>> {
    match slot {
        TextureSlot::Albedo => seq!["albedo"@, "basecolor"@, "diffuse"@, "color"@],
        TextureSlot::Normal => seq!["normal"@, "norm"@],
        TextureSlot::Metallic => seq!["metallic"@, "metal"@],
        TextureSlot::Roughness => seq!["roughness"@, "rough"@],
        TextureSlot::AmbientOcclusion => seq!["ao"@, "ambientocclusion"@, "ambient_occlusion"@],
        TextureSlot::Emissive => seq!["emissive"@, "emission"@],
        TextureSlot::Height => seq!["height"@, "displacement"@, "bump"@],
    }
}

/// The slots in detection order.
pub open spec fn detection_order() -> Seq<TextureSlot> {
    seq![
        TextureSlot::Albedo,
        TextureSlot::Normal,
        TextureSlot::Metallic,
        TextureSlot::Roughness,
        TextureSlot::AmbientOcclusion,
        TextureSlot::Emissive,
        TextureSlot::Height,
    ]
}

/// Whether a (lower-case) stem holds a marker of the slot.
pub open spec fn matches_slot(stem: Seq<char>, slot: TextureSlot) -> bool {
    exists|k: int| 0 <= k < suffixes(slot).len() && has_substring(stem, #[trigger] suffixes(slot)[k])
}

/// The first slot, in detection order from `k` on, whose marker the stem holds.
pub open spec fn first_match(stem: Seq<char>, k: int) -> Option<TextureSlot>
    decreases 7 - k,
{
    if k >= 7 || k < 0 {
        None
    } else if matches_slot(stem, detection_order()[k]) {
        Some(detection_order()[k])
    } else {
        first_match(stem, k + 1)
    }
}

/// Slot named by a file path: the first slot (albedo, normal, metallic,
/// roughness, AO, emissive, height) whose marker occurs in the lower-cased
/// file stem.
pub open spec fn slot_of_path(p: Seq<char>) -> Option<TextureSlot> {
    match file_name_of(p) {
        Some(name) => first_match(lower_of(stem_of_name(name)), 0),
        None => None,
    }
}

impl TextureSlot {
    /// File-name markers of this slot.
    pub fn common_suffixes(&self) -> (r: Vec<&'static str>)
        ensures
            r@.len() == suffixes(*self).len(),
            forall|k: int| 0 <= k < r@.len() ==> (#[trigger] r@[k])@ == suffixes(*self)[k],
    {
        let r = match self {
            TextureSlot::Albedo => vec!["albedo", "basecolor", "diffuse", "color"],
            TextureSlot::Normal => vec!["normal", "norm"],
            TextureSlot::Metallic => vec!["metallic", "metal"],
            TextureSlot::Roughness => vec!["roughness", "rough"],
            TextureSlot::AmbientOcclusion => vec!["ao", "ambientocclusion", "ambient_occlusion"],
            TextureSlot::Emissive => vec!["emissive", "emission"],
            TextureSlot::Height => vec!["height", "displacement", "bump"],
        };
        r
    }
}

fn matches_exec(stem: &str, slot: TextureSlot) -> (r: bool)
    ensures
        r == matches_slot(stem@, slot),
{
    let sfx = slot.common_suffixes();
    let mut k: usize = 0;
    while k < sfx.len()
        invariant
            sfx@.len() == suffixes(slot).len(),
            forall|j: int| 0 <= j < sfx@.len() ==> (#[trigger] sfx@[j])@ == suffixes(slot)[j],
            k <= sfx@.len(),
            forall|j: int| 0 <= j < k ==> !has_substring(stem@, #[trigger] suffixes(slot)[j]),
        decreases sfx@.len() - k,
    {
        if contains_str(stem, sfx[k]) {
            return true;
        }
        k += 1;
    }
    false
}

/// Loads images and names their slots.
pub struct ImageLoader;

impl ImageLoader {
    /// The slot a file's name points to, if any.
    pub fn detect_slot_from_path(path: &str) -> (r: Option<TextureSlot>)
        ensures
            r == slot_of_path(path@),
    {
        let name = match file_name(path) {
            Some(s) => s,
            None => return None,
        };
        let l = lowercase(stem_of(name.as_str()));
        Self::slot_from_stem(l.as_str())
    }

    /// The slot a file stem already in lower case points to: the first slot
    /// in detection order with a marker in the stem.
    pub fn slot_from_stem(l: &str) -> (r: Option<TextureSlot>)
        ensures
            r == first_match(l@, 0),
    {
        let order = [
            TextureSlot::Albedo,
            TextureSlot::Normal,
            TextureSlot::Metallic,
            TextureSlot::Roughness,
            TextureSlot::AmbientOcclusion,
            TextureSlot::Emissive,
            TextureSlot::Height,
        ];
        assert(order@ =~= detection_order());
        let mut k: usize = 0;
        while k < 7
            invariant
                order@ == detection_order(),
                k <= 7,
                first_match(l@, 0) == first_match(l@, k as int),
            decreases 7 - k,
        {
            if matches_exec(l, order[k]) {
                return Some(order[k]);
            }
            k += 1;
        }
        None
    }
}

/// Container format of a decoded image.
#[derive(Clone, Copy, Debug, PartialEq, Eq, Structural)]
pub enum ImageFormat {
    Png,
    Jpeg,
    Tga,
    OpenExr,
    Other,
}

/// A decoded image: RGBA8 pixels, row-major, and where they came from.
#[derive(Debug)]
pub struct LoadedImage {
    pub width: u32,
    pub height: u32,
    pub data: Vec<u8>,
    pub format: ImageFormat,
    /// The decoder's description of the source channels.
    pub color_type: String,
}

/// Result of checking a decoded image's buffer.
#[derive(Debug)]
pub struct ExrValidationReport {
    pub valid: bool,
    /// Always 4: the buffer is RGBA.
    pub channel_count: u32,
    pub warnings: Vec<String>,
}

impl LoadedImage {
    pub fn pixel_count(&self) -> (r: u64)
        ensures
            r == self.width as int * self.height as int,
    {
        crate::analysis::mul32(self.width, self.height) as u64
    }

    pub fn data_len(&self) -> (r: usize)
        ensures
            r == self.data@.len(),
    {
        self.data.len()
    }

    /// Pixel at (x, y) as [R, G, B, A]; `None` outside the image or buffer.
    pub fn pixel(&self, x: u32, y: u32) -> (r: Option<[u8; 4]>)
        ensures
            r is Some <==> (x < self.width && y < self.height && (y * self.width + x) * 4 + 4
                <= self.data@.len()),
            r is Some ==> forall|c: int|
                0 <= c < 4 ==> r->Some_0[c] == self.data@[(y * self.width + x) * 4 + c],
    {
        if x >= self.width || y >= self.height {
            return None;
        }
        let p = crate::analysis::mul32(y, self.width) + x as u128;
        if p >= (self.data.len() / 4) as u128 {
            return None;
        }
        let i = (p * 4) as usize;
        Some([self.data[i], self.data[i + 1], self.data[i + 2], self.data[i + 3]])
    }

    /// Checks the buffer: a zero size, or a length other than
    /// `width * height * 4`, is invalid (with one warning); an all-zero
    /// buffer is valid with a warning.
    pub fn validate_exr_channels(&self) -> (r: ExrValidationReport)
        ensures
            r.channel_count == 4,
            r.valid == (self.width > 0 && self.height > 0 && self.data@.len() == self.width as int
                * self.height as int * 4),
            !r.valid ==> r.warnings@.len() == 1,
            r.valid ==> r.warnings@.len() == if forall|k: int|
                0 <= k < self.data@.len() ==> #[trigger] self.data@[k] == 0 {
                1int
            } else {
                0int
            },
    {
        let mut warnings: Vec<String> = Vec::new();
        if self.width == 0 || self.height == 0 {
            warnings.push(String::from_str("Invalid dimensions: width and height must be > 0"));
            return ExrValidationReport { valid: false, channel_count: 4, warnings };
        }
        let expected = crate::analysis::mul32(self.width, self.height) * 4;
        if self.data.len() as u128 != expected {
            let mut m = String::from_str("Data length mismatch: expected ");
            let t = decimal_text(expected);
            m.append(t.as_str());
            m.append(" bytes, got ");
            let t = decimal_text(self.data.len() as u128);
            m.append(t.as_str());
            warnings.push(m);
            return ExrValidationReport { valid: false, channel_count: 4, warnings };
        }
        let mut all_zero = true;
        let mut k: usize = 0;
        while k < self.data.len()
            invariant
                k <= self.data@.len(),
                all_zero == forall|j: int| 0 <= j < k ==> #[trigger] self.data@[j] == 0,
            decreases self.data@.len() - k,
        {
            if self.data[k] != 0 {
                all_zero = false;
            }
            k += 1;
        }
        if all_zero {
            warnings.push(String::from_str("All pixels are zero - image may be empty or corrupt"));
        }
        ExrValidationReport { valid: true, channel_count: 4, warnings }
    }
}

} // verus!
