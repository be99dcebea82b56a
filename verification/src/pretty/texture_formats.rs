//! Texture formats: what each format is, and the usages and flags it
//! guarantees, spelled out by short letters.

use vstd::prelude::*;
use vstd::string::StringExecFns;
use wgpu::{TextureFormatFeatureFlags, TextureUsages};

verus! {

/// Number of texture usages tabulated.
pub const TEXTURE_USAGE_COUNT: usize = 5;

/// Number of texture format flags tabulated.
pub const TEXTURE_FLAG_COUNT: usize = 2;

/// Bits, letter and name of the `i`-th texture usage.
pub open spec fn texture_usage_entry(i: nat) -> (u32, &'static str, &'static str) {
    if i == 0 {
        (0x2, "D", "COPY_DST")
    } else if i == 1 {
        (0x1, "C", "COPY_SRC")
    } else if i == 2 {
        (0x10, "R", "RENDER_ATTACHMENT")
    } else if i == 3 {
        (0x8, "S", "STORAGE_BINDING")
    } else {
        (0x4, "T", "TEXTURE_BINDING")
    }
}

/// Bits, letters and name of the `i`-th texture format flag.
pub open spec fn texture_flag_entry(i: nat) -> (u32, &'static str, &'static str) {
    if i == 0 {
        (0x10, "A", "STORAGE_ATOMICS")
    } else {
        (0x8, "RW", "STORAGE_READ_WRITE")
    }
}

/// The flag that marks a format as filterable.
pub open spec fn filterable_flag() -> u32 {
    0x1u32
}

/// The bits of the tabulated texture usages, in table order: wgpu's
/// `TextureUsages` constants.
#[verifier::external_body]
fn wgpu_texture_usage_bits() -> (r: Vec<u32>)
    ensures
        r@.len() == TEXTURE_USAGE_COUNT,
        forall|i: int| 0 <= i < TEXTURE_USAGE_COUNT ==> #[trigger] r@[i] == texture_usage_entry(i as nat).0,
{
    vec![
        TextureUsages::COPY_DST.bits(),
        TextureUsages::COPY_SRC.bits(),
        TextureUsages::RENDER_ATTACHMENT.bits(),
        TextureUsages::STORAGE_BINDING.bits(),
        TextureUsages::TEXTURE_BINDING.bits(),
    ]
}

/// The bits of the tabulated texture format flags, in table order, and of
/// the filterable flag: wgpu's `TextureFormatFeatureFlags` constants.
#[verifier::external_body]
fn wgpu_texture_flag_bits() -> (r: (Vec<u32>, u32))
    ensures
        r.0@.len() == TEXTURE_FLAG_COUNT,
        forall|i: int| 0 <= i < TEXTURE_FLAG_COUNT ==> #[trigger] r.0@[i] == texture_flag_entry(i as nat).0,
        r.1 == filterable_flag(),
{
    (
        vec![
            TextureFormatFeatureFlags::STORAGE_ATOMICS.bits(),
            TextureFormatFeatureFlags::STORAGE_READ_WRITE.bits(),
        ],
        TextureFormatFeatureFlags::FILTERABLE.bits(),
    )
}

fn texture_usage_text(i: usize) -> (r: (&'static str, &'static str))
    requires
        i < TEXTURE_USAGE_COUNT,
    ensures
        r.0 == texture_usage_entry(i as nat).1,
        r.1 == texture_usage_entry(i as nat).2,
{
    if i == 0 {
        ("D", "COPY_DST")
    } else if i == 1 {
        ("C", "COPY_SRC")
    } else if i == 2 {
        ("R", "RENDER_ATTACHMENT")
    } else if i == 3 {
        ("S", "STORAGE_BINDING")
    } else {
        ("T", "TEXTURE_BINDING")
    }
}

/// The texture usages: bits, letter and name of each, in table order.
pub fn texture_usages() -> (r: Vec<(u32, &'static str, &'static str)>)
    ensures
        r@.len() == TEXTURE_USAGE_COUNT,
        forall|i: int| 0 <= i < TEXTURE_USAGE_COUNT ==> #[trigger] r@[i] == texture_usage_entry(i as nat),
{
    let bits = wgpu_texture_usage_bits();
    let mut r: Vec<(u32, &'static str, &'static str)> = Vec::new();
    let mut i: usize = 0;
    while i < TEXTURE_USAGE_COUNT
        invariant
            bits@.len() == TEXTURE_USAGE_COUNT,
            forall|j: int| 0 <= j < TEXTURE_USAGE_COUNT ==> #[trigger] bits@[j] == texture_usage_entry(j as nat).0,
            i <= TEXTURE_USAGE_COUNT,
            r@.len() == i,
            forall|j: int| 0 <= j < i ==> #[trigger] r@[j] == texture_usage_entry(j as nat),
        decreases TEXTURE_USAGE_COUNT - i,
    {
        let (letter, name) = texture_usage_text(i);
        r.push((bits[i], letter, name));
        i = i + 1;
    }
    r
}

/// The texture format flags: bits, letters and name of each, in table
/// order.
pub fn texture_format_flags() -> (r: Vec<(u32, &'static str, &'static str)>)
    ensures
        r@.len() == TEXTURE_FLAG_COUNT,
        forall|i: int| 0 <= i < TEXTURE_FLAG_COUNT ==> #[trigger] r@[i] == texture_flag_entry(i as nat),
{
    let (bits, _) = wgpu_texture_flag_bits();
    let mut r: Vec<(u32, &'static str, &'static str)> = Vec::new();
    r.push((bits[0], "A", "STORAGE_ATOMICS"));
    r.push((bits[1], "RW", "STORAGE_READ_WRITE"));
    r
}

/// The parts joined by commas.
pub open spec fn comma_join(parts: Seq<Seq<char>>) -> Seq<char>
    decreases parts.len(),
{
    if parts.len() == 0 {
        Seq::empty()
    } else if parts.len() == 1 {
        parts[0]
    } else {
        comma_join(parts.drop_last()) + ","@ + parts.last()
    }
}

/// The letters of the entries whose bits `bits` holds, in table order.
pub open spec fn held_letters(entries: Seq<(u32, &'static str, &'static str)>, bits: u32) -> Seq<Seq<char>>
    decreases entries.len(),
{
    if entries.len() == 0 {
        Seq::empty()
    } else {
        let rest = held_letters(entries.drop_last(), bits);
        let e = entries.last();
        if bits & e.0 == e.0 {
            rest.push(e.1@)
        } else {
            rest
        }
    }
}

/// The letters of the entries whose bits `bits` holds, joined by commas.
pub fn letters_held(entries: &Vec<(u32, &'static str, &'static str)>, bits: u32) -> (r: String)
    ensures
        r@ == comma_join(held_letters(entries@, bits)),
{
    let mut s = String::new();
    let mut empty = true;
    let mut i: usize = 0;
    while i < entries.len()
        invariant
            i <= entries@.len(),
            s@ == comma_join(held_letters(entries@.take(i as int), bits)),
            empty == (held_letters(entries@.take(i as int), bits).len() == 0),
        decreases entries@.len() - i,
    {
        let (b, letter, _) = entries[i];
        let ghost prev = held_letters(entries@.take(i as int), bits);
        proof {
            assert(entries@.take(i as int + 1).drop_last() =~= entries@.take(i as int));
            assert(entries@.take(i as int + 1).last() == entries@[i as int]);
        }
        if bits & b == b {
            if !empty {
                s.append(",");
            }
            s.append(letter);
            empty = false;
            proof {
                let parts = prev.push(letter@);
                assert(parts.drop_last() =~= prev);
                assert(s@ =~= comma_join(parts));
            }
        }
        i = i + 1;
    }
    proof {
        assert(entries@.take(entries@.len() as int) =~= entries@);
    }
    s
}

/// How a shader samples a texture of the format.
#[derive(Clone, Copy, PartialEq, Eq, Structural, Debug)]
pub enum SampleType {
    Float { filterable: bool },
    Depth,
    Sint,
    Uint,
}

/// What a texture format is: its name, components, block size and
/// dimensions, whether it is sRGB, how it is sampled, the features it needs
/// (as bits), and the usages and flags it guarantees (as bits).
pub struct TextureFormatInfo {
    pub name: String,
    pub components: u8,
    pub block_size: u8,
    pub block_dimensions: (u8, u8),
    pub srgb: bool,
    pub sample_type: SampleType,
    pub required_features: u64,
    pub allowed_usages: u32,
    pub flags: u32,
}

impl TextureFormatInfo {
    /// The letters of the usages the format guarantees, joined by commas.
    pub fn usage_letters(&self) -> (r: String)
        ensures
            r@ == comma_join(
                held_letters(Seq::new(TEXTURE_USAGE_COUNT as nat, |i: int| texture_usage_entry(i as nat)), self.allowed_usages),
            ),
    {
        let usages = texture_usages();
        proof {
            assert(usages@ =~= Seq::new(TEXTURE_USAGE_COUNT as nat, |i: int| texture_usage_entry(i as nat)));
        }
        letters_held(&usages, self.allowed_usages)
    }

    /// The letters of the flags the format guarantees, joined by commas.
    pub fn flag_letters(&self) -> (r: String)
        ensures
            r@ == comma_join(
                held_letters(Seq::new(TEXTURE_FLAG_COUNT as nat, |i: int| texture_flag_entry(i as nat)), self.flags),
            ),
    {
        let flags = texture_format_flags();
        proof {
            assert(flags@ =~= Seq::new(TEXTURE_FLAG_COUNT as nat, |i: int| texture_flag_entry(i as nat)));
        }
        letters_held(&flags, self.flags)
    }

    /// Whether the format needs any optional feature.
    pub fn needs_features(&self) -> (r: bool)
        ensures
            r == (self.required_features != 0),
    {
        self.required_features != 0
    }

    /// Whether the format is guaranteed to be filterable.
    pub fn is_filterable(&self) -> (r: bool)
        ensures
            r == (self.flags & filterable_flag() == filterable_flag()),
    {
        let (_, filterable) = wgpu_texture_flag_bits();
        self.flags & filterable == filterable
    }
}

} // verus!
