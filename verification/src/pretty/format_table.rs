//! The table of texture formats: every format wgpu offers, by name and in
//! name order, with what wgpu says of each.

use vstd::prelude::*;
use vstd::string::StringExecFns;
use wgpu::AstcBlock as B;
use wgpu::AstcChannel as C;
use wgpu::TextureFormat as F;
use wgpu::TextureSampleType as S;

use crate::fonts::order::lemma_text_order_antisymmetric;
use crate::fonts::order::lemma_text_order_transitive;
use crate::fonts::order::text_order;
use crate::fonts::order::NameOrder;
use crate::pretty::texture_formats::SampleType;
use crate::pretty::texture_formats::TextureFormatInfo;

verus! {

/// Number of texture formats tabulated.
pub const TEXTURE_FORMAT_COUNT: usize = 97;

/// The names of the texture formats, in table order.
pub open spec fn texture_format_names() -> Seq<&'static str> {
    seq![
        "Astc10x10RgbaUnorm",
        "Astc10x10RgbaUnormSrgb",
        "Astc10x5RgbaUnorm",
        "Astc10x5RgbaUnormSrgb",
        "Astc10x6RgbaUnorm",
        "Astc10x6RgbaUnormSrgb",
        "Astc10x8RgbaUnorm",
        "Astc10x8RgbaUnormSrgb",
        "Astc12x10RgbaUnorm",
        "Astc12x10RgbaUnormSrgb",
        "Astc12x12RgbaUnorm",
        "Astc12x12RgbaUnormSrgb",
        "Astc4x4RgbaUnorm",
        "Astc4x4RgbaUnormSrgb",
        "Astc5x4RgbaUnorm",
        "Astc5x4RgbaUnormSrgb",
        "Astc5x5RgbaUnorm",
        "Astc5x5RgbaUnormSrgb",
        "Astc6x5RgbaUnorm",
        "Astc6x5RgbaUnormSrgb",
        "Astc6x6RgbaUnorm",
        "Astc6x6RgbaUnormSrgb",
        "Astc8x5RgbaUnorm",
        "Astc8x5RgbaUnormSrgb",
        "Astc8x6RgbaUnorm",
        "Astc8x6RgbaUnormSrgb",
        "Astc8x8RgbaUnorm",
        "Astc8x8RgbaUnormSrgb",
        "Bc1RgbaUnorm",
        "Bc1RgbaUnormSrgb",
        "Bc2RgbaUnorm",
        "Bc2RgbaUnormSrgb",
        "Bc3RgbaUnorm",
        "Bc3RgbaUnormSrgb",
        "Bc4RSnorm",
        "Bc4RUnorm",
        "Bc5RgSnorm",
        "Bc5RgUnorm",
        "Bc6hRgbSfloat",
        "Bc6hRgbUfloat",
        "Bc7RgbaUnorm",
        "Bc7RgbaUnormSrgb",
        "Bgra8Unorm",
        "Bgra8UnormSrgb",
        "Depth24Plus",
        "Depth24PlusStencil8",
        "Depth32Float",
        "EacR11Snorm",
        "EacR11Unorm",
        "EacRg11Snorm",
        "EacRg11Unorm",
        "Etc2Rgb8A1Unorm",
        "Etc2Rgb8A1UnormSrgb",
        "Etc2Rgb8Unorm",
        "Etc2Rgb8UnormSrgb",
        "Etc2Rgba8Unorm",
        "Etc2Rgba8UnormSrgb",
        "R16Float",
        "R16Sint",
        "R16Snorm",
        "R16Uint",
        "R16Unorm",
        "R32Float",
        "R32Sint",
        "R32Uint",
        "R8Sint",
        "R8Snorm",
        "R8Uint",
        "R8Unorm",
        "Rg11b10Float",
        "Rg16Float",
        "Rg16Sint",
        "Rg16Snorm",
        "Rg16Uint",
        "Rg16Unorm",
        "Rg32Float",
        "Rg32Sint",
        "Rg32Uint",
        "Rg8Sint",
        "Rg8Snorm",
        "Rg8Uint",
        "Rg8Unorm",
        "Rgb10a2Unorm",
        "Rgb9e5Ufloat",
        "Rgba16Float",
        "Rgba16Sint",
        "Rgba16Snorm",
        "Rgba16Uint",
        "Rgba16Unorm",
        "Rgba32Float",
        "Rgba32Sint",
        "Rgba32Uint",
        "Rgba8Sint",
        "Rgba8Snorm",
        "Rgba8Uint",
        "Rgba8Unorm",
        "Rgba8UnormSrgb",
    ]
}

/// The names of the texture formats, in table order.
fn format_names() -> (r: Vec<&'static str>)
    ensures
        r@ == texture_format_names(),
{
    vec![
        "Astc10x10RgbaUnorm",
        "Astc10x10RgbaUnormSrgb",
        "Astc10x5RgbaUnorm",
        "Astc10x5RgbaUnormSrgb",
        "Astc10x6RgbaUnorm",
        "Astc10x6RgbaUnormSrgb",
        "Astc10x8RgbaUnorm",
        "Astc10x8RgbaUnormSrgb",
        "Astc12x10RgbaUnorm",
        "Astc12x10RgbaUnormSrgb",
        "Astc12x12RgbaUnorm",
        "Astc12x12RgbaUnormSrgb",
        "Astc4x4RgbaUnorm",
        "Astc4x4RgbaUnormSrgb",
        "Astc5x4RgbaUnorm",
        "Astc5x4RgbaUnormSrgb",
        "Astc5x5RgbaUnorm",
        "Astc5x5RgbaUnormSrgb",
        "Astc6x5RgbaUnorm",
        "Astc6x5RgbaUnormSrgb",
        "Astc6x6RgbaUnorm",
        "Astc6x6RgbaUnormSrgb",
        "Astc8x5RgbaUnorm",
        "Astc8x5RgbaUnormSrgb",
        "Astc8x6RgbaUnorm",
        "Astc8x6RgbaUnormSrgb",
        "Astc8x8RgbaUnorm",
        "Astc8x8RgbaUnormSrgb",
        "Bc1RgbaUnorm",
        "Bc1RgbaUnormSrgb",
        "Bc2RgbaUnorm",
        "Bc2RgbaUnormSrgb",
        "Bc3RgbaUnorm",
        "Bc3RgbaUnormSrgb",
        "Bc4RSnorm",
        "Bc4RUnorm",
        "Bc5RgSnorm",
        "Bc5RgUnorm",
        "Bc6hRgbSfloat",
        "Bc6hRgbUfloat",
        "Bc7RgbaUnorm",
        "Bc7RgbaUnormSrgb",
        "Bgra8Unorm",
        "Bgra8UnormSrgb",
        "Depth24Plus",
        "Depth24PlusStencil8",
        "Depth32Float",
        "EacR11Snorm",
        "EacR11Unorm",
        "EacRg11Snorm",
        "EacRg11Unorm",
        "Etc2Rgb8A1Unorm",
        "Etc2Rgb8A1UnormSrgb",
        "Etc2Rgb8Unorm",
        "Etc2Rgb8UnormSrgb",
        "Etc2Rgba8Unorm",
        "Etc2Rgba8UnormSrgb",
        "R16Float",
        "R16Sint",
        "R16Snorm",
        "R16Uint",
        "R16Unorm",
        "R32Float",
        "R32Sint",
        "R32Uint",
        "R8Sint",
        "R8Snorm",
        "R8Uint",
        "R8Unorm",
        "Rg11b10Float",
        "Rg16Float",
        "Rg16Sint",
        "Rg16Snorm",
        "Rg16Uint",
        "Rg16Unorm",
        "Rg32Float",
        "Rg32Sint",
        "Rg32Uint",
        "Rg8Sint",
        "Rg8Snorm",
        "Rg8Uint",
        "Rg8Unorm",
        "Rgb10a2Unorm",
        "Rgb9e5Ufloat",
        "Rgba16Float",
        "Rgba16Sint",
        "Rgba16Snorm",
        "Rgba16Uint",
        "Rgba16Unorm",
        "Rgba32Float",
        "Rgba32Sint",
        "Rgba32Uint",
        "Rgba8Sint",
        "Rgba8Snorm",
        "Rgba8Uint",
        "Rgba8Unorm",
        "Rgba8UnormSrgb",
    ]
}

/// What a texture format is, as wgpu describes it: components, block size,
/// block dimensions, whether it is sRGB, how it is sampled, the features it
/// needs, and the usages and flags it guarantees (each as bits).
pub type Description = (u8, u8, (u8, u8), bool, SampleType, u64, u32, u32);

/// What wgpu's `TextureFormat::describe` gives for the format this table
/// names `name`: the wgpu variant of that name, or for the `Astc` names the
/// `Astc` variant with that block size and channel (`Unorm`, or `UnormSrgb`
/// for the names that end in `Srgb`).
pub uninterp spec fn described_format(name: Seq<char>) -> (u8, u8, (u8, u8), bool, SampleType, u64, u32, u32);

/// wgpu's `TextureFormat::describe` of each format named `Astc10x10RgbaUnorm`
/// to `Astc8x8RgbaUnorm`, as plain values: every other row of the table from
/// position 0, with channel `Unorm`. The order of the formats is the table's.
#[verifier::external_body]
fn wgpu_describe_astc_unorm() -> (r: Vec<Description>)
    ensures
        r@.len() == 14,
        forall|i: int| 0 <= i < 14 ==> #[trigger] r@[i] == described_format(texture_format_names()[2 * i]@),
{
    let d = |f: F| {
        let i = f.describe();
        (i.components, i.block_size, i.block_dimensions, i.srgb, match i.sample_type {
            S::Float { filterable } => SampleType::Float { filterable },
            S::Depth => SampleType::Depth, S::Sint => SampleType::Sint, S::Uint => SampleType::Uint,
        }, i.required_features.bits(), i.guaranteed_format_features.allowed_usages.bits(),
            i.guaranteed_format_features.flags.bits())
    };
    [B::B10x10, B::B10x5, B::B10x6, B::B10x8, B::B12x10, B::B12x12, B::B4x4,
        B::B5x4, B::B5x5, B::B6x5, B::B6x6, B::B8x5, B::B8x6, B::B8x8].into_iter()
        .map(|block| d(F::Astc { block, channel: C::Unorm })).collect()
}

/// wgpu's `TextureFormat::describe` of each format named
/// `Astc10x10RgbaUnormSrgb` to `Astc8x8RgbaUnormSrgb`, as plain values: every
/// other row of the table from position 1, with channel `UnormSrgb`. The order
/// of the formats is the table's.
#[verifier::external_body]
fn wgpu_describe_astc_srgb() -> (r: Vec<Description>)
    ensures
        r@.len() == 14,
        forall|i: int| 0 <= i < 14 ==> #[trigger] r@[i] == described_format(texture_format_names()[2 * i + 1]@),
{
    let d = |f: F| {
        let i = f.describe();
        (i.components, i.block_size, i.block_dimensions, i.srgb, match i.sample_type {
            S::Float { filterable } => SampleType::Float { filterable },
            S::Depth => SampleType::Depth, S::Sint => SampleType::Sint, S::Uint => SampleType::Uint,
        }, i.required_features.bits(), i.guaranteed_format_features.allowed_usages.bits(),
            i.guaranteed_format_features.flags.bits())
    };
    [B::B10x10, B::B10x5, B::B10x6, B::B10x8, B::B12x10, B::B12x12, B::B4x4,
        B::B5x4, B::B5x5, B::B6x5, B::B6x6, B::B8x5, B::B8x6, B::B8x8].into_iter()
        .map(|block| d(F::Astc { block, channel: C::UnormSrgb })).collect()
}

/// wgpu's `TextureFormat::describe` of each format named `Bc1RgbaUnorm` to
/// `Depth24PlusStencil8`, as plain values: rows 28 to 45 of the table. The
/// order of the formats is the table's.
#[verifier::external_body]
fn wgpu_describe_rows_28() -> (r: Vec<Description>)
    ensures
        r@.len() == 18,
        forall|i: int| 0 <= i < 18 ==> #[trigger] r@[i] == described_format(texture_format_names()[i + 28]@),
{
    let d = |f: F| {
        let i = f.describe();
        (i.components, i.block_size, i.block_dimensions, i.srgb, match i.sample_type {
            S::Float { filterable } => SampleType::Float { filterable },
            S::Depth => SampleType::Depth, S::Sint => SampleType::Sint, S::Uint => SampleType::Uint,
        }, i.required_features.bits(), i.guaranteed_format_features.allowed_usages.bits(),
            i.guaranteed_format_features.flags.bits())
    };
    [F::Bc1RgbaUnorm, F::Bc1RgbaUnormSrgb, F::Bc2RgbaUnorm, F::Bc2RgbaUnormSrgb, F::Bc3RgbaUnorm, F::Bc3RgbaUnormSrgb,
        F::Bc4RSnorm, F::Bc4RUnorm, F::Bc5RgSnorm, F::Bc5RgUnorm, F::Bc6hRgbSfloat, F::Bc6hRgbUfloat,
        F::Bc7RgbaUnorm, F::Bc7RgbaUnormSrgb, F::Bgra8Unorm, F::Bgra8UnormSrgb, F::Depth24Plus, F::Depth24PlusStencil8].into_iter().map(d).collect()
}

/// wgpu's `TextureFormat::describe` of each format named `Depth32Float` to
/// `R32Float`, as plain values: rows 46 to 62 of the table. The order of the
/// formats is the table's.
#[verifier::external_body]
fn wgpu_describe_rows_46() -> (r: Vec<Description>)
    ensures
        r@.len() == 17,
        forall|i: int| 0 <= i < 17 ==> #[trigger] r@[i] == described_format(texture_format_names()[i + 46]@),
{
    let d = |f: F| {
        let i = f.describe();
        (i.components, i.block_size, i.block_dimensions, i.srgb, match i.sample_type {
            S::Float { filterable } => SampleType::Float { filterable },
            S::Depth => SampleType::Depth, S::Sint => SampleType::Sint, S::Uint => SampleType::Uint,
        }, i.required_features.bits(), i.guaranteed_format_features.allowed_usages.bits(),
            i.guaranteed_format_features.flags.bits())
    };
    [F::Depth32Float, F::EacR11Snorm, F::EacR11Unorm, F::EacRg11Snorm, F::EacRg11Unorm, F::Etc2Rgb8A1Unorm,
        F::Etc2Rgb8A1UnormSrgb, F::Etc2Rgb8Unorm, F::Etc2Rgb8UnormSrgb, F::Etc2Rgba8Unorm, F::Etc2Rgba8UnormSrgb, F::R16Float,
        F::R16Sint, F::R16Snorm, F::R16Uint, F::R16Unorm, F::R32Float].into_iter().map(d).collect()
}

/// wgpu's `TextureFormat::describe` of each format named `R32Sint` to
/// `Rg8Snorm`, as plain values: rows 63 to 79 of the table. The order of the
/// formats is the table's.
#[verifier::external_body]
fn wgpu_describe_rows_63() -> (r: Vec<Description>)
    ensures
        r@.len() == 17,
        forall|i: int| 0 <= i < 17 ==> #[trigger] r@[i] == described_format(texture_format_names()[i + 63]@),
{
    let d = |f: F| {
        let i = f.describe();
        (i.components, i.block_size, i.block_dimensions, i.srgb, match i.sample_type {
            S::Float { filterable } => SampleType::Float { filterable },
            S::Depth => SampleType::Depth, S::Sint => SampleType::Sint, S::Uint => SampleType::Uint,
        }, i.required_features.bits(), i.guaranteed_format_features.allowed_usages.bits(),
            i.guaranteed_format_features.flags.bits())
    };
    [F::R32Sint, F::R32Uint, F::R8Sint, F::R8Snorm, F::R8Uint, F::R8Unorm,
        F::Rg11b10Float, F::Rg16Float, F::Rg16Sint, F::Rg16Snorm, F::Rg16Uint, F::Rg16Unorm,
        F::Rg32Float, F::Rg32Sint, F::Rg32Uint, F::Rg8Sint, F::Rg8Snorm].into_iter().map(d).collect()
}

/// wgpu's `TextureFormat::describe` of each format named `Rg8Uint` to
/// `Rgba8UnormSrgb`, as plain values: rows 80 to 96 of the table. The order of
/// the formats is the table's.
#[verifier::external_body]
fn wgpu_describe_rows_80() -> (r: Vec<Description>)
    ensures
        r@.len() == 17,
        forall|i: int| 0 <= i < 17 ==> #[trigger] r@[i] == described_format(texture_format_names()[i + 80]@),
{
    let d = |f: F| {
        let i = f.describe();
        (i.components, i.block_size, i.block_dimensions, i.srgb, match i.sample_type {
            S::Float { filterable } => SampleType::Float { filterable },
            S::Depth => SampleType::Depth, S::Sint => SampleType::Sint, S::Uint => SampleType::Uint,
        }, i.required_features.bits(), i.guaranteed_format_features.allowed_usages.bits(),
            i.guaranteed_format_features.flags.bits())
    };
    [F::Rg8Uint, F::Rg8Unorm, F::Rgb10a2Unorm, F::Rgb9e5Ufloat, F::Rgba16Float, F::Rgba16Sint,
        F::Rgba16Snorm, F::Rgba16Uint, F::Rgba16Unorm, F::Rgba32Float, F::Rgba32Sint, F::Rgba32Uint,
        F::Rgba8Sint, F::Rgba8Snorm, F::Rgba8Uint, F::Rgba8Unorm, F::Rgba8UnormSrgb].into_iter().map(d).collect()
}

/// Whether `row` is the table's row for the format named `name`: that name
/// and what wgpu says of the format.
pub open spec fn is_format_row(row: TextureFormatInfo, name: Seq<char>) -> bool {
    &&& row.name@ == name
    &&& (row.components, row.block_size, row.block_dimensions, row.srgb, row.sample_type,
        row.required_features, row.allowed_usages, row.flags) == described_format(name)
}

/// Every texture format, one row each, in table order: the names strictly
/// ascend, so each format appears once.
pub fn texture_formats_info() -> (r: Vec<TextureFormatInfo>)
    ensures
        r@.len() == TEXTURE_FORMAT_COUNT,
        forall|i: int| 0 <= i < TEXTURE_FORMAT_COUNT ==> is_format_row(#[trigger] r@[i], texture_format_names()[i]@),
        forall|i: int, j: int|
            0 <= i < j < TEXTURE_FORMAT_COUNT ==> text_order(#[trigger] r@[i].name@, #[trigger] r@[j].name@)
                == NameOrder::Less,
{
    let names = format_names();
    let astc_unorm = wgpu_describe_astc_unorm();
    let astc_srgb = wgpu_describe_astc_srgb();
    let rows_28 = wgpu_describe_rows_28();
    let rows_46 = wgpu_describe_rows_46();
    let rows_63 = wgpu_describe_rows_63();
    let rows_80 = wgpu_describe_rows_80();
    let mut r: Vec<TextureFormatInfo> = Vec::new();
    let mut i: usize = 0;
    while i < TEXTURE_FORMAT_COUNT
        invariant
            names@ == texture_format_names(),
            astc_unorm@.len() == 14,
            forall|k: int| 0 <= k < 14 ==> #[trigger] astc_unorm@[k] == described_format(texture_format_names()[2 * k]@),
            astc_srgb@.len() == 14,
            forall|k: int| 0 <= k < 14 ==> #[trigger] astc_srgb@[k] == described_format(texture_format_names()[2 * k + 1]@),
            rows_28@.len() == 18,
            forall|k: int| 0 <= k < 18 ==> #[trigger] rows_28@[k] == described_format(texture_format_names()[k + 28]@),
            rows_46@.len() == 17,
            forall|k: int| 0 <= k < 17 ==> #[trigger] rows_46@[k] == described_format(texture_format_names()[k + 46]@),
            rows_63@.len() == 17,
            forall|k: int| 0 <= k < 17 ==> #[trigger] rows_63@[k] == described_format(texture_format_names()[k + 63]@),
            rows_80@.len() == 17,
            forall|k: int| 0 <= k < 17 ==> #[trigger] rows_80@[k] == described_format(texture_format_names()[k + 80]@),
            i <= TEXTURE_FORMAT_COUNT,
            r@.len() == i,
            forall|k: int| 0 <= k < i ==> is_format_row(#[trigger] r@[k], texture_format_names()[k]@),
        decreases TEXTURE_FORMAT_COUNT - i,
    {
        let d: Description = if i < 28 {
            if i % 2 == 0 {
                astc_unorm[i / 2]
            } else {
                astc_srgb[i / 2]
            }
        } else if i < 46 {
            rows_28[i - 28]
        } else if i < 63 {
            rows_46[i - 46]
        } else if i < 80 {
            rows_63[i - 63]
        } else {
            rows_80[i - 80]
        };
        proof {
            if i < 28 {
                let k = (i / 2) as int;
                if i % 2 == 0 {
                    assert(astc_unorm@[k] == described_format(texture_format_names()[2 * k]@));
                } else {
                    assert(astc_srgb@[k] == described_format(texture_format_names()[2 * k + 1]@));
                }
            }
        }
        r.push(
            TextureFormatInfo {
                name: String::from_str(names[i]),
                components: d.0,
                block_size: d.1,
                block_dimensions: d.2,
                srgb: d.3,
                sample_type: d.4,
                required_features: d.5,
                allowed_usages: d.6,
                flags: d.7,
            },
        );
        i = i + 1;
    }
    proof {
        lemma_format_names_ascending();
        assert forall|i: int, j: int| 0 <= i < j < TEXTURE_FORMAT_COUNT implies text_order(
            #[trigger] r@[i].name@,
            #[trigger] r@[j].name@,
        ) == NameOrder::Less by {
            assert(is_format_row(r@[i], texture_format_names()[i]@));
            assert(is_format_row(r@[j], texture_format_names()[j]@));
        }
    }
    r
}


/// The name at position `k` of the table comes before the next one.
pub open spec fn ascending_at(k: int) -> bool {
    text_order(texture_format_names()[k]@, texture_format_names()[k + 1]@) == NameOrder::Less
}

proof fn lemma_ascending_from_0(k: int)
    requires
        0 <= k < 24,
    ensures
        ascending_at(k),
{
    reveal_with_fuel(text_order, 24);
    if k == 0 {
        reveal_strlit("Astc10x10RgbaUnorm");
        reveal_strlit("Astc10x10RgbaUnormSrgb");
        assert(texture_format_names()[0] == "Astc10x10RgbaUnorm");
        assert(texture_format_names()[1] == "Astc10x10RgbaUnormSrgb");
    } else if k == 1 {
        reveal_strlit("Astc10x10RgbaUnormSrgb");
        reveal_strlit("Astc10x5RgbaUnorm");
        assert(texture_format_names()[1] == "Astc10x10RgbaUnormSrgb");
        assert(texture_format_names()[2] == "Astc10x5RgbaUnorm");
    } else if k == 2 {
        reveal_strlit("Astc10x5RgbaUnorm");
        reveal_strlit("Astc10x5RgbaUnormSrgb");
        assert(texture_format_names()[2] == "Astc10x5RgbaUnorm");
        assert(texture_format_names()[3] == "Astc10x5RgbaUnormSrgb");
    } else if k == 3 {
        reveal_strlit("Astc10x5RgbaUnormSrgb");
        reveal_strlit("Astc10x6RgbaUnorm");
        assert(texture_format_names()[3] == "Astc10x5RgbaUnormSrgb");
        assert(texture_format_names()[4] == "Astc10x6RgbaUnorm");
    } else if k == 4 {
        reveal_strlit("Astc10x6RgbaUnorm");
        reveal_strlit("Astc10x6RgbaUnormSrgb");
        assert(texture_format_names()[4] == "Astc10x6RgbaUnorm");
        assert(texture_format_names()[5] == "Astc10x6RgbaUnormSrgb");
    } else if k == 5 {
        reveal_strlit("Astc10x6RgbaUnormSrgb");
        reveal_strlit("Astc10x8RgbaUnorm");
        assert(texture_format_names()[5] == "Astc10x6RgbaUnormSrgb");
        assert(texture_format_names()[6] == "Astc10x8RgbaUnorm");
    } else if k == 6 {
        reveal_strlit("Astc10x8RgbaUnorm");
        reveal_strlit("Astc10x8RgbaUnormSrgb");
        assert(texture_format_names()[6] == "Astc10x8RgbaUnorm");
        assert(texture_format_names()[7] == "Astc10x8RgbaUnormSrgb");
    } else if k == 7 {
        reveal_strlit("Astc10x8RgbaUnormSrgb");
        reveal_strlit("Astc12x10RgbaUnorm");
        assert(texture_format_names()[7] == "Astc10x8RgbaUnormSrgb");
        assert(texture_format_names()[8] == "Astc12x10RgbaUnorm");
    } else if k == 8 {
        reveal_strlit("Astc12x10RgbaUnorm");
        reveal_strlit("Astc12x10RgbaUnormSrgb");
        assert(texture_format_names()[8] == "Astc12x10RgbaUnorm");
        assert(texture_format_names()[9] == "Astc12x10RgbaUnormSrgb");
    } else if k == 9 {
        reveal_strlit("Astc12x10RgbaUnormSrgb");
        reveal_strlit("Astc12x12RgbaUnorm");
        assert(texture_format_names()[9] == "Astc12x10RgbaUnormSrgb");
        assert(texture_format_names()[10] == "Astc12x12RgbaUnorm");
    } else if k == 10 {
        reveal_strlit("Astc12x12RgbaUnorm");
        reveal_strlit("Astc12x12RgbaUnormSrgb");
        assert(texture_format_names()[10] == "Astc12x12RgbaUnorm");
        assert(texture_format_names()[11] == "Astc12x12RgbaUnormSrgb");
    } else if k == 11 {
        reveal_strlit("Astc12x12RgbaUnormSrgb");
        reveal_strlit("Astc4x4RgbaUnorm");
        assert(texture_format_names()[11] == "Astc12x12RgbaUnormSrgb");
        assert(texture_format_names()[12] == "Astc4x4RgbaUnorm");
    } else if k == 12 {
        reveal_strlit("Astc4x4RgbaUnorm");
        reveal_strlit("Astc4x4RgbaUnormSrgb");
        assert(texture_format_names()[12] == "Astc4x4RgbaUnorm");
        assert(texture_format_names()[13] == "Astc4x4RgbaUnormSrgb");
    } else if k == 13 {
        reveal_strlit("Astc4x4RgbaUnormSrgb");
        reveal_strlit("Astc5x4RgbaUnorm");
        assert(texture_format_names()[13] == "Astc4x4RgbaUnormSrgb");
        assert(texture_format_names()[14] == "Astc5x4RgbaUnorm");
    } else if k == 14 {
        reveal_strlit("Astc5x4RgbaUnorm");
        reveal_strlit("Astc5x4RgbaUnormSrgb");
        assert(texture_format_names()[14] == "Astc5x4RgbaUnorm");
        assert(texture_format_names()[15] == "Astc5x4RgbaUnormSrgb");
    } else if k == 15 {
        reveal_strlit("Astc5x4RgbaUnormSrgb");
        reveal_strlit("Astc5x5RgbaUnorm");
        assert(texture_format_names()[15] == "Astc5x4RgbaUnormSrgb");
        assert(texture_format_names()[16] == "Astc5x5RgbaUnorm");
    } else if k == 16 {
        reveal_strlit("Astc5x5RgbaUnorm");
        reveal_strlit("Astc5x5RgbaUnormSrgb");
        assert(texture_format_names()[16] == "Astc5x5RgbaUnorm");
        assert(texture_format_names()[17] == "Astc5x5RgbaUnormSrgb");
    } else if k == 17 {
        reveal_strlit("Astc5x5RgbaUnormSrgb");
        reveal_strlit("Astc6x5RgbaUnorm");
        assert(texture_format_names()[17] == "Astc5x5RgbaUnormSrgb");
        assert(texture_format_names()[18] == "Astc6x5RgbaUnorm");
    } else if k == 18 {
        reveal_strlit("Astc6x5RgbaUnorm");
        reveal_strlit("Astc6x5RgbaUnormSrgb");
        assert(texture_format_names()[18] == "Astc6x5RgbaUnorm");
        assert(texture_format_names()[19] == "Astc6x5RgbaUnormSrgb");
    } else if k == 19 {
        reveal_strlit("Astc6x5RgbaUnormSrgb");
        reveal_strlit("Astc6x6RgbaUnorm");
        assert(texture_format_names()[19] == "Astc6x5RgbaUnormSrgb");
        assert(texture_format_names()[20] == "Astc6x6RgbaUnorm");
    } else if k == 20 {
        reveal_strlit("Astc6x6RgbaUnorm");
        reveal_strlit("Astc6x6RgbaUnormSrgb");
        assert(texture_format_names()[20] == "Astc6x6RgbaUnorm");
        assert(texture_format_names()[21] == "Astc6x6RgbaUnormSrgb");
    } else if k == 21 {
        reveal_strlit("Astc6x6RgbaUnormSrgb");
        reveal_strlit("Astc8x5RgbaUnorm");
        assert(texture_format_names()[21] == "Astc6x6RgbaUnormSrgb");
        assert(texture_format_names()[22] == "Astc8x5RgbaUnorm");
    } else if k == 22 {
        reveal_strlit("Astc8x5RgbaUnorm");
        reveal_strlit("Astc8x5RgbaUnormSrgb");
        assert(texture_format_names()[22] == "Astc8x5RgbaUnorm");
        assert(texture_format_names()[23] == "Astc8x5RgbaUnormSrgb");
    } else if k == 23 {
        reveal_strlit("Astc8x5RgbaUnormSrgb");
        reveal_strlit("Astc8x6RgbaUnorm");
        assert(texture_format_names()[23] == "Astc8x5RgbaUnormSrgb");
        assert(texture_format_names()[24] == "Astc8x6RgbaUnorm");
    }
}

proof fn lemma_ascending_from_24(k: int)
    requires
        24 <= k < 48,
    ensures
        ascending_at(k),
{
    reveal_with_fuel(text_order, 24);
    if k == 24 {
        reveal_strlit("Astc8x6RgbaUnorm");
        reveal_strlit("Astc8x6RgbaUnormSrgb");
        assert(texture_format_names()[24] == "Astc8x6RgbaUnorm");
        assert(texture_format_names()[25] == "Astc8x6RgbaUnormSrgb");
    } else if k == 25 {
        reveal_strlit("Astc8x6RgbaUnormSrgb");
        reveal_strlit("Astc8x8RgbaUnorm");
        assert(texture_format_names()[25] == "Astc8x6RgbaUnormSrgb");
        assert(texture_format_names()[26] == "Astc8x8RgbaUnorm");
    } else if k == 26 {
        reveal_strlit("Astc8x8RgbaUnorm");
        reveal_strlit("Astc8x8RgbaUnormSrgb");
        assert(texture_format_names()[26] == "Astc8x8RgbaUnorm");
        assert(texture_format_names()[27] == "Astc8x8RgbaUnormSrgb");
    } else if k == 27 {
        reveal_strlit("Astc8x8RgbaUnormSrgb");
        reveal_strlit("Bc1RgbaUnorm");
        assert(texture_format_names()[27] == "Astc8x8RgbaUnormSrgb");
        assert(texture_format_names()[28] == "Bc1RgbaUnorm");
    } else if k == 28 {
        reveal_strlit("Bc1RgbaUnorm");
        reveal_strlit("Bc1RgbaUnormSrgb");
        assert(texture_format_names()[28] == "Bc1RgbaUnorm");
        assert(texture_format_names()[29] == "Bc1RgbaUnormSrgb");
    } else if k == 29 {
        reveal_strlit("Bc1RgbaUnormSrgb");
        reveal_strlit("Bc2RgbaUnorm");
        assert(texture_format_names()[29] == "Bc1RgbaUnormSrgb");
        assert(texture_format_names()[30] == "Bc2RgbaUnorm");
    } else if k == 30 {
        reveal_strlit("Bc2RgbaUnorm");
        reveal_strlit("Bc2RgbaUnormSrgb");
        assert(texture_format_names()[30] == "Bc2RgbaUnorm");
        assert(texture_format_names()[31] == "Bc2RgbaUnormSrgb");
    } else if k == 31 {
        reveal_strlit("Bc2RgbaUnormSrgb");
        reveal_strlit("Bc3RgbaUnorm");
        assert(texture_format_names()[31] == "Bc2RgbaUnormSrgb");
        assert(texture_format_names()[32] == "Bc3RgbaUnorm");
    } else if k == 32 {
        reveal_strlit("Bc3RgbaUnorm");
        reveal_strlit("Bc3RgbaUnormSrgb");
        assert(texture_format_names()[32] == "Bc3RgbaUnorm");
        assert(texture_format_names()[33] == "Bc3RgbaUnormSrgb");
    } else if k == 33 {
        reveal_strlit("Bc3RgbaUnormSrgb");
        reveal_strlit("Bc4RSnorm");
        assert(texture_format_names()[33] == "Bc3RgbaUnormSrgb");
        assert(texture_format_names()[34] == "Bc4RSnorm");
    } else if k == 34 {
        reveal_strlit("Bc4RSnorm");
        reveal_strlit("Bc4RUnorm");
        assert(texture_format_names()[34] == "Bc4RSnorm");
        assert(texture_format_names()[35] == "Bc4RUnorm");
    } else if k == 35 {
        reveal_strlit("Bc4RUnorm");
        reveal_strlit("Bc5RgSnorm");
        assert(texture_format_names()[35] == "Bc4RUnorm");
        assert(texture_format_names()[36] == "Bc5RgSnorm");
    } else if k == 36 {
        reveal_strlit("Bc5RgSnorm");
        reveal_strlit("Bc5RgUnorm");
        assert(texture_format_names()[36] == "Bc5RgSnorm");
        assert(texture_format_names()[37] == "Bc5RgUnorm");
    } else if k == 37 {
        reveal_strlit("Bc5RgUnorm");
        reveal_strlit("Bc6hRgbSfloat");
        assert(texture_format_names()[37] == "Bc5RgUnorm");
        assert(texture_format_names()[38] == "Bc6hRgbSfloat");
    } else if k == 38 {
        reveal_strlit("Bc6hRgbSfloat");
        reveal_strlit("Bc6hRgbUfloat");
        assert(texture_format_names()[38] == "Bc6hRgbSfloat");
        assert(texture_format_names()[39] == "Bc6hRgbUfloat");
    } else if k == 39 {
        reveal_strlit("Bc6hRgbUfloat");
        reveal_strlit("Bc7RgbaUnorm");
        assert(texture_format_names()[39] == "Bc6hRgbUfloat");
        assert(texture_format_names()[40] == "Bc7RgbaUnorm");
    } else if k == 40 {
        reveal_strlit("Bc7RgbaUnorm");
        reveal_strlit("Bc7RgbaUnormSrgb");
        assert(texture_format_names()[40] == "Bc7RgbaUnorm");
        assert(texture_format_names()[41] == "Bc7RgbaUnormSrgb");
    } else if k == 41 {
        reveal_strlit("Bc7RgbaUnormSrgb");
        reveal_strlit("Bgra8Unorm");
        assert(texture_format_names()[41] == "Bc7RgbaUnormSrgb");
        assert(texture_format_names()[42] == "Bgra8Unorm");
    } else if k == 42 {
        reveal_strlit("Bgra8Unorm");
        reveal_strlit("Bgra8UnormSrgb");
        assert(texture_format_names()[42] == "Bgra8Unorm");
        assert(texture_format_names()[43] == "Bgra8UnormSrgb");
    } else if k == 43 {
        reveal_strlit("Bgra8UnormSrgb");
        reveal_strlit("Depth24Plus");
        assert(texture_format_names()[43] == "Bgra8UnormSrgb");
        assert(texture_format_names()[44] == "Depth24Plus");
    } else if k == 44 {
        reveal_strlit("Depth24Plus");
        reveal_strlit("Depth24PlusStencil8");
        assert(texture_format_names()[44] == "Depth24Plus");
        assert(texture_format_names()[45] == "Depth24PlusStencil8");
    } else if k == 45 {
        reveal_strlit("Depth24PlusStencil8");
        reveal_strlit("Depth32Float");
        assert(texture_format_names()[45] == "Depth24PlusStencil8");
        assert(texture_format_names()[46] == "Depth32Float");
    } else if k == 46 {
        reveal_strlit("Depth32Float");
        reveal_strlit("EacR11Snorm");
        assert(texture_format_names()[46] == "Depth32Float");
        assert(texture_format_names()[47] == "EacR11Snorm");
    } else if k == 47 {
        reveal_strlit("EacR11Snorm");
        reveal_strlit("EacR11Unorm");
        assert(texture_format_names()[47] == "EacR11Snorm");
        assert(texture_format_names()[48] == "EacR11Unorm");
    }
}

proof fn lemma_ascending_from_48(k: int)
    requires
        48 <= k < 72,
    ensures
        ascending_at(k),
{
    reveal_with_fuel(text_order, 24);
    if k == 48 {
        reveal_strlit("EacR11Unorm");
        reveal_strlit("EacRg11Snorm");
        assert(texture_format_names()[48] == "EacR11Unorm");
        assert(texture_format_names()[49] == "EacRg11Snorm");
    } else if k == 49 {
        reveal_strlit("EacRg11Snorm");
        reveal_strlit("EacRg11Unorm");
        assert(texture_format_names()[49] == "EacRg11Snorm");
        assert(texture_format_names()[50] == "EacRg11Unorm");
    } else if k == 50 {
        reveal_strlit("EacRg11Unorm");
        reveal_strlit("Etc2Rgb8A1Unorm");
        assert(texture_format_names()[50] == "EacRg11Unorm");
        assert(texture_format_names()[51] == "Etc2Rgb8A1Unorm");
    } else if k == 51 {
        reveal_strlit("Etc2Rgb8A1Unorm");
        reveal_strlit("Etc2Rgb8A1UnormSrgb");
        assert(texture_format_names()[51] == "Etc2Rgb8A1Unorm");
        assert(texture_format_names()[52] == "Etc2Rgb8A1UnormSrgb");
    } else if k == 52 {
        reveal_strlit("Etc2Rgb8A1UnormSrgb");
        reveal_strlit("Etc2Rgb8Unorm");
        assert(texture_format_names()[52] == "Etc2Rgb8A1UnormSrgb");
        assert(texture_format_names()[53] == "Etc2Rgb8Unorm");
    } else if k == 53 {
        reveal_strlit("Etc2Rgb8Unorm");
        reveal_strlit("Etc2Rgb8UnormSrgb");
        assert(texture_format_names()[53] == "Etc2Rgb8Unorm");
        assert(texture_format_names()[54] == "Etc2Rgb8UnormSrgb");
    } else if k == 54 {
        reveal_strlit("Etc2Rgb8UnormSrgb");
        reveal_strlit("Etc2Rgba8Unorm");
        assert(texture_format_names()[54] == "Etc2Rgb8UnormSrgb");
        assert(texture_format_names()[55] == "Etc2Rgba8Unorm");
    } else if k == 55 {
        reveal_strlit("Etc2Rgba8Unorm");
        reveal_strlit("Etc2Rgba8UnormSrgb");
        assert(texture_format_names()[55] == "Etc2Rgba8Unorm");
        assert(texture_format_names()[56] == "Etc2Rgba8UnormSrgb");
    } else if k == 56 {
        reveal_strlit("Etc2Rgba8UnormSrgb");
        reveal_strlit("R16Float");
        assert(texture_format_names()[56] == "Etc2Rgba8UnormSrgb");
        assert(texture_format_names()[57] == "R16Float");
    } else if k == 57 {
        reveal_strlit("R16Float");
        reveal_strlit("R16Sint");
        assert(texture_format_names()[57] == "R16Float");
        assert(texture_format_names()[58] == "R16Sint");
    } else if k == 58 {
        reveal_strlit("R16Sint");
        reveal_strlit("R16Snorm");
        assert(texture_format_names()[58] == "R16Sint");
        assert(texture_format_names()[59] == "R16Snorm");
    } else if k == 59 {
        reveal_strlit("R16Snorm");
        reveal_strlit("R16Uint");
        assert(texture_format_names()[59] == "R16Snorm");
        assert(texture_format_names()[60] == "R16Uint");
    } else if k == 60 {
        reveal_strlit("R16Uint");
        reveal_strlit("R16Unorm");
        assert(texture_format_names()[60] == "R16Uint");
        assert(texture_format_names()[61] == "R16Unorm");
    } else if k == 61 {
        reveal_strlit("R16Unorm");
        reveal_strlit("R32Float");
        assert(texture_format_names()[61] == "R16Unorm");
        assert(texture_format_names()[62] == "R32Float");
    } else if k == 62 {
        reveal_strlit("R32Float");
        reveal_strlit("R32Sint");
        assert(texture_format_names()[62] == "R32Float");
        assert(texture_format_names()[63] == "R32Sint");
    } else if k == 63 {
        reveal_strlit("R32Sint");
        reveal_strlit("R32Uint");
        assert(texture_format_names()[63] == "R32Sint");
        assert(texture_format_names()[64] == "R32Uint");
    } else if k == 64 {
        reveal_strlit("R32Uint");
        reveal_strlit("R8Sint");
        assert(texture_format_names()[64] == "R32Uint");
        assert(texture_format_names()[65] == "R8Sint");
    } else if k == 65 {
        reveal_strlit("R8Sint");
        reveal_strlit("R8Snorm");
        assert(texture_format_names()[65] == "R8Sint");
        assert(texture_format_names()[66] == "R8Snorm");
    } else if k == 66 {
        reveal_strlit("R8Snorm");
        reveal_strlit("R8Uint");
        assert(texture_format_names()[66] == "R8Snorm");
        assert(texture_format_names()[67] == "R8Uint");
    } else if k == 67 {
        reveal_strlit("R8Uint");
        reveal_strlit("R8Unorm");
        assert(texture_format_names()[67] == "R8Uint");
        assert(texture_format_names()[68] == "R8Unorm");
    } else if k == 68 {
        reveal_strlit("R8Unorm");
        reveal_strlit("Rg11b10Float");
        assert(texture_format_names()[68] == "R8Unorm");
        assert(texture_format_names()[69] == "Rg11b10Float");
    } else if k == 69 {
        reveal_strlit("Rg11b10Float");
        reveal_strlit("Rg16Float");
        assert(texture_format_names()[69] == "Rg11b10Float");
        assert(texture_format_names()[70] == "Rg16Float");
    } else if k == 70 {
        reveal_strlit("Rg16Float");
        reveal_strlit("Rg16Sint");
        assert(texture_format_names()[70] == "Rg16Float");
        assert(texture_format_names()[71] == "Rg16Sint");
    } else if k == 71 {
        reveal_strlit("Rg16Sint");
        reveal_strlit("Rg16Snorm");
        assert(texture_format_names()[71] == "Rg16Sint");
        assert(texture_format_names()[72] == "Rg16Snorm");
    }
}

proof fn lemma_ascending_from_72(k: int)
    requires
        72 <= k < 96,
    ensures
        ascending_at(k),
{
    reveal_with_fuel(text_order, 24);
    if k == 72 {
        reveal_strlit("Rg16Snorm");
        reveal_strlit("Rg16Uint");
        assert(texture_format_names()[72] == "Rg16Snorm");
        assert(texture_format_names()[73] == "Rg16Uint");
    } else if k == 73 {
        reveal_strlit("Rg16Uint");
        reveal_strlit("Rg16Unorm");
        assert(texture_format_names()[73] == "Rg16Uint");
        assert(texture_format_names()[74] == "Rg16Unorm");
    } else if k == 74 {
        reveal_strlit("Rg16Unorm");
        reveal_strlit("Rg32Float");
        assert(texture_format_names()[74] == "Rg16Unorm");
        assert(texture_format_names()[75] == "Rg32Float");
    } else if k == 75 {
        reveal_strlit("Rg32Float");
        reveal_strlit("Rg32Sint");
        assert(texture_format_names()[75] == "Rg32Float");
        assert(texture_format_names()[76] == "Rg32Sint");
    } else if k == 76 {
        reveal_strlit("Rg32Sint");
        reveal_strlit("Rg32Uint");
        assert(texture_format_names()[76] == "Rg32Sint");
        assert(texture_format_names()[77] == "Rg32Uint");
    } else if k == 77 {
        reveal_strlit("Rg32Uint");
        reveal_strlit("Rg8Sint");
        assert(texture_format_names()[77] == "Rg32Uint");
        assert(texture_format_names()[78] == "Rg8Sint");
    } else if k == 78 {
        reveal_strlit("Rg8Sint");
        reveal_strlit("Rg8Snorm");
        assert(texture_format_names()[78] == "Rg8Sint");
        assert(texture_format_names()[79] == "Rg8Snorm");
    } else if k == 79 {
        reveal_strlit("Rg8Snorm");
        reveal_strlit("Rg8Uint");
        assert(texture_format_names()[79] == "Rg8Snorm");
        assert(texture_format_names()[80] == "Rg8Uint");
    } else if k == 80 {
        reveal_strlit("Rg8Uint");
        reveal_strlit("Rg8Unorm");
        assert(texture_format_names()[80] == "Rg8Uint");
        assert(texture_format_names()[81] == "Rg8Unorm");
    } else if k == 81 {
        reveal_strlit("Rg8Unorm");
        reveal_strlit("Rgb10a2Unorm");
        assert(texture_format_names()[81] == "Rg8Unorm");
        assert(texture_format_names()[82] == "Rgb10a2Unorm");
    } else if k == 82 {
        reveal_strlit("Rgb10a2Unorm");
        reveal_strlit("Rgb9e5Ufloat");
        assert(texture_format_names()[82] == "Rgb10a2Unorm");
        assert(texture_format_names()[83] == "Rgb9e5Ufloat");
    } else if k == 83 {
        reveal_strlit("Rgb9e5Ufloat");
        reveal_strlit("Rgba16Float");
        assert(texture_format_names()[83] == "Rgb9e5Ufloat");
        assert(texture_format_names()[84] == "Rgba16Float");
    } else if k == 84 {
        reveal_strlit("Rgba16Float");
        reveal_strlit("Rgba16Sint");
        assert(texture_format_names()[84] == "Rgba16Float");
        assert(texture_format_names()[85] == "Rgba16Sint");
    } else if k == 85 {
        reveal_strlit("Rgba16Sint");
        reveal_strlit("Rgba16Snorm");
        assert(texture_format_names()[85] == "Rgba16Sint");
        assert(texture_format_names()[86] == "Rgba16Snorm");
    } else if k == 86 {
        reveal_strlit("Rgba16Snorm");
        reveal_strlit("Rgba16Uint");
        assert(texture_format_names()[86] == "Rgba16Snorm");
        assert(texture_format_names()[87] == "Rgba16Uint");
    } else if k == 87 {
        reveal_strlit("Rgba16Uint");
        reveal_strlit("Rgba16Unorm");
        assert(texture_format_names()[87] == "Rgba16Uint");
        assert(texture_format_names()[88] == "Rgba16Unorm");
    } else if k == 88 {
        reveal_strlit("Rgba16Unorm");
        reveal_strlit("Rgba32Float");
        assert(texture_format_names()[88] == "Rgba16Unorm");
        assert(texture_format_names()[89] == "Rgba32Float");
    } else if k == 89 {
        reveal_strlit("Rgba32Float");
        reveal_strlit("Rgba32Sint");
        assert(texture_format_names()[89] == "Rgba32Float");
        assert(texture_format_names()[90] == "Rgba32Sint");
    } else if k == 90 {
        reveal_strlit("Rgba32Sint");
        reveal_strlit("Rgba32Uint");
        assert(texture_format_names()[90] == "Rgba32Sint");
        assert(texture_format_names()[91] == "Rgba32Uint");
    } else if k == 91 {
        reveal_strlit("Rgba32Uint");
        reveal_strlit("Rgba8Sint");
        assert(texture_format_names()[91] == "Rgba32Uint");
        assert(texture_format_names()[92] == "Rgba8Sint");
    } else if k == 92 {
        reveal_strlit("Rgba8Sint");
        reveal_strlit("Rgba8Snorm");
        assert(texture_format_names()[92] == "Rgba8Sint");
        assert(texture_format_names()[93] == "Rgba8Snorm");
    } else if k == 93 {
        reveal_strlit("Rgba8Snorm");
        reveal_strlit("Rgba8Uint");
        assert(texture_format_names()[93] == "Rgba8Snorm");
        assert(texture_format_names()[94] == "Rgba8Uint");
    } else if k == 94 {
        reveal_strlit("Rgba8Uint");
        reveal_strlit("Rgba8Unorm");
        assert(texture_format_names()[94] == "Rgba8Uint");
        assert(texture_format_names()[95] == "Rgba8Unorm");
    } else if k == 95 {
        reveal_strlit("Rgba8Unorm");
        reveal_strlit("Rgba8UnormSrgb");
        assert(texture_format_names()[95] == "Rgba8Unorm");
        assert(texture_format_names()[96] == "Rgba8UnormSrgb");
    }
}

proof fn lemma_ascending(k: int)
    requires
        0 <= k < TEXTURE_FORMAT_COUNT - 1,
    ensures
        ascending_at(k),
{
    if k < 24 {
        lemma_ascending_from_0(k);
    } else if k < 48 {
        lemma_ascending_from_24(k);
    } else if k < 72 {
        lemma_ascending_from_48(k);
    } else {
        lemma_ascending_from_72(k);
    }
}

proof fn lemma_ascending_between(i: int, j: int)
    requires
        0 <= i < j < TEXTURE_FORMAT_COUNT,
    ensures
        text_order(texture_format_names()[i]@, texture_format_names()[j]@) == NameOrder::Less,
    decreases j - i,
{
    lemma_ascending(j - 1);
    if i < j - 1 {
        lemma_ascending_between(i, j - 1);
        lemma_text_order_transitive(
            texture_format_names()[i]@,
            texture_format_names()[j - 1]@,
            texture_format_names()[j]@,
        );
    }
}

/// The names of the table are in strictly increasing order, character by
/// character, so no two rows name the same format.
pub proof fn lemma_format_names_ascending()
    ensures
        texture_format_names().len() == TEXTURE_FORMAT_COUNT,
        forall|i: int, j: int|
            0 <= i < j < TEXTURE_FORMAT_COUNT ==> text_order(
                #[trigger] texture_format_names()[i]@,
                #[trigger] texture_format_names()[j]@,
            ) == NameOrder::Less && texture_format_names()[i]@ != texture_format_names()[j]@,
{
    assert forall|i: int, j: int| 0 <= i < j < TEXTURE_FORMAT_COUNT implies text_order(
        #[trigger] texture_format_names()[i]@,
        #[trigger] texture_format_names()[j]@,
    ) == NameOrder::Less && texture_format_names()[i]@ != texture_format_names()[j]@ by {
        lemma_ascending_between(i, j);
        lemma_text_order_antisymmetric(texture_format_names()[i]@, texture_format_names()[j]@);
    }
}

} // verus!
