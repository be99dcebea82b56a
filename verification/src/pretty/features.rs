//! Optional wgpu features: whether the WebGPU standard or only native
//! targets offer each, the backends that support it, and whether each adapter
//! added so far has it.

use vstd::prelude::*;
use vstd::string::StringExecFns;

use wgpu::Features;

use crate::Backend;

verus! {

/// Number of features tabulated.
pub const FEATURE_COUNT: usize = 31;

/// Whether the feature set `set` holds every flag of `flags`.
pub open spec fn has_bits(set: u64, flags: u64) -> bool {
    set & flags == flags
}

/// The flags of the WebGPU standard: the flags defined among the low sixteen
/// bits.
pub open spec fn webgpu_mask() -> u64 {
    0x3FFu64
}

/// The flags only native targets offer: the flags defined from bit sixteen
/// up.
pub open spec fn native_mask() -> u64 {
    0x3FF_FFFF_0000u64
}

/// `wgpu::Features::all_webgpu_mask()`, as bits. The mask is
/// `from_bits_truncate(0xFFFF)`, which keeps the flags defined among the low
/// sixteen bits; in this version those are bits 0 to 9.
#[verifier::external_body]
fn wgpu_webgpu_mask() -> (r: u64)
    ensures
        r == webgpu_mask(),
{
    wgpu::Features::all_webgpu_mask().bits()
}

/// `wgpu::Features::all_native_mask()`, as bits. The mask is
/// `from_bits_truncate(0xFFFF_FFFF_FFFF_0000)`, which keeps the flags defined
/// from bit sixteen up; in this version those are bits 16 to 41.
#[verifier::external_body]
fn wgpu_native_mask() -> (r: u64)
    ensures
        r == native_mask(),
{
    wgpu::Features::all_native_mask().bits()
}

/// Every backend.
pub open spec fn all_backends() -> Seq<Backend> {
    seq![Backend::Vulkan, Backend::Metal, Backend::Dx12, Backend::Dx11, Backend::Gl, Backend::BrowserWebGpu]
}

/// Every backend but the browser's.
pub open spec fn desktop_backends() -> Seq<Backend> {
    seq![Backend::Vulkan, Backend::Metal, Backend::Dx12, Backend::Dx11, Backend::Gl]
}

/// Name, flag bits and supporting backends of the `i`-th feature. The
/// unsized binding array has no flag in this version of wgpu, so its row has
/// no flag bits.
pub open spec fn feature_entry(i: nat) -> (&'static str, Option<u64>, Seq<Backend>) {
    if i == 0 {
        ("depth_clip_control", Some(0x1u64), desktop_backends())
    } else if i == 1 {
        ("texture_compression_bc", Some(0x8u64), desktop_backends())
    } else if i == 2 {
        ("indirect_first_instance", Some(0x40u64), seq![Backend::Vulkan, Backend::Dx12, Backend::Metal])
    } else if i == 3 {
        ("timestamp_query", Some(0x80u64), seq![Backend::Vulkan, Backend::Dx12])
    } else if i == 4 {
        ("pipeline_statistics_query", Some(0x100u64), seq![Backend::Vulkan, Backend::Dx12])
    } else if i == 5 {
        ("mappable_primary_buffers", Some(0x1_0000u64), all_backends())
    } else if i == 6 {
        ("texture_binding_array", Some(0x2_0000u64), seq![Backend::Vulkan, Backend::Metal, Backend::Dx12])
    } else if i == 7 {
        ("buffer_binding_array", Some(0x4_0000u64), seq![Backend::Vulkan, Backend::Dx12])
    } else if i == 8 {
        ("storage_resource_binding_array", Some(0x8_0000u64), seq![Backend::Vulkan, Backend::Metal])
    } else if i == 9 {
        (
            "sampled_texture_and_storage_buffer_array_non_uniform_indexing",
            Some(0x10_0000u64),
            seq![Backend::Vulkan, Backend::Metal, Backend::Dx12],
        )
    } else if i == 10 {
        (
            "uniform_buffer_and_storage_texture_array_non_uniform_indexing",
            Some(0x20_0000u64),
            seq![Backend::Vulkan, Backend::Metal, Backend::Dx12],
        )
    } else if i == 11 {
        ("partially_bound_binding_array", Some(0x40_0000u64), all_backends())
    } else if i == 12 {
        ("unsized_binding_array", None, seq![Backend::Vulkan, Backend::Dx12])
    } else if i == 13 {
        ("multi_draw_indirect", Some(0x80_0000u64), seq![Backend::Vulkan, Backend::Dx12])
    } else if i == 14 {
        ("multi_draw_indirect_count", Some(0x100_0000u64), seq![Backend::Vulkan, Backend::Dx12])
    } else if i == 15 {
        ("push_constants", Some(0x200_0000u64), desktop_backends())
    } else if i == 16 {
        ("address_mode_clamp_to_border", Some(0x400_0000u64), all_backends())
    } else if i == 17 {
        ("polygon_mode_line", Some(0x800_0000u64), seq![Backend::Vulkan, Backend::Metal, Backend::Dx12])
    } else if i == 18 {
        ("polygon_mode_point", Some(0x1000_0000u64), seq![Backend::Vulkan, Backend::Dx12])
    } else if i == 19 {
        ("texture_compression_etc2", Some(0x10u64), seq![Backend::Vulkan])
    } else if i == 20 {
        ("texture_compression_astc_ldr", Some(0x20u64), seq![Backend::Vulkan])
    } else if i == 21 {
        ("texture_adapter_specific_format_features", Some(0x2000_0000u64), seq![Backend::Vulkan])
    } else if i == 22 {
        ("shader_float64", Some(0x4000_0000u64), seq![Backend::Vulkan])
    } else if i == 23 {
        ("vertex_attribute_64bit", Some(0x8000_0000u64), seq![Backend::Vulkan])
    } else if i == 24 {
        ("conservative_rasterization", Some(0x1_0000_0000u64), seq![Backend::Vulkan])
    } else if i == 25 {
        ("vertex_writable_storage", Some(0x2_0000_0000u64), all_backends())
    } else if i == 26 {
        ("clear_commands", Some(0x4_0000_0000u64), all_backends())
    } else if i == 27 {
        ("spirv_shader_passthrough", Some(0x8_0000_0000u64), seq![Backend::Vulkan])
    } else if i == 28 {
        ("shader_primitive_index", Some(0x10_0000_0000u64), seq![Backend::Vulkan])
    } else if i == 29 {
        ("multiview", Some(0x20_0000_0000u64), seq![Backend::Vulkan])
    } else {
        ("texture_format_16bit_norm", Some(0x40_0000_0000u64), seq![Backend::Vulkan, Backend::Metal, Backend::Dx12])
    }
}

/// Position in the table of the `j`-th feature that has flag bits.
pub open spec fn flagged_index(j: int) -> nat {
    if j < 12 {
        j as nat
    } else {
        (j + 1) as nat
    }
}

/// The flag bits of the first fifteen tabulated features that have flags, in
/// table order: wgpu's `Features` constants.
#[verifier::external_body]
fn wgpu_feature_bits_head() -> (r: Vec<u64>)
    ensures
        r@.len() == 15,
        forall|i: int| 0 <= i < 15 ==> Some(#[trigger] r@[i]) == feature_entry(flagged_index(i)).1,
{
    vec![
        Features::DEPTH_CLIP_CONTROL.bits(), Features::TEXTURE_COMPRESSION_BC.bits(),
        Features::INDIRECT_FIRST_INSTANCE.bits(), Features::TIMESTAMP_QUERY.bits(),
        Features::PIPELINE_STATISTICS_QUERY.bits(), Features::MAPPABLE_PRIMARY_BUFFERS.bits(),
        Features::TEXTURE_BINDING_ARRAY.bits(), Features::BUFFER_BINDING_ARRAY.bits(),
        Features::STORAGE_RESOURCE_BINDING_ARRAY.bits(),
        Features::SAMPLED_TEXTURE_AND_STORAGE_BUFFER_ARRAY_NON_UNIFORM_INDEXING.bits(),
        Features::UNIFORM_BUFFER_AND_STORAGE_TEXTURE_ARRAY_NON_UNIFORM_INDEXING.bits(),
        Features::PARTIALLY_BOUND_BINDING_ARRAY.bits(), Features::MULTI_DRAW_INDIRECT.bits(),
        Features::MULTI_DRAW_INDIRECT_COUNT.bits(), Features::PUSH_CONSTANTS.bits(),
    ]
}

/// The flag bits of the other fifteen tabulated features that have flags,
/// in table order: wgpu's `Features` constants. The clear-commands flag is
/// named `CLEAR_TEXTURE` in this version of wgpu.
#[verifier::external_body]
fn wgpu_feature_bits_tail() -> (r: Vec<u64>)
    ensures
        r@.len() == 15,
        forall|i: int| 0 <= i < 15 ==> Some(#[trigger] r@[i]) == feature_entry((i + 16) as nat).1,
{
    vec![
        Features::ADDRESS_MODE_CLAMP_TO_BORDER.bits(), Features::POLYGON_MODE_LINE.bits(),
        Features::POLYGON_MODE_POINT.bits(), Features::TEXTURE_COMPRESSION_ETC2.bits(),
        Features::TEXTURE_COMPRESSION_ASTC_LDR.bits(),
        Features::TEXTURE_ADAPTER_SPECIFIC_FORMAT_FEATURES.bits(), Features::SHADER_FLOAT64.bits(),
        Features::VERTEX_ATTRIBUTE_64BIT.bits(), Features::CONSERVATIVE_RASTERIZATION.bits(),
        Features::VERTEX_WRITABLE_STORAGE.bits(), Features::CLEAR_TEXTURE.bits(),
        Features::SPIRV_SHADER_PASSTHROUGH.bits(), Features::SHADER_PRIMITIVE_INDEX.bits(),
        Features::MULTIVIEW.bits(), Features::TEXTURE_FORMAT_16BIT_NORM.bits(),
    ]
}

fn all_backend_list() -> (r: Vec<Backend>)
    ensures
        r@ == all_backends(),
{
    vec![Backend::Vulkan, Backend::Metal, Backend::Dx12, Backend::Dx11, Backend::Gl, Backend::BrowserWebGpu]
}

fn desktop_backend_list() -> (r: Vec<Backend>)
    ensures
        r@ == desktop_backends(),
{
    vec![Backend::Vulkan, Backend::Metal, Backend::Dx12, Backend::Dx11, Backend::Gl]
}

fn feature_entry_at(i: usize) -> (r: (&'static str, Vec<Backend>))
    requires
        i < FEATURE_COUNT,
    ensures
        r.0 == feature_entry(i as nat).0,
        r.1@ == feature_entry(i as nat).2,
{
    if i == 0 {
        ("depth_clip_control", desktop_backend_list())
    } else if i == 1 {
        ("texture_compression_bc", desktop_backend_list())
    } else if i == 2 {
        ("indirect_first_instance", vec![Backend::Vulkan, Backend::Dx12, Backend::Metal])
    } else if i == 3 {
        ("timestamp_query", vec![Backend::Vulkan, Backend::Dx12])
    } else if i == 4 {
        ("pipeline_statistics_query", vec![Backend::Vulkan, Backend::Dx12])
    } else if i == 5 {
        ("mappable_primary_buffers", all_backend_list())
    } else if i == 6 {
        ("texture_binding_array", vec![Backend::Vulkan, Backend::Metal, Backend::Dx12])
    } else if i == 7 {
        ("buffer_binding_array", vec![Backend::Vulkan, Backend::Dx12])
    } else if i == 8 {
        ("storage_resource_binding_array", vec![Backend::Vulkan, Backend::Metal])
    } else if i == 9 {
        (
            "sampled_texture_and_storage_buffer_array_non_uniform_indexing",
            vec![Backend::Vulkan, Backend::Metal, Backend::Dx12],
        )
    } else if i == 10 {
        (
            "uniform_buffer_and_storage_texture_array_non_uniform_indexing",
            vec![Backend::Vulkan, Backend::Metal, Backend::Dx12],
        )
    } else if i == 11 {
        ("partially_bound_binding_array", all_backend_list())
    } else if i == 12 {
        ("unsized_binding_array", vec![Backend::Vulkan, Backend::Dx12])
    } else if i == 13 {
        ("multi_draw_indirect", vec![Backend::Vulkan, Backend::Dx12])
    } else if i == 14 {
        ("multi_draw_indirect_count", vec![Backend::Vulkan, Backend::Dx12])
    } else if i == 15 {
        ("push_constants", desktop_backend_list())
    } else if i == 16 {
        ("address_mode_clamp_to_border", all_backend_list())
    } else if i == 17 {
        ("polygon_mode_line", vec![Backend::Vulkan, Backend::Metal, Backend::Dx12])
    } else if i == 18 {
        ("polygon_mode_point", vec![Backend::Vulkan, Backend::Dx12])
    } else if i == 19 {
        ("texture_compression_etc2", vec![Backend::Vulkan])
    } else if i == 20 {
        ("texture_compression_astc_ldr", vec![Backend::Vulkan])
    } else if i == 21 {
        ("texture_adapter_specific_format_features", vec![Backend::Vulkan])
    } else if i == 22 {
        ("shader_float64", vec![Backend::Vulkan])
    } else if i == 23 {
        ("vertex_attribute_64bit", vec![Backend::Vulkan])
    } else if i == 24 {
        ("conservative_rasterization", vec![Backend::Vulkan])
    } else if i == 25 {
        ("vertex_writable_storage", all_backend_list())
    } else if i == 26 {
        ("clear_commands", all_backend_list())
    } else if i == 27 {
        ("spirv_shader_passthrough", vec![Backend::Vulkan])
    } else if i == 28 {
        ("shader_primitive_index", vec![Backend::Vulkan])
    } else if i == 29 {
        ("multiview", vec![Backend::Vulkan])
    } else {
        ("texture_format_16bit_norm", vec![Backend::Vulkan, Backend::Metal, Backend::Dx12])
    }
}

/// Whether the feature set `set` holds the flag bits `value`; a feature with
/// no flag bits is held by no set.
pub open spec fn holds(set: u64, value: Option<u64>) -> bool {
    match value {
        Some(v) => has_bits(set, v),
        None => false,
    }
}

fn holds_exec(set: u64, value: Option<u64>) -> (r: bool)
    ensures
        r == holds(set, value),
{
    match value {
        Some(v) => set & v == v,
        None => false,
    }
}

/// One feature: its name and flag bits (none where wgpu has no flag for it),
/// whether the WebGPU standard or only
/// native targets offer it, the backends that support it, and whether each
/// adapter added so far has it.
pub struct Feature {
    pub name: String,
    pub value: Option<u64>,
    pub web: bool,
    pub native: bool,
    pub backends: Vec<Backend>,
    pub adapters: Vec<bool>,
}

/// Whether `f` is the `i`-th feature row with no adapter column yet.
pub open spec fn is_feature_row(f: Feature, i: nat) -> bool {
    let (name, value, backends) = feature_entry(i);
    &&& f.name@ == name@
    &&& f.value == value
    &&& f.web == holds(webgpu_mask(), value)
    &&& f.native == holds(native_mask(), value)
    &&& f.backends@ == backends
    &&& f.adapters@.len() == 0
}

/// One row per feature, in table order, with no adapter column yet.
pub fn features() -> (r: Vec<Feature>)
    ensures
        r@.len() == FEATURE_COUNT,
        forall|i: int| 0 <= i < FEATURE_COUNT ==> is_feature_row(#[trigger] r@[i], i as nat),
{
    let web_mask = wgpu_webgpu_mask();
    let native = wgpu_native_mask();
    let head = wgpu_feature_bits_head();
    let tail = wgpu_feature_bits_tail();
    let mut r: Vec<Feature> = Vec::new();
    let mut i: usize = 0;
    while i < FEATURE_COUNT
        invariant
            web_mask == webgpu_mask(),
            native == native_mask(),
            head@.len() == 15,
            tail@.len() == 15,
            forall|j: int| 0 <= j < 15 ==> Some(#[trigger] head@[j]) == feature_entry(flagged_index(j)).1,
            forall|j: int| 0 <= j < 15 ==> Some(#[trigger] tail@[j]) == feature_entry((j + 16) as nat).1,
            i <= FEATURE_COUNT,
            r@.len() == i,
            forall|k: int| 0 <= k < i ==> is_feature_row(#[trigger] r@[k], k as nat),
        decreases FEATURE_COUNT - i,
    {
        let (name, backends) = feature_entry_at(i);
        let value = if i < 12 {
            Some(head[i])
        } else if i == 12 {
            None
        } else if i < 16 {
            Some(head[i - 1])
        } else {
            Some(tail[i - 16])
        };
        r.push(
            Feature {
                name: String::from_str(name),
                value,
                web: holds_exec(web_mask, value),
                native: holds_exec(native, value),
                backends,
                adapters: Vec::new(),
            },
        );
        i = i + 1;
    }
    r
}

/// Appends to each feature whether the adapter's feature set
/// `adapter_features` (as bits) holds it; nothing else changes.
pub fn add_adapter_to_features(features: &mut Vec<Feature>, adapter_features: u64)
    ensures
        final(features)@.len() == old(features)@.len(),
        forall|k: int|
            0 <= k < old(features)@.len() ==> {
                let (f, g) = (old(features)@[k], #[trigger] final(features)@[k]);
                &&& g.name@ == f.name@
                &&& g.value == f.value
                &&& g.web == f.web
                &&& g.native == f.native
                &&& g.backends@ == f.backends@
                &&& g.adapters@ == f.adapters@.push(holds(adapter_features, f.value))
            },
{
    let n = features.len();
    let mut k: usize = 0;
    while k < n
        invariant
            n == features@.len(),
            n == old(features)@.len(),
            k <= n,
            forall|j: int| k <= j < n ==> #[trigger] features@[j] == old(features)@[j],
            forall|j: int|
                0 <= j < k ==> {
                    let (f, g) = (old(features)@[j], #[trigger] features@[j]);
                    &&& g.name@ == f.name@
                    &&& g.value == f.value
                    &&& g.web == f.web
                    &&& g.native == f.native
                    &&& g.backends@ == f.backends@
                    &&& g.adapters@ == f.adapters@.push(holds(adapter_features, f.value))
                },
        decreases n - k,
    {
        let mut f = features.remove(k);
        let held = holds_exec(adapter_features, f.value);
        f.adapters.push(held);
        features.insert(k, f);
        k = k + 1;
    }
}

/// No feature is offered both by the WebGPU standard and only by native
/// targets: the two masks share no flag.
pub proof fn lemma_web_and_native_exclusive(value: u64)
    requires
        value != 0,
    ensures
        !(has_bits(webgpu_mask(), value) && has_bits(native_mask(), value)),
{
    assert((0x3FFu64 & value == value && 0x3FF_FFFF_0000u64 & value == value) ==> value == 0)
        by (bit_vector);
}

} // verus!
