//! Adapter limits: the default of each limit and the value each adapter
//! reports, one row per limit.

use vstd::prelude::*;
use vstd::string::StringExecFns;

use crate::util::str_eq;

verus! {

/// Number of limits tabulated.
pub const LIMIT_COUNT: usize = 27;

/// Name of the `i`-th limit.
pub open spec fn limit_name(i: nat) -> &'static str {
    if i == 0 {
        "max_texture_dimension_1d"
    } else if i == 1 {
        "max_texture_dimension_2d"
    } else if i == 2 {
        "max_texture_dimension_3d"
    } else if i == 3 {
        "max_texture_array_layers"
    } else if i == 4 {
        "max_bind_groups"
    } else if i == 5 {
        "max_dynamic_uniform_buffers_per_pipeline_layout"
    } else if i == 6 {
        "max_dynamic_storage_buffers_per_pipeline_layout"
    } else if i == 7 {
        "max_sampled_textures_per_shader_stage"
    } else if i == 8 {
        "max_samplers_per_shader_stage"
    } else if i == 9 {
        "max_storage_buffers_per_shader_stage"
    } else if i == 10 {
        "max_storage_textures_per_shader_stage"
    } else if i == 11 {
        "max_uniform_buffers_per_shader_stage"
    } else if i == 12 {
        "max_uniform_buffer_binding_size"
    } else if i == 13 {
        "max_storage_buffer_binding_size"
    } else if i == 14 {
        "max_vertex_buffers"
    } else if i == 15 {
        "max_vertex_attributes"
    } else if i == 16 {
        "max_vertex_buffer_array_stride"
    } else if i == 17 {
        "max_push_constant_size"
    } else if i == 18 {
        "min_uniform_buffer_offset_alignment"
    } else if i == 19 {
        "min_storage_buffer_offset_alignment"
    } else if i == 20 {
        "max_inter_stage_shader_components"
    } else if i == 21 {
        "max_compute_workgroup_storage_size"
    } else if i == 22 {
        "max_compute_invocations_per_workgroup"
    } else if i == 23 {
        "max_compute_workgroup_size_x"
    } else if i == 24 {
        "max_compute_workgroup_size_y"
    } else if i == 25 {
        "max_compute_workgroup_size_z"
    } else {
        "max_compute_workgroups_per_dimension"
    }
}

fn limit_name_at(i: usize) -> (r: &'static str)
    requires
        i < LIMIT_COUNT,
    ensures
        r == limit_name(i as nat),
{
    if i == 0 {
        "max_texture_dimension_1d"
    } else if i == 1 {
        "max_texture_dimension_2d"
    } else if i == 2 {
        "max_texture_dimension_3d"
    } else if i == 3 {
        "max_texture_array_layers"
    } else if i == 4 {
        "max_bind_groups"
    } else if i == 5 {
        "max_dynamic_uniform_buffers_per_pipeline_layout"
    } else if i == 6 {
        "max_dynamic_storage_buffers_per_pipeline_layout"
    } else if i == 7 {
        "max_sampled_textures_per_shader_stage"
    } else if i == 8 {
        "max_samplers_per_shader_stage"
    } else if i == 9 {
        "max_storage_buffers_per_shader_stage"
    } else if i == 10 {
        "max_storage_textures_per_shader_stage"
    } else if i == 11 {
        "max_uniform_buffers_per_shader_stage"
    } else if i == 12 {
        "max_uniform_buffer_binding_size"
    } else if i == 13 {
        "max_storage_buffer_binding_size"
    } else if i == 14 {
        "max_vertex_buffers"
    } else if i == 15 {
        "max_vertex_attributes"
    } else if i == 16 {
        "max_vertex_buffer_array_stride"
    } else if i == 17 {
        "max_push_constant_size"
    } else if i == 18 {
        "min_uniform_buffer_offset_alignment"
    } else if i == 19 {
        "min_storage_buffer_offset_alignment"
    } else if i == 20 {
        "max_inter_stage_shader_components"
    } else if i == 21 {
        "max_compute_workgroup_storage_size"
    } else if i == 22 {
        "max_compute_invocations_per_workgroup"
    } else if i == 23 {
        "max_compute_workgroup_size_x"
    } else if i == 24 {
        "max_compute_workgroup_size_y"
    } else if i == 25 {
        "max_compute_workgroup_size_z"
    } else {
        "max_compute_workgroups_per_dimension"
    }
}

/// The default value of each limit, in the order of the limit names.
pub open spec fn default_limit_values() -> Seq<u32> {
    seq![8192, 8192, 2048, 256, 4, 8, 4, 16, 16, 8, 8, 12, 65536, 134217728, 8, 16, 2048, 0, 256, 256, 60, 16352, 256, 256, 256, 64, 65535u32]
}

/// `wgpu::Limits::default()`, read limit by limit in the order of the limit
/// names; the values are the literals of wgpu's `Default` impl.
#[verifier::external_body]
fn wgpu_default_limit_values() -> (r: Vec<u32>)
    ensures
        r@ == default_limit_values(),
{
    let l = wgpu::Limits::default();
    vec![
        l.max_texture_dimension_1d, l.max_texture_dimension_2d, l.max_texture_dimension_3d,
        l.max_texture_array_layers, l.max_bind_groups, l.max_dynamic_uniform_buffers_per_pipeline_layout,
        l.max_dynamic_storage_buffers_per_pipeline_layout, l.max_sampled_textures_per_shader_stage,
        l.max_samplers_per_shader_stage, l.max_storage_buffers_per_shader_stage,
        l.max_storage_textures_per_shader_stage, l.max_uniform_buffers_per_shader_stage,
        l.max_uniform_buffer_binding_size, l.max_storage_buffer_binding_size, l.max_vertex_buffers,
        l.max_vertex_attributes, l.max_vertex_buffer_array_stride, l.max_push_constant_size,
        l.min_uniform_buffer_offset_alignment, l.min_storage_buffer_offset_alignment,
        l.max_inter_stage_shader_components, l.max_compute_workgroup_storage_size,
        l.max_compute_invocations_per_workgroup, l.max_compute_workgroup_size_x, l.max_compute_workgroup_size_y,
        l.max_compute_workgroup_size_z, l.max_compute_workgroups_per_dimension,
    ]
}

/// One limit: its name, its default, and the value of each adapter added so
/// far.
pub struct Limit {
    pub name: String,
    pub default: u32,
    pub adapters: Vec<u32>,
}

/// One row per limit, in the order of the limit names, holding the limit's
/// default and no adapter value yet.
pub fn limits() -> (r: Vec<Limit>)
    ensures
        r@.len() == LIMIT_COUNT,
        forall|i: int|
            0 <= i < LIMIT_COUNT ==> {
                &&& (#[trigger] r@[i]).name@ == limit_name(i as nat)@
                &&& r@[i].default == default_limit_values()[i]
                &&& r@[i].adapters@.len() == 0
                &&& limit_index(r@[i].name@) is Some
            },
{
    let defaults = wgpu_default_limit_values();
    let mut r: Vec<Limit> = Vec::new();
    let mut i: usize = 0;
    while i < LIMIT_COUNT
        invariant
            defaults@ == default_limit_values(),
            i <= LIMIT_COUNT,
            r@.len() == i,
            forall|k: int|
                0 <= k < i ==> {
                    &&& (#[trigger] r@[k]).name@ == limit_name(k as nat)@
                    &&& r@[k].default == default_limit_values()[k]
                    &&& r@[k].adapters@.len() == 0
                },
        decreases LIMIT_COUNT - i,
    {
        r.push(Limit { name: String::from_str(limit_name_at(i)), default: defaults[i], adapters: Vec::new() });
        i = i + 1;
    }
    proof {
        assert forall|i: int| 0 <= i < LIMIT_COUNT implies limit_index((#[trigger] r@[i]).name@) is Some by {
            lemma_named_limit_found(r@[i].name@, 0, i as nat);
        }
    }
    r
}

/// The value of every limit that an adapter reports, one field per limit.
#[derive(Clone, Copy, PartialEq, Eq, Structural, Debug, Default)]
pub struct AdapterLimits {
    pub max_texture_dimension_1d: u32,
    pub max_texture_dimension_2d: u32,
    pub max_texture_dimension_3d: u32,
    pub max_texture_array_layers: u32,
    pub max_bind_groups: u32,
    pub max_dynamic_uniform_buffers_per_pipeline_layout: u32,
    pub max_dynamic_storage_buffers_per_pipeline_layout: u32,
    pub max_sampled_textures_per_shader_stage: u32,
    pub max_samplers_per_shader_stage: u32,
    pub max_storage_buffers_per_shader_stage: u32,
    pub max_storage_textures_per_shader_stage: u32,
    pub max_uniform_buffers_per_shader_stage: u32,
    pub max_uniform_buffer_binding_size: u32,
    pub max_storage_buffer_binding_size: u32,
    pub max_vertex_buffers: u32,
    pub max_vertex_attributes: u32,
    pub max_vertex_buffer_array_stride: u32,
    pub max_push_constant_size: u32,
    pub min_uniform_buffer_offset_alignment: u32,
    pub min_storage_buffer_offset_alignment: u32,
    pub max_inter_stage_shader_components: u32,
    pub max_compute_workgroup_storage_size: u32,
    pub max_compute_invocations_per_workgroup: u32,
    pub max_compute_workgroup_size_x: u32,
    pub max_compute_workgroup_size_y: u32,
    pub max_compute_workgroup_size_z: u32,
    pub max_compute_workgroups_per_dimension: u32,
}

/// The value that `a` reports for the `i`-th limit: the field of the same
/// name.
pub open spec fn adapter_limit(a: AdapterLimits, i: nat) -> u32 {
    if i == 0 {
        a.max_texture_dimension_1d
    } else if i == 1 {
        a.max_texture_dimension_2d
    } else if i == 2 {
        a.max_texture_dimension_3d
    } else if i == 3 {
        a.max_texture_array_layers
    } else if i == 4 {
        a.max_bind_groups
    } else if i == 5 {
        a.max_dynamic_uniform_buffers_per_pipeline_layout
    } else if i == 6 {
        a.max_dynamic_storage_buffers_per_pipeline_layout
    } else if i == 7 {
        a.max_sampled_textures_per_shader_stage
    } else if i == 8 {
        a.max_samplers_per_shader_stage
    } else if i == 9 {
        a.max_storage_buffers_per_shader_stage
    } else if i == 10 {
        a.max_storage_textures_per_shader_stage
    } else if i == 11 {
        a.max_uniform_buffers_per_shader_stage
    } else if i == 12 {
        a.max_uniform_buffer_binding_size
    } else if i == 13 {
        a.max_storage_buffer_binding_size
    } else if i == 14 {
        a.max_vertex_buffers
    } else if i == 15 {
        a.max_vertex_attributes
    } else if i == 16 {
        a.max_vertex_buffer_array_stride
    } else if i == 17 {
        a.max_push_constant_size
    } else if i == 18 {
        a.min_uniform_buffer_offset_alignment
    } else if i == 19 {
        a.min_storage_buffer_offset_alignment
    } else if i == 20 {
        a.max_inter_stage_shader_components
    } else if i == 21 {
        a.max_compute_workgroup_storage_size
    } else if i == 22 {
        a.max_compute_invocations_per_workgroup
    } else if i == 23 {
        a.max_compute_workgroup_size_x
    } else if i == 24 {
        a.max_compute_workgroup_size_y
    } else if i == 25 {
        a.max_compute_workgroup_size_z
    } else {
        a.max_compute_workgroups_per_dimension
    }
}

fn adapter_limit_at(a: &AdapterLimits, i: usize) -> (r: u32)
    requires
        i < LIMIT_COUNT,
    ensures
        r == adapter_limit(*a, i as nat),
{
    if i == 0 {
        a.max_texture_dimension_1d
    } else if i == 1 {
        a.max_texture_dimension_2d
    } else if i == 2 {
        a.max_texture_dimension_3d
    } else if i == 3 {
        a.max_texture_array_layers
    } else if i == 4 {
        a.max_bind_groups
    } else if i == 5 {
        a.max_dynamic_uniform_buffers_per_pipeline_layout
    } else if i == 6 {
        a.max_dynamic_storage_buffers_per_pipeline_layout
    } else if i == 7 {
        a.max_sampled_textures_per_shader_stage
    } else if i == 8 {
        a.max_samplers_per_shader_stage
    } else if i == 9 {
        a.max_storage_buffers_per_shader_stage
    } else if i == 10 {
        a.max_storage_textures_per_shader_stage
    } else if i == 11 {
        a.max_uniform_buffers_per_shader_stage
    } else if i == 12 {
        a.max_uniform_buffer_binding_size
    } else if i == 13 {
        a.max_storage_buffer_binding_size
    } else if i == 14 {
        a.max_vertex_buffers
    } else if i == 15 {
        a.max_vertex_attributes
    } else if i == 16 {
        a.max_vertex_buffer_array_stride
    } else if i == 17 {
        a.max_push_constant_size
    } else if i == 18 {
        a.min_uniform_buffer_offset_alignment
    } else if i == 19 {
        a.min_storage_buffer_offset_alignment
    } else if i == 20 {
        a.max_inter_stage_shader_components
    } else if i == 21 {
        a.max_compute_workgroup_storage_size
    } else if i == 22 {
        a.max_compute_invocations_per_workgroup
    } else if i == 23 {
        a.max_compute_workgroup_size_x
    } else if i == 24 {
        a.max_compute_workgroup_size_y
    } else if i == 25 {
        a.max_compute_workgroup_size_z
    } else {
        a.max_compute_workgroups_per_dimension
    }
}

/// The first position, from `k` on, whose limit is named `name`.
pub open spec fn limit_position_from(name: Seq<char>, k: nat) -> Option<nat>
    decreases LIMIT_COUNT - k,
{
    if k >= LIMIT_COUNT {
        None
    } else if limit_name(k)@ == name {
        Some(k)
    } else {
        limit_position_from(name, k + 1)
    }
}

/// The position of the limit named `name`, if it is one of them.
pub open spec fn limit_index(name: Seq<char>) -> Option<nat> {
    limit_position_from(name, 0)
}

/// A name of the table is found at or before its own position.
proof fn lemma_named_limit_found(name: Seq<char>, k: nat, i: nat)
    requires
        k <= i < LIMIT_COUNT,
        limit_name(i)@ == name,
    ensures
        limit_position_from(name, k) is Some,
    decreases i - k,
{
    if k < i && limit_name(k)@ != name {
        lemma_named_limit_found(name, k + 1, i);
    }
}

fn find_limit(name: &str) -> (r: Option<usize>)
    ensures
        r matches Some(i) ==> i < LIMIT_COUNT && limit_index(name@) == Some(i as nat),
        r is None ==> limit_index(name@) is None,
{
    let mut i: usize = 0;
    while i < LIMIT_COUNT
        invariant
            i <= LIMIT_COUNT,
            limit_index(name@) == limit_position_from(name@, i as nat),
        decreases LIMIT_COUNT - i,
    {
        if str_eq(limit_name_at(i), name) {
            return Some(i);
        }
        i = i + 1;
    }
    None
}

/// Appends to each limit the value that the adapter reports for it.
pub fn add_adapter_to_limits(limits: &mut Vec<Limit>, adapter_limits: &AdapterLimits)
    requires
        forall|k: int| 0 <= k < old(limits)@.len() ==> limit_index((#[trigger] old(limits)@[k]).name@) is Some,
    ensures
        final(limits)@.len() == old(limits)@.len(),
        forall|k: int|
            0 <= k < old(limits)@.len() ==> {
                &&& (#[trigger] final(limits)@[k]).name@ == old(limits)@[k].name@
                &&& final(limits)@[k].default == old(limits)@[k].default
                &&& final(limits)@[k].adapters@ == old(limits)@[k].adapters@.push(
                    adapter_limit(*adapter_limits, limit_index(old(limits)@[k].name@).unwrap()),
                )
            },
{
    let n = limits.len();
    let mut k: usize = 0;
    while k < n
        invariant
            n == limits@.len(),
            n == old(limits)@.len(),
            k <= n,
            forall|j: int| k <= j < n ==> #[trigger] limits@[j] == old(limits)@[j],
            forall|j: int| 0 <= j < n ==> limit_index((#[trigger] old(limits)@[j]).name@) is Some,
            forall|j: int|
                0 <= j < k ==> {
                    &&& (#[trigger] limits@[j]).name@ == old(limits)@[j].name@
                    &&& limits@[j].default == old(limits)@[j].default
                    &&& limits@[j].adapters@ == old(limits)@[j].adapters@.push(
                        adapter_limit(*adapter_limits, limit_index(old(limits)@[j].name@).unwrap()),
                    )
                },
        decreases n - k,
    {
        let i = find_limit(limits[k].name.as_str()).unwrap();
        let v = adapter_limit_at(adapter_limits, i);
        let mut limit = limits.remove(k);
        limit.adapters.push(v);
        limits.insert(k, limit);
        k = k + 1;
    }
}

} // verus!
