use gpgpu::pretty::limits::{add_adapter_to_limits, limits, AdapterLimits, LIMIT_COUNT};

#[test]
fn limits_hold_wgpu_defaults() {
    let l = limits();
    assert_eq!(l.len(), LIMIT_COUNT);
    assert_eq!(l[0].name, "max_texture_dimension_1d");
    assert_eq!(l[0].default, 8192);
    assert_eq!(l[12].name, "max_uniform_buffer_binding_size");
    assert_eq!(l[12].default, 64 << 10);
    assert_eq!(l[26].default, 65535);
    assert!(l.iter().all(|x| x.adapters.is_empty()));
}

fn adapter_of(l: &wgpu::Limits) -> AdapterLimits {
    AdapterLimits {
        max_texture_dimension_1d: l.max_texture_dimension_1d,
        max_texture_dimension_2d: l.max_texture_dimension_2d,
        max_texture_dimension_3d: l.max_texture_dimension_3d,
        max_texture_array_layers: l.max_texture_array_layers,
        max_bind_groups: l.max_bind_groups,
        max_dynamic_uniform_buffers_per_pipeline_layout: l.max_dynamic_uniform_buffers_per_pipeline_layout,
        max_dynamic_storage_buffers_per_pipeline_layout: l.max_dynamic_storage_buffers_per_pipeline_layout,
        max_sampled_textures_per_shader_stage: l.max_sampled_textures_per_shader_stage,
        max_samplers_per_shader_stage: l.max_samplers_per_shader_stage,
        max_storage_buffers_per_shader_stage: l.max_storage_buffers_per_shader_stage,
        max_storage_textures_per_shader_stage: l.max_storage_textures_per_shader_stage,
        max_uniform_buffers_per_shader_stage: l.max_uniform_buffers_per_shader_stage,
        max_uniform_buffer_binding_size: l.max_uniform_buffer_binding_size,
        max_storage_buffer_binding_size: l.max_storage_buffer_binding_size,
        max_vertex_buffers: l.max_vertex_buffers,
        max_vertex_attributes: l.max_vertex_attributes,
        max_vertex_buffer_array_stride: l.max_vertex_buffer_array_stride,
        max_push_constant_size: l.max_push_constant_size,
        min_uniform_buffer_offset_alignment: l.min_uniform_buffer_offset_alignment,
        min_storage_buffer_offset_alignment: l.min_storage_buffer_offset_alignment,
        max_inter_stage_shader_components: l.max_inter_stage_shader_components,
        max_compute_workgroup_storage_size: l.max_compute_workgroup_storage_size,
        max_compute_invocations_per_workgroup: l.max_compute_invocations_per_workgroup,
        max_compute_workgroup_size_x: l.max_compute_workgroup_size_x,
        max_compute_workgroup_size_y: l.max_compute_workgroup_size_y,
        max_compute_workgroup_size_z: l.max_compute_workgroup_size_z,
        max_compute_workgroups_per_dimension: l.max_compute_workgroups_per_dimension,
    }
}

#[test]
fn adapter_values_go_to_their_limits() {
    let mut l = limits();
    l.swap(0, 4);
    let mut adapter = AdapterLimits::default();
    adapter.max_texture_dimension_1d = 100;
    adapter.max_texture_dimension_2d = 101;
    adapter.max_bind_groups = 104;
    adapter.max_compute_workgroups_per_dimension = 126;
    add_adapter_to_limits(&mut l, &adapter);
    assert_eq!(l[0].name, "max_bind_groups");
    assert_eq!(l[0].adapters, vec![104]);
    assert_eq!(l[4].adapters, vec![100]);
    assert_eq!(l[26].adapters, vec![126]);
    assert_eq!(l[12].adapters, vec![0]);
    add_adapter_to_limits(&mut l, &adapter);
    assert_eq!(l[1].adapters, vec![101, 101]);
}

#[test]
fn add_adapter_to_limits_reads_wgpu_limits() {
    let mut l = limits();
    let mut adapter = wgpu::Limits::default();
    adapter.max_bind_groups = 7;
    add_adapter_to_limits(&mut l, &adapter_of(&adapter));
    assert_eq!(l[4].adapters, vec![7]);
    assert_eq!(l[0].adapters, vec![8192]);
    let defaults = limits();
    for (row, d) in l.iter().zip(defaults.iter()) {
        if row.name != "max_bind_groups" {
            assert_eq!(row.adapters, vec![d.default]);
        }
    }
}

use gpgpu::pretty::features::{add_adapter_to_features, features, FEATURE_COUNT};
use gpgpu::pretty::format_table::{texture_formats_info, TEXTURE_FORMAT_COUNT};
use gpgpu::pretty::texture_formats::{
    letters_held, texture_format_flags, texture_usages, SampleType, TextureFormatInfo,
};
use gpgpu::Backend;

#[test]
fn feature_values_are_wgpu_flags() {
    let f = features();
    assert_eq!(f.len(), FEATURE_COUNT);
    assert_eq!(FEATURE_COUNT, 31);
    assert_eq!(f[0].name, "depth_clip_control");
    assert_eq!(f[0].value, Some(wgpu::Features::DEPTH_CLIP_CONTROL.bits()));
    assert_eq!(f[5].name, "mappable_primary_buffers");
    assert_eq!(f[5].value, Some(wgpu::Features::MAPPABLE_PRIMARY_BUFFERS.bits()));
    assert_eq!(f[12].name, "unsized_binding_array");
    assert_eq!(f[12].value, None);
    assert_eq!(f[13].name, "multi_draw_indirect");
    assert_eq!(f[13].value, Some(wgpu::Features::MULTI_DRAW_INDIRECT.bits()));
    assert_eq!(f[19].value, Some(wgpu::Features::TEXTURE_COMPRESSION_ETC2.bits()));
    assert_eq!(f[26].name, "clear_commands");
    assert_eq!(f[26].value, Some(wgpu::Features::CLEAR_TEXTURE.bits()));
    assert_eq!(f[30].value, Some(wgpu::Features::TEXTURE_FORMAT_16BIT_NORM.bits()));
    let all = f.iter().fold(0u64, |acc, x| acc | x.value.unwrap_or(0));
    assert_eq!(all.count_ones() as usize, FEATURE_COUNT - 1);
    let mut names: Vec<&str> = f.iter().map(|x| x.name.as_str()).collect();
    names.sort();
    names.dedup();
    assert_eq!(names.len(), FEATURE_COUNT);
}

#[test]
fn features_split_web_and_native() {
    let f = features();
    assert!(f[0].web && !f[0].native);
    assert!(f[4].web && !f[4].native);
    assert!(!f[5].web && f[5].native);
    assert!(!f[30].web && f[30].native);
    assert!(!f[12].web && !f[12].native);
    assert!(f.iter().filter(|x| x.value.is_some()).all(|x| x.web != x.native));
    assert!(f.iter().all(|x| x.adapters.is_empty()));
    assert_eq!(f[0].backends, vec![Backend::Vulkan, Backend::Metal, Backend::Dx12, Backend::Dx11, Backend::Gl]);
    assert_eq!(f[12].backends, vec![Backend::Vulkan, Backend::Dx12]);
    assert_eq!(f[19].backends, vec![Backend::Vulkan]);
}

#[test]
fn adapter_features_append_one_column() {
    let mut f = features();
    let adapter = (wgpu::Features::DEPTH_CLIP_CONTROL | wgpu::Features::MULTIVIEW).bits();
    add_adapter_to_features(&mut f, adapter);
    add_adapter_to_features(&mut f, 0);
    assert_eq!(f[0].adapters, vec![true, false]);
    assert_eq!(f[29].name, "multiview");
    assert_eq!(f[29].adapters, vec![true, false]);
    assert_eq!(f[12].adapters, vec![false, false]);
    assert_eq!(f[1].adapters, vec![false, false]);
    assert!(f.iter().all(|x| x.adapters.len() == 2));
}

#[test]
fn texture_usage_and_flag_tables() {
    let u = texture_usages();
    assert_eq!(u.len(), 5);
    assert_eq!(u[0], (wgpu::TextureUsages::COPY_DST.bits(), "D", "COPY_DST"));
    assert_eq!(u[1], (wgpu::TextureUsages::COPY_SRC.bits(), "C", "COPY_SRC"));
    assert_eq!(u[4], (wgpu::TextureUsages::TEXTURE_BINDING.bits(), "T", "TEXTURE_BINDING"));
    let f = texture_format_flags();
    assert_eq!(f[0], (wgpu::TextureFormatFeatureFlags::STORAGE_ATOMICS.bits(), "A", "STORAGE_ATOMICS"));
    assert_eq!(f[1].1, "RW");
}

fn rgba8() -> TextureFormatInfo {
    let info = wgpu::TextureFormat::Rgba8Unorm.describe();
    let gff = info.guaranteed_format_features;
    TextureFormatInfo {
        name: "Rgba8Unorm".to_string(),
        components: info.components,
        block_size: info.block_size,
        block_dimensions: info.block_dimensions,
        srgb: info.srgb,
        sample_type: SampleType::Float { filterable: true },
        required_features: info.required_features.bits(),
        allowed_usages: gff.allowed_usages.bits(),
        flags: gff.flags.bits(),
    }
}

#[test]
fn texture_format_letters() {
    let t = rgba8();
    assert_eq!(t.usage_letters(), "D,C,R,S,T");
    assert_eq!(t.flag_letters(), "");
    assert!(!t.needs_features());
    assert!(t.is_filterable());
    let mut none = rgba8();
    none.allowed_usages = 0;
    none.flags = wgpu::TextureFormatFeatureFlags::STORAGE_READ_WRITE.bits()
        | wgpu::TextureFormatFeatureFlags::STORAGE_ATOMICS.bits();
    assert_eq!(none.usage_letters(), "");
    assert_eq!(none.flag_letters(), "A,RW");
    assert!(!none.is_filterable());
    assert_eq!(letters_held(&texture_usages(), 0x2 | 0x10), "D,R");
}

#[test]
fn texture_format_table_rows() {
    let rows = texture_formats_info();
    assert_eq!(rows.len(), TEXTURE_FORMAT_COUNT);
    assert_eq!(rows.len(), 97);
    for w in rows.windows(2) {
        assert!(w[0].name < w[1].name);
    }
    assert_eq!(rows[0].name, "Astc10x10RgbaUnorm");
    assert_eq!(rows[0].block_dimensions, (10, 10));
    assert!(!rows[0].srgb && rows[1].srgb);
    assert_eq!(rows[96].name, "Rgba8UnormSrgb");
    assert!(rows[96].srgb);
    let r8 = rows.iter().find(|r| r.name == "R8Unorm").unwrap();
    let info = wgpu::TextureFormat::R8Unorm.describe();
    assert_eq!(r8.components, info.components);
    assert_eq!(r8.block_size, 1);
    assert_eq!(r8.block_dimensions, (1, 1));
    assert_eq!(r8.sample_type, SampleType::Float { filterable: true });
    assert_eq!(r8.allowed_usages, info.guaranteed_format_features.allowed_usages.bits());
    let bc1 = rows.iter().find(|r| r.name == "Bc1RgbaUnorm").unwrap();
    assert_eq!(bc1.block_dimensions, (4, 4));
    assert_eq!(bc1.block_size, 8);
    assert_eq!(bc1.required_features, wgpu::Features::TEXTURE_COMPRESSION_BC.bits());
    let depth = rows.iter().find(|r| r.name == "Depth32Float").unwrap();
    assert_eq!(depth.sample_type, SampleType::Depth);
    let sint = rows.iter().find(|r| r.name == "R32Sint").unwrap();
    assert_eq!(sint.sample_type, SampleType::Sint);
}
