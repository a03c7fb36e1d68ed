use wgpu_native::limits::{
    get_base_device_limits_from_adapter_limits, map_required_limits, write_limits_struct, Limits,
    NativeLimits, NativeLimitsExtras, NativeSupportedLimits,
};

fn from_wgt(l: &wgpu_types::Limits) -> Limits {
    Limits {
        max_texture_dimension_1d: l.max_texture_dimension_1d,
        max_texture_dimension_2d: l.max_texture_dimension_2d,
        max_texture_dimension_3d: l.max_texture_dimension_3d,
        max_texture_array_layers: l.max_texture_array_layers,
        max_bind_groups: l.max_bind_groups,
        max_bind_groups_plus_vertex_buffers: l.max_bind_groups_plus_vertex_buffers,
        max_bindings_per_bind_group: l.max_bindings_per_bind_group,
        max_dynamic_uniform_buffers_per_pipeline_layout: l.max_dynamic_uniform_buffers_per_pipeline_layout,
        max_dynamic_storage_buffers_per_pipeline_layout: l.max_dynamic_storage_buffers_per_pipeline_layout,
        max_sampled_textures_per_shader_stage: l.max_sampled_textures_per_shader_stage,
        max_samplers_per_shader_stage: l.max_samplers_per_shader_stage,
        max_storage_buffers_per_shader_stage: l.max_storage_buffers_per_shader_stage,
        max_storage_textures_per_shader_stage: l.max_storage_textures_per_shader_stage,
        max_uniform_buffers_per_shader_stage: l.max_uniform_buffers_per_shader_stage,
        max_binding_array_elements_per_shader_stage: l.max_binding_array_elements_per_shader_stage,
        max_binding_array_acceleration_structure_elements_per_shader_stage: l.max_binding_array_acceleration_structure_elements_per_shader_stage,
        max_binding_array_sampler_elements_per_shader_stage: l.max_binding_array_sampler_elements_per_shader_stage,
        max_uniform_buffer_binding_size: l.max_uniform_buffer_binding_size,
        max_storage_buffer_binding_size: l.max_storage_buffer_binding_size,
        max_vertex_buffers: l.max_vertex_buffers,
        max_buffer_size: l.max_buffer_size,
        max_vertex_attributes: l.max_vertex_attributes,
        max_vertex_buffer_array_stride: l.max_vertex_buffer_array_stride,
        max_inter_stage_shader_variables: l.max_inter_stage_shader_variables,
        min_uniform_buffer_offset_alignment: l.min_uniform_buffer_offset_alignment,
        min_storage_buffer_offset_alignment: l.min_storage_buffer_offset_alignment,
        max_color_attachments: l.max_color_attachments,
        max_color_attachment_bytes_per_sample: l.max_color_attachment_bytes_per_sample,
        max_compute_workgroup_storage_size: l.max_compute_workgroup_storage_size,
        max_compute_invocations_per_workgroup: l.max_compute_invocations_per_workgroup,
        max_compute_workgroup_size_x: l.max_compute_workgroup_size_x,
        max_compute_workgroup_size_y: l.max_compute_workgroup_size_y,
        max_compute_workgroup_size_z: l.max_compute_workgroup_size_z,
        max_compute_workgroups_per_dimension: l.max_compute_workgroups_per_dimension,
        max_immediate_size: l.max_immediate_size,
        max_non_sampler_bindings: l.max_non_sampler_bindings,
        max_task_workgroup_total_count: l.max_task_workgroup_total_count,
        max_task_workgroups_per_dimension: l.max_task_workgroups_per_dimension,
        max_mesh_workgroup_total_count: l.max_mesh_workgroup_total_count,
        max_mesh_workgroups_per_dimension: l.max_mesh_workgroups_per_dimension,
        max_task_invocations_per_workgroup: l.max_task_invocations_per_workgroup,
        max_task_invocations_per_dimension: l.max_task_invocations_per_dimension,
        max_mesh_invocations_per_workgroup: l.max_mesh_invocations_per_workgroup,
        max_mesh_invocations_per_dimension: l.max_mesh_invocations_per_dimension,
        max_task_payload_size: l.max_task_payload_size,
        max_mesh_output_vertices: l.max_mesh_output_vertices,
        max_mesh_output_primitives: l.max_mesh_output_primitives,
        max_mesh_output_layers: l.max_mesh_output_layers,
        max_mesh_multiview_view_count: l.max_mesh_multiview_view_count,
        max_blas_primitive_count: l.max_blas_primitive_count,
        max_blas_geometry_count: l.max_blas_geometry_count,
        max_tlas_instance_count: l.max_tlas_instance_count,
        max_acceleration_structures_per_shader_stage: l.max_acceleration_structures_per_shader_stage,
        max_buffers_and_acceleration_structures_per_shader_stage: l.max_buffers_and_acceleration_structures_per_shader_stage,
        max_multiview_view_count: l.max_multiview_view_count,
        max_ray_dispatch_count: l.max_ray_dispatch_count,
        max_ray_recursion_depth: l.max_ray_recursion_depth,
    }
}

#[test]
pub fn test_get_base_device_limits_from_adapter_limits() {
    fn expected_limits_with_default_resolution(adapter_limits: Limits, expected: Limits) -> Limits {
        let default_limits = Limits::default();
        let dim_1d = std::cmp::min(
            adapter_limits.max_texture_dimension_1d,
            default_limits.max_texture_dimension_1d,
        );
        let dim_2d = std::cmp::min(
            adapter_limits.max_texture_dimension_2d,
            default_limits.max_texture_dimension_2d,
        );
        let dim_3d = std::cmp::min(
            adapter_limits.max_texture_dimension_3d,
            default_limits.max_texture_dimension_3d,
        );
        Limits {
            max_texture_dimension_1d: dim_1d,
            max_texture_dimension_2d: dim_2d,
            max_texture_dimension_3d: dim_3d,
            ..expected
        }
    }

    // max_uniform_buffer_binding_size
    //  default: 64 << 10
    //  downlevel_defaults: 16 << 10
    //  downlevel_webgl2_defaults: 16 << 10
    {
        let adapter_limits = Limits {
            max_uniform_buffer_binding_size: (16 << 10) - 1,
            ..Default::default()
        };
        assert_eq!(
            get_base_device_limits_from_adapter_limits(&adapter_limits),
            expected_limits_with_default_resolution(
                adapter_limits,
                Limits::downlevel_webgl2_defaults()
            ),
        );
    }
    {
        let adapter_limits = Limits {
            max_uniform_buffer_binding_size: 16 << 10,
            ..Default::default()
        };
        assert_eq!(
            get_base_device_limits_from_adapter_limits(&adapter_limits),
            expected_limits_with_default_resolution(adapter_limits, Limits::downlevel_defaults()),
        );
    }
    {
        let adapter_limits = Limits {
            max_uniform_buffer_binding_size: (16 << 10) + 1,
            ..Default::default()
        };
        assert_eq!(
            get_base_device_limits_from_adapter_limits(&adapter_limits),
            expected_limits_with_default_resolution(adapter_limits, Limits::downlevel_defaults()),
        );
    }
    {
        let adapter_limits = Limits {
            max_uniform_buffer_binding_size: 64 << 10,
            ..Default::default()
        };
        assert_eq!(
            get_base_device_limits_from_adapter_limits(&adapter_limits),
            expected_limits_with_default_resolution(adapter_limits, Limits::default()),
        );
    }
    {
        let adapter_limits = Limits {
            max_uniform_buffer_binding_size: (64 << 10) + 1,
            ..Default::default()
        };
        assert_eq!(
            get_base_device_limits_from_adapter_limits(&adapter_limits),
            expected_limits_with_default_resolution(adapter_limits, Limits::default()),
        );
    }

    // max_compute_workgroups_per_dimension
    //  default: 65535
    //  downlevel_defaults: 65535
    //  downlevel_webgl2_defaults: 0
    {
        let adapter_limits = Limits {
            max_compute_workgroups_per_dimension: 0,
            ..Default::default()
        };
        assert_eq!(
            get_base_device_limits_from_adapter_limits(&adapter_limits),
            expected_limits_with_default_resolution(
                adapter_limits,
                Limits::downlevel_webgl2_defaults()
            ),
        );
    }
    {
        let adapter_limits = Limits {
            max_compute_workgroups_per_dimension: 65535 - 1,
            ..Default::default()
        };
        assert_eq!(
            get_base_device_limits_from_adapter_limits(&adapter_limits),
            expected_limits_with_default_resolution(
                adapter_limits,
                Limits::downlevel_webgl2_defaults()
            ),
        );
    }
    {
        let adapter_limits = Limits {
            max_compute_workgroups_per_dimension: 65535,
            ..Default::default()
        };
        assert_eq!(
            get_base_device_limits_from_adapter_limits(&adapter_limits),
            expected_limits_with_default_resolution(adapter_limits, Limits::default()),
        );
    }
    {
        let adapter_limits = Limits {
            max_compute_workgroups_per_dimension: 65535 + 1,
            ..Default::default()
        };
        assert_eq!(
            get_base_device_limits_from_adapter_limits(&adapter_limits),
            expected_limits_with_default_resolution(adapter_limits, Limits::default()),
        );
    }

    // Texture dimensions are clamped to default limits.
    {
        let adapter_limits = Limits {
            max_texture_dimension_1d: 16 << 10,
            max_texture_dimension_2d: 16 << 10,
            max_texture_dimension_3d: 16 << 10,
            ..Limits::default()
        };
        assert_eq!(
            get_base_device_limits_from_adapter_limits(&adapter_limits),
            Limits::default(),
        );
    }
    {
        let adapter_limits = Limits {
            max_texture_dimension_1d: 2 << 10,
            max_texture_dimension_2d: 2 << 10,
            max_texture_dimension_3d: 2 << 10,
            ..Limits::downlevel_defaults()
        };
        assert_eq!(
            get_base_device_limits_from_adapter_limits(&adapter_limits),
            Limits {
                max_texture_dimension_1d: 2 << 10,
                max_texture_dimension_2d: 2 << 10,
                max_texture_dimension_3d: 2 << 10,
                ..Limits::downlevel_defaults()
            },
        );
    }
    {
        // Ensure that texture resolution limits of an adapter lower than
        // the default does not lead to the selection of downlevel limits
        // as the base limits.
        let adapter_limits = Limits {
            max_texture_dimension_1d: 16 << 10,
            max_texture_dimension_2d: 16 << 10,
            max_texture_dimension_3d: 2 << 10,
            ..Limits::default()
        };
        assert_eq!(
            get_base_device_limits_from_adapter_limits(&adapter_limits),
            Limits {
                max_texture_dimension_1d: 8 << 10,
                max_texture_dimension_2d: 8 << 10,
                max_texture_dimension_3d: 2 << 10,
                ..Limits::default()
            },
        );
    }
}

#[test]
fn default_limit_tables_match_the_graphics_library() {
    assert_eq!(Limits::defaults(), from_wgt(&wgpu_types::Limits::defaults()));
    assert_eq!(Limits::default(), from_wgt(&wgpu_types::Limits::default()));
    assert_eq!(Limits::downlevel_defaults(), from_wgt(&wgpu_types::Limits::downlevel_defaults()));
    assert_eq!(
        Limits::downlevel_webgl2_defaults(),
        from_wgt(&wgpu_types::Limits::downlevel_webgl2_defaults())
    );
}

#[test]
fn check_limits_agrees_with_the_graphics_library() {
    let tables = [
        wgpu_types::Limits::defaults(),
        wgpu_types::Limits::downlevel_defaults(),
        wgpu_types::Limits::downlevel_webgl2_defaults(),
        wgpu_types::Limits::unlimited(),
        wgpu_types::Limits {
            min_uniform_buffer_offset_alignment: 64,
            ..wgpu_types::Limits::defaults()
        },
        wgpu_types::Limits {
            min_storage_buffer_offset_alignment: 1024,
            max_bind_groups: 8,
            ..wgpu_types::Limits::downlevel_defaults()
        },
    ];
    for requested in &tables {
        for allowed in &tables {
            assert_eq!(
                from_wgt(requested).check_limits(&from_wgt(allowed)),
                requested.check_limits(allowed),
            );
        }
    }
}

#[test]
fn base_limits_keep_a_small_adapter_resolution() {
    let adapter = Limits {
        max_texture_dimension_1d: 1024,
        max_texture_dimension_2d: 4096,
        max_texture_dimension_3d: 512,
        ..Limits::default()
    };
    let base = get_base_device_limits_from_adapter_limits(&adapter);
    assert_eq!(base.max_texture_dimension_1d, 1024);
    assert_eq!(base.max_texture_dimension_2d, 4096);
    assert_eq!(base.max_texture_dimension_3d, 512);
    assert!(base.check_limits(&adapter));
}

#[test]
fn an_adapter_with_default_limits_gets_the_defaults() {
    let adapter = Limits::defaults();
    assert_eq!(get_base_device_limits_from_adapter_limits(&adapter), Limits::defaults());
    let generous = from_wgt(&wgpu_types::Limits::unlimited());
    let base = get_base_device_limits_from_adapter_limits(&generous);
    assert_eq!(base, Limits::defaults());
}

#[test]
fn written_limits_are_asked_for_unchanged() {
    let limits = Limits {
        max_bind_groups: 6,
        max_texture_dimension_2d: 4096,
        max_uniform_buffer_binding_size: 1 << 20,
        max_immediate_size: 64,
        ..Limits::downlevel_defaults()
    };
    let mut supported = NativeSupportedLimits {
        limits: map_required_limits_input_zeroes(),
        extras: Some(NativeLimitsExtras { max_immediate_size: 0 }),
    };
    write_limits_struct(&limits, &mut supported);
    assert_eq!(supported.limits.max_bind_groups, 6);
    assert_eq!(supported.extras, Some(NativeLimitsExtras { max_immediate_size: 64 }));
    let back = map_required_limits(&supported.limits, supported.extras.as_ref());
    assert_eq!(back.max_bind_groups, 6);
    assert_eq!(back.max_texture_dimension_2d, 4096);
    assert_eq!(back.max_uniform_buffer_binding_size, 1 << 20);
    assert_eq!(back.max_immediate_size, 64);
    assert_eq!(back.min_uniform_buffer_offset_alignment, Limits::defaults().min_uniform_buffer_offset_alignment);

    let mut without_extras = NativeSupportedLimits { limits: map_required_limits_input_zeroes(), extras: None };
    write_limits_struct(&limits, &mut without_extras);
    assert_eq!(without_extras.extras, None);
}

fn map_required_limits_input_zeroes() -> NativeLimits {
    NativeLimits {
        max_texture_dimension_1d: 0,
        max_texture_dimension_2d: 0,
        max_texture_dimension_3d: 0,
        max_texture_array_layers: 0,
        max_bind_groups: 0,
        max_dynamic_uniform_buffers_per_pipeline_layout: 0,
        max_dynamic_storage_buffers_per_pipeline_layout: 0,
        max_sampled_textures_per_shader_stage: 0,
        max_samplers_per_shader_stage: 0,
        max_storage_buffers_per_shader_stage: 0,
        max_storage_textures_per_shader_stage: 0,
        max_uniform_buffers_per_shader_stage: 0,
        max_uniform_buffer_binding_size: 0,
        max_storage_buffer_binding_size: 0,
        min_uniform_buffer_offset_alignment: 0,
        min_storage_buffer_offset_alignment: 0,
        max_vertex_buffers: 0,
        max_buffer_size: 0,
        max_vertex_attributes: 0,
        max_vertex_buffer_array_stride: 0,
        max_inter_stage_shader_components: 0,
        max_compute_workgroup_storage_size: 0,
        max_compute_invocations_per_workgroup: 0,
        max_compute_workgroup_size_x: 0,
        max_compute_workgroup_size_y: 0,
        max_compute_workgroup_size_z: 0,
        max_compute_workgroups_per_dimension: 0,
    }
}
