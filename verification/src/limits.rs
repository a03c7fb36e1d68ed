//! Device limits: their defaults, their comparison, and the base limits that a device is given.
use vstd::prelude::*;

verus! {

/// The limits of an adapter or a device, one value per limit of the graphics library.
#[derive(Clone, Copy, Debug, PartialEq, Eq, Structural)]
pub struct Limits {
    pub max_texture_dimension_1d: u32,
    pub max_texture_dimension_2d: u32,
    pub max_texture_dimension_3d: u32,
    pub max_texture_array_layers: u32,
    pub max_bind_groups: u32,
    pub max_bind_groups_plus_vertex_buffers: u32,
    pub max_bindings_per_bind_group: u32,
    pub max_dynamic_uniform_buffers_per_pipeline_layout: u32,
    pub max_dynamic_storage_buffers_per_pipeline_layout: u32,
    pub max_sampled_textures_per_shader_stage: u32,
    pub max_samplers_per_shader_stage: u32,
    pub max_storage_buffers_per_shader_stage: u32,
    pub max_storage_textures_per_shader_stage: u32,
    pub max_uniform_buffers_per_shader_stage: u32,
    pub max_binding_array_elements_per_shader_stage: u32,
    pub max_binding_array_acceleration_structure_elements_per_shader_stage: u32,
    pub max_binding_array_sampler_elements_per_shader_stage: u32,
    pub max_uniform_buffer_binding_size: u64,
    pub max_storage_buffer_binding_size: u64,
    pub max_vertex_buffers: u32,
    pub max_buffer_size: u64,
    pub max_vertex_attributes: u32,
    pub max_vertex_buffer_array_stride: u32,
    pub max_inter_stage_shader_variables: u32,
    pub min_uniform_buffer_offset_alignment: u32,
    pub min_storage_buffer_offset_alignment: u32,
    pub max_color_attachments: u32,
    pub max_color_attachment_bytes_per_sample: u32,
    pub max_compute_workgroup_storage_size: u32,
    pub max_compute_invocations_per_workgroup: u32,
    pub max_compute_workgroup_size_x: u32,
    pub max_compute_workgroup_size_y: u32,
    pub max_compute_workgroup_size_z: u32,
    pub max_compute_workgroups_per_dimension: u32,
    pub max_immediate_size: u32,
    pub max_non_sampler_bindings: u32,
    pub max_task_workgroup_total_count: u32,
    pub max_task_workgroups_per_dimension: u32,
    pub max_mesh_workgroup_total_count: u32,
    pub max_mesh_workgroups_per_dimension: u32,
    pub max_task_invocations_per_workgroup: u32,
    pub max_task_invocations_per_dimension: u32,
    pub max_mesh_invocations_per_workgroup: u32,
    pub max_mesh_invocations_per_dimension: u32,
    pub max_task_payload_size: u32,
    pub max_mesh_output_vertices: u32,
    pub max_mesh_output_primitives: u32,
    pub max_mesh_output_layers: u32,
    pub max_mesh_multiview_view_count: u32,
    pub max_blas_primitive_count: u32,
    pub max_blas_geometry_count: u32,
    pub max_tlas_instance_count: u32,
    pub max_acceleration_structures_per_shader_stage: u32,
    pub max_buffers_and_acceleration_structures_per_shader_stage: u32,
    pub max_multiview_view_count: u32,
    pub max_ray_dispatch_count: u32,
    pub max_ray_recursion_depth: u32,
}

/// The limits that every adapter of the WebGPU standard supports: the default limits.
pub open spec fn spec_defaults() -> Limits {
    Limits {
        max_texture_dimension_1d: 8192,
        max_texture_dimension_2d: 8192,
        max_texture_dimension_3d: 2048,
        max_texture_array_layers: 256,
        max_bind_groups: 4,
        max_bind_groups_plus_vertex_buffers: 24,
        max_bindings_per_bind_group: 1000,
        max_dynamic_uniform_buffers_per_pipeline_layout: 8,
        max_dynamic_storage_buffers_per_pipeline_layout: 4,
        max_sampled_textures_per_shader_stage: 16,
        max_samplers_per_shader_stage: 16,
        max_storage_buffers_per_shader_stage: 8,
        max_storage_textures_per_shader_stage: 4,
        max_uniform_buffers_per_shader_stage: 12,
        max_binding_array_elements_per_shader_stage: 0,
        max_binding_array_acceleration_structure_elements_per_shader_stage: 0,
        max_binding_array_sampler_elements_per_shader_stage: 0,
        max_uniform_buffer_binding_size: 65536,
        max_storage_buffer_binding_size: 134217728,
        max_vertex_buffers: 8,
        max_buffer_size: 268435456,
        max_vertex_attributes: 16,
        max_vertex_buffer_array_stride: 2048,
        max_inter_stage_shader_variables: 16,
        min_uniform_buffer_offset_alignment: 256,
        min_storage_buffer_offset_alignment: 256,
        max_color_attachments: 8,
        max_color_attachment_bytes_per_sample: 32,
        max_compute_workgroup_storage_size: 16384,
        max_compute_invocations_per_workgroup: 256,
        max_compute_workgroup_size_x: 256,
        max_compute_workgroup_size_y: 256,
        max_compute_workgroup_size_z: 64,
        max_compute_workgroups_per_dimension: 65535,
        max_immediate_size: 0,
        max_non_sampler_bindings: 1000000,
        max_task_workgroup_total_count: 0,
        max_task_workgroups_per_dimension: 0,
        max_mesh_workgroup_total_count: 0,
        max_mesh_workgroups_per_dimension: 0,
        max_task_invocations_per_workgroup: 0,
        max_task_invocations_per_dimension: 0,
        max_mesh_invocations_per_workgroup: 0,
        max_mesh_invocations_per_dimension: 0,
        max_task_payload_size: 0,
        max_mesh_output_vertices: 0,
        max_mesh_output_primitives: 0,
        max_mesh_output_layers: 0,
        max_mesh_multiview_view_count: 0,
        max_blas_primitive_count: 0,
        max_blas_geometry_count: 0,
        max_tlas_instance_count: 0,
        max_acceleration_structures_per_shader_stage: 0,
        max_buffers_and_acceleration_structures_per_shader_stage: 28,
        max_multiview_view_count: 0,
        max_ray_dispatch_count: 0,
        max_ray_recursion_depth: 0,
    }
}

/// Limits that lower-end (downlevel) adapters support.
pub open spec fn spec_downlevel_defaults() -> Limits {
    Limits {
        max_texture_dimension_1d: 2048,
        max_texture_dimension_2d: 2048,
        max_texture_dimension_3d: 256,
        max_texture_array_layers: 256,
        max_bind_groups: 4,
        max_bind_groups_plus_vertex_buffers: 24,
        max_bindings_per_bind_group: 1000,
        max_dynamic_uniform_buffers_per_pipeline_layout: 8,
        max_dynamic_storage_buffers_per_pipeline_layout: 4,
        max_sampled_textures_per_shader_stage: 16,
        max_samplers_per_shader_stage: 16,
        max_storage_buffers_per_shader_stage: 4,
        max_storage_textures_per_shader_stage: 4,
        max_uniform_buffers_per_shader_stage: 12,
        max_binding_array_elements_per_shader_stage: 0,
        max_binding_array_acceleration_structure_elements_per_shader_stage: 0,
        max_binding_array_sampler_elements_per_shader_stage: 0,
        max_uniform_buffer_binding_size: 16384,
        max_storage_buffer_binding_size: 134217728,
        max_vertex_buffers: 8,
        max_buffer_size: 268435456,
        max_vertex_attributes: 16,
        max_vertex_buffer_array_stride: 2048,
        max_inter_stage_shader_variables: 15,
        min_uniform_buffer_offset_alignment: 256,
        min_storage_buffer_offset_alignment: 256,
        max_color_attachments: 4,
        max_color_attachment_bytes_per_sample: 32,
        max_compute_workgroup_storage_size: 16352,
        max_compute_invocations_per_workgroup: 256,
        max_compute_workgroup_size_x: 256,
        max_compute_workgroup_size_y: 256,
        max_compute_workgroup_size_z: 64,
        max_compute_workgroups_per_dimension: 65535,
        max_immediate_size: 0,
        max_non_sampler_bindings: 1000000,
        max_task_workgroup_total_count: 0,
        max_task_workgroups_per_dimension: 0,
        max_mesh_workgroup_total_count: 0,
        max_mesh_workgroups_per_dimension: 0,
        max_task_invocations_per_workgroup: 0,
        max_task_invocations_per_dimension: 0,
        max_mesh_invocations_per_workgroup: 0,
        max_mesh_invocations_per_dimension: 0,
        max_task_payload_size: 0,
        max_mesh_output_vertices: 0,
        max_mesh_output_primitives: 0,
        max_mesh_output_layers: 0,
        max_mesh_multiview_view_count: 0,
        max_blas_primitive_count: 0,
        max_blas_geometry_count: 0,
        max_tlas_instance_count: 0,
        max_acceleration_structures_per_shader_stage: 0,
        max_buffers_and_acceleration_structures_per_shader_stage: 24,
        max_multiview_view_count: 0,
        max_ray_dispatch_count: 0,
        max_ray_recursion_depth: 0,
    }
}

/// Limits that adapters restricted to what WebGL2 offers support.
pub open spec fn spec_downlevel_webgl2_defaults() -> Limits {
    Limits {
        max_texture_dimension_1d: 2048,
        max_texture_dimension_2d: 2048,
        max_texture_dimension_3d: 256,
        max_texture_array_layers: 256,
        max_bind_groups: 4,
        max_bind_groups_plus_vertex_buffers: 24,
        max_bindings_per_bind_group: 1000,
        max_dynamic_uniform_buffers_per_pipeline_layout: 8,
        max_dynamic_storage_buffers_per_pipeline_layout: 0,
        max_sampled_textures_per_shader_stage: 16,
        max_samplers_per_shader_stage: 16,
        max_storage_buffers_per_shader_stage: 0,
        max_storage_textures_per_shader_stage: 0,
        max_uniform_buffers_per_shader_stage: 11,
        max_binding_array_elements_per_shader_stage: 0,
        max_binding_array_acceleration_structure_elements_per_shader_stage: 0,
        max_binding_array_sampler_elements_per_shader_stage: 0,
        max_uniform_buffer_binding_size: 16384,
        max_storage_buffer_binding_size: 0,
        max_vertex_buffers: 8,
        max_buffer_size: 268435456,
        max_vertex_attributes: 16,
        max_vertex_buffer_array_stride: 255,
        max_inter_stage_shader_variables: 15,
        min_uniform_buffer_offset_alignment: 256,
        min_storage_buffer_offset_alignment: 256,
        max_color_attachments: 4,
        max_color_attachment_bytes_per_sample: 32,
        max_compute_workgroup_storage_size: 0,
        max_compute_invocations_per_workgroup: 0,
        max_compute_workgroup_size_x: 0,
        max_compute_workgroup_size_y: 0,
        max_compute_workgroup_size_z: 0,
        max_compute_workgroups_per_dimension: 0,
        max_immediate_size: 0,
        max_non_sampler_bindings: 1000000,
        max_task_workgroup_total_count: 0,
        max_task_workgroups_per_dimension: 0,
        max_mesh_workgroup_total_count: 0,
        max_mesh_workgroups_per_dimension: 0,
        max_task_invocations_per_workgroup: 0,
        max_task_invocations_per_dimension: 0,
        max_mesh_invocations_per_workgroup: 0,
        max_mesh_invocations_per_dimension: 0,
        max_task_payload_size: 0,
        max_mesh_output_vertices: 0,
        max_mesh_output_primitives: 0,
        max_mesh_output_layers: 0,
        max_mesh_multiview_view_count: 0,
        max_blas_primitive_count: 0,
        max_blas_geometry_count: 0,
        max_tlas_instance_count: 0,
        max_acceleration_structures_per_shader_stage: 0,
        max_buffers_and_acceleration_structures_per_shader_stage: 19,
        max_multiview_view_count: 0,
        max_ray_dispatch_count: 0,
        max_ray_recursion_depth: 0,
    }
}

/// Whether every limit of `requested` is within the one of `allowed`: at most it for a maximum,
/// at least it for a minimum alignment.
pub open spec fn within_limits(requested: Limits, allowed: Limits) -> bool {
    &&& requested.max_texture_dimension_1d <= allowed.max_texture_dimension_1d
    &&& requested.max_texture_dimension_2d <= allowed.max_texture_dimension_2d
    &&& requested.max_texture_dimension_3d <= allowed.max_texture_dimension_3d
    &&& requested.max_texture_array_layers <= allowed.max_texture_array_layers
    &&& requested.max_bind_groups <= allowed.max_bind_groups
    &&& requested.max_bind_groups_plus_vertex_buffers <= allowed.max_bind_groups_plus_vertex_buffers
    &&& requested.max_bindings_per_bind_group <= allowed.max_bindings_per_bind_group
    &&& requested.max_dynamic_uniform_buffers_per_pipeline_layout <= allowed.max_dynamic_uniform_buffers_per_pipeline_layout
    &&& requested.max_dynamic_storage_buffers_per_pipeline_layout <= allowed.max_dynamic_storage_buffers_per_pipeline_layout
    &&& requested.max_sampled_textures_per_shader_stage <= allowed.max_sampled_textures_per_shader_stage
    &&& requested.max_samplers_per_shader_stage <= allowed.max_samplers_per_shader_stage
    &&& requested.max_storage_buffers_per_shader_stage <= allowed.max_storage_buffers_per_shader_stage
    &&& requested.max_storage_textures_per_shader_stage <= allowed.max_storage_textures_per_shader_stage
    &&& requested.max_uniform_buffers_per_shader_stage <= allowed.max_uniform_buffers_per_shader_stage
    &&& requested.max_binding_array_elements_per_shader_stage <= allowed.max_binding_array_elements_per_shader_stage
    &&& requested.max_binding_array_acceleration_structure_elements_per_shader_stage <= allowed.max_binding_array_acceleration_structure_elements_per_shader_stage
    &&& requested.max_binding_array_sampler_elements_per_shader_stage <= allowed.max_binding_array_sampler_elements_per_shader_stage
    &&& requested.max_uniform_buffer_binding_size <= allowed.max_uniform_buffer_binding_size
    &&& requested.max_storage_buffer_binding_size <= allowed.max_storage_buffer_binding_size
    &&& requested.max_vertex_buffers <= allowed.max_vertex_buffers
    &&& requested.max_buffer_size <= allowed.max_buffer_size
    &&& requested.max_vertex_attributes <= allowed.max_vertex_attributes
    &&& requested.max_vertex_buffer_array_stride <= allowed.max_vertex_buffer_array_stride
    &&& requested.max_inter_stage_shader_variables <= allowed.max_inter_stage_shader_variables
    &&& requested.min_uniform_buffer_offset_alignment >= allowed.min_uniform_buffer_offset_alignment
    &&& requested.min_storage_buffer_offset_alignment >= allowed.min_storage_buffer_offset_alignment
    &&& requested.max_color_attachments <= allowed.max_color_attachments
    &&& requested.max_color_attachment_bytes_per_sample <= allowed.max_color_attachment_bytes_per_sample
    &&& requested.max_compute_workgroup_storage_size <= allowed.max_compute_workgroup_storage_size
    &&& requested.max_compute_invocations_per_workgroup <= allowed.max_compute_invocations_per_workgroup
    &&& requested.max_compute_workgroup_size_x <= allowed.max_compute_workgroup_size_x
    &&& requested.max_compute_workgroup_size_y <= allowed.max_compute_workgroup_size_y
    &&& requested.max_compute_workgroup_size_z <= allowed.max_compute_workgroup_size_z
    &&& requested.max_compute_workgroups_per_dimension <= allowed.max_compute_workgroups_per_dimension
    &&& requested.max_immediate_size <= allowed.max_immediate_size
    &&& requested.max_non_sampler_bindings <= allowed.max_non_sampler_bindings
    &&& requested.max_task_workgroup_total_count <= allowed.max_task_workgroup_total_count
    &&& requested.max_task_workgroups_per_dimension <= allowed.max_task_workgroups_per_dimension
    &&& requested.max_mesh_workgroup_total_count <= allowed.max_mesh_workgroup_total_count
    &&& requested.max_mesh_workgroups_per_dimension <= allowed.max_mesh_workgroups_per_dimension
    &&& requested.max_task_invocations_per_workgroup <= allowed.max_task_invocations_per_workgroup
    &&& requested.max_task_invocations_per_dimension <= allowed.max_task_invocations_per_dimension
    &&& requested.max_mesh_invocations_per_workgroup <= allowed.max_mesh_invocations_per_workgroup
    &&& requested.max_mesh_invocations_per_dimension <= allowed.max_mesh_invocations_per_dimension
    &&& requested.max_task_payload_size <= allowed.max_task_payload_size
    &&& requested.max_mesh_output_vertices <= allowed.max_mesh_output_vertices
    &&& requested.max_mesh_output_primitives <= allowed.max_mesh_output_primitives
    &&& requested.max_mesh_output_layers <= allowed.max_mesh_output_layers
    &&& requested.max_mesh_multiview_view_count <= allowed.max_mesh_multiview_view_count
    &&& requested.max_blas_primitive_count <= allowed.max_blas_primitive_count
    &&& requested.max_blas_geometry_count <= allowed.max_blas_geometry_count
    &&& requested.max_tlas_instance_count <= allowed.max_tlas_instance_count
    &&& requested.max_acceleration_structures_per_shader_stage <= allowed.max_acceleration_structures_per_shader_stage
    &&& requested.max_buffers_and_acceleration_structures_per_shader_stage <= allowed.max_buffers_and_acceleration_structures_per_shader_stage
    &&& requested.max_multiview_view_count <= allowed.max_multiview_view_count
    &&& requested.max_ray_dispatch_count <= allowed.max_ray_dispatch_count
    &&& requested.max_ray_recursion_depth <= allowed.max_ray_recursion_depth
}

impl Limits {
    /// The default limits.
    pub fn defaults() -> (r: Limits)
        ensures
            r == spec_defaults(),
    {
        Limits {
            max_texture_dimension_1d: 8192,
            max_texture_dimension_2d: 8192,
            max_texture_dimension_3d: 2048,
            max_texture_array_layers: 256,
            max_bind_groups: 4,
            max_bind_groups_plus_vertex_buffers: 24,
            max_bindings_per_bind_group: 1000,
            max_dynamic_uniform_buffers_per_pipeline_layout: 8,
            max_dynamic_storage_buffers_per_pipeline_layout: 4,
            max_sampled_textures_per_shader_stage: 16,
            max_samplers_per_shader_stage: 16,
            max_storage_buffers_per_shader_stage: 8,
            max_storage_textures_per_shader_stage: 4,
            max_uniform_buffers_per_shader_stage: 12,
            max_binding_array_elements_per_shader_stage: 0,
            max_binding_array_acceleration_structure_elements_per_shader_stage: 0,
            max_binding_array_sampler_elements_per_shader_stage: 0,
            max_uniform_buffer_binding_size: 65536,
            max_storage_buffer_binding_size: 134217728,
            max_vertex_buffers: 8,
            max_buffer_size: 268435456,
            max_vertex_attributes: 16,
            max_vertex_buffer_array_stride: 2048,
            max_inter_stage_shader_variables: 16,
            min_uniform_buffer_offset_alignment: 256,
            min_storage_buffer_offset_alignment: 256,
            max_color_attachments: 8,
            max_color_attachment_bytes_per_sample: 32,
            max_compute_workgroup_storage_size: 16384,
            max_compute_invocations_per_workgroup: 256,
            max_compute_workgroup_size_x: 256,
            max_compute_workgroup_size_y: 256,
            max_compute_workgroup_size_z: 64,
            max_compute_workgroups_per_dimension: 65535,
            max_immediate_size: 0,
            max_non_sampler_bindings: 1000000,
            max_task_workgroup_total_count: 0,
            max_task_workgroups_per_dimension: 0,
            max_mesh_workgroup_total_count: 0,
            max_mesh_workgroups_per_dimension: 0,
            max_task_invocations_per_workgroup: 0,
            max_task_invocations_per_dimension: 0,
            max_mesh_invocations_per_workgroup: 0,
            max_mesh_invocations_per_dimension: 0,
            max_task_payload_size: 0,
            max_mesh_output_vertices: 0,
            max_mesh_output_primitives: 0,
            max_mesh_output_layers: 0,
            max_mesh_multiview_view_count: 0,
            max_blas_primitive_count: 0,
            max_blas_geometry_count: 0,
            max_tlas_instance_count: 0,
            max_acceleration_structures_per_shader_stage: 0,
            max_buffers_and_acceleration_structures_per_shader_stage: 28,
            max_multiview_view_count: 0,
            max_ray_dispatch_count: 0,
            max_ray_recursion_depth: 0,
        }
    }

    /// The downlevel default limits.
    pub fn downlevel_defaults() -> (r: Limits)
        ensures
            r == spec_downlevel_defaults(),
    {
        Limits {
            max_texture_dimension_1d: 2048,
            max_texture_dimension_2d: 2048,
            max_texture_dimension_3d: 256,
            max_texture_array_layers: 256,
            max_bind_groups: 4,
            max_bind_groups_plus_vertex_buffers: 24,
            max_bindings_per_bind_group: 1000,
            max_dynamic_uniform_buffers_per_pipeline_layout: 8,
            max_dynamic_storage_buffers_per_pipeline_layout: 4,
            max_sampled_textures_per_shader_stage: 16,
            max_samplers_per_shader_stage: 16,
            max_storage_buffers_per_shader_stage: 4,
            max_storage_textures_per_shader_stage: 4,
            max_uniform_buffers_per_shader_stage: 12,
            max_binding_array_elements_per_shader_stage: 0,
            max_binding_array_acceleration_structure_elements_per_shader_stage: 0,
            max_binding_array_sampler_elements_per_shader_stage: 0,
            max_uniform_buffer_binding_size: 16384,
            max_storage_buffer_binding_size: 134217728,
            max_vertex_buffers: 8,
            max_buffer_size: 268435456,
            max_vertex_attributes: 16,
            max_vertex_buffer_array_stride: 2048,
            max_inter_stage_shader_variables: 15,
            min_uniform_buffer_offset_alignment: 256,
            min_storage_buffer_offset_alignment: 256,
            max_color_attachments: 4,
            max_color_attachment_bytes_per_sample: 32,
            max_compute_workgroup_storage_size: 16352,
            max_compute_invocations_per_workgroup: 256,
            max_compute_workgroup_size_x: 256,
            max_compute_workgroup_size_y: 256,
            max_compute_workgroup_size_z: 64,
            max_compute_workgroups_per_dimension: 65535,
            max_immediate_size: 0,
            max_non_sampler_bindings: 1000000,
            max_task_workgroup_total_count: 0,
            max_task_workgroups_per_dimension: 0,
            max_mesh_workgroup_total_count: 0,
            max_mesh_workgroups_per_dimension: 0,
            max_task_invocations_per_workgroup: 0,
            max_task_invocations_per_dimension: 0,
            max_mesh_invocations_per_workgroup: 0,
            max_mesh_invocations_per_dimension: 0,
            max_task_payload_size: 0,
            max_mesh_output_vertices: 0,
            max_mesh_output_primitives: 0,
            max_mesh_output_layers: 0,
            max_mesh_multiview_view_count: 0,
            max_blas_primitive_count: 0,
            max_blas_geometry_count: 0,
            max_tlas_instance_count: 0,
            max_acceleration_structures_per_shader_stage: 0,
            max_buffers_and_acceleration_structures_per_shader_stage: 24,
            max_multiview_view_count: 0,
            max_ray_dispatch_count: 0,
            max_ray_recursion_depth: 0,
        }
    }

    /// The downlevel limits of WebGL2.
    pub fn downlevel_webgl2_defaults() -> (r: Limits)
        ensures
            r == spec_downlevel_webgl2_defaults(),
    {
        Limits {
            max_texture_dimension_1d: 2048,
            max_texture_dimension_2d: 2048,
            max_texture_dimension_3d: 256,
            max_texture_array_layers: 256,
            max_bind_groups: 4,
            max_bind_groups_plus_vertex_buffers: 24,
            max_bindings_per_bind_group: 1000,
            max_dynamic_uniform_buffers_per_pipeline_layout: 8,
            max_dynamic_storage_buffers_per_pipeline_layout: 0,
            max_sampled_textures_per_shader_stage: 16,
            max_samplers_per_shader_stage: 16,
            max_storage_buffers_per_shader_stage: 0,
            max_storage_textures_per_shader_stage: 0,
            max_uniform_buffers_per_shader_stage: 11,
            max_binding_array_elements_per_shader_stage: 0,
            max_binding_array_acceleration_structure_elements_per_shader_stage: 0,
            max_binding_array_sampler_elements_per_shader_stage: 0,
            max_uniform_buffer_binding_size: 16384,
            max_storage_buffer_binding_size: 0,
            max_vertex_buffers: 8,
            max_buffer_size: 268435456,
            max_vertex_attributes: 16,
            max_vertex_buffer_array_stride: 255,
            max_inter_stage_shader_variables: 15,
            min_uniform_buffer_offset_alignment: 256,
            min_storage_buffer_offset_alignment: 256,
            max_color_attachments: 4,
            max_color_attachment_bytes_per_sample: 32,
            max_compute_workgroup_storage_size: 0,
            max_compute_invocations_per_workgroup: 0,
            max_compute_workgroup_size_x: 0,
            max_compute_workgroup_size_y: 0,
            max_compute_workgroup_size_z: 0,
            max_compute_workgroups_per_dimension: 0,
            max_immediate_size: 0,
            max_non_sampler_bindings: 1000000,
            max_task_workgroup_total_count: 0,
            max_task_workgroups_per_dimension: 0,
            max_mesh_workgroup_total_count: 0,
            max_mesh_workgroups_per_dimension: 0,
            max_task_invocations_per_workgroup: 0,
            max_task_invocations_per_dimension: 0,
            max_mesh_invocations_per_workgroup: 0,
            max_mesh_invocations_per_dimension: 0,
            max_task_payload_size: 0,
            max_mesh_output_vertices: 0,
            max_mesh_output_primitives: 0,
            max_mesh_output_layers: 0,
            max_mesh_multiview_view_count: 0,
            max_blas_primitive_count: 0,
            max_blas_geometry_count: 0,
            max_tlas_instance_count: 0,
            max_acceleration_structures_per_shader_stage: 0,
            max_buffers_and_acceleration_structures_per_shader_stage: 19,
            max_multiview_view_count: 0,
            max_ray_dispatch_count: 0,
            max_ray_recursion_depth: 0,
        }
    }

    /// Whether every limit of `self` is within the one of `allowed`.
    pub fn check_limits(&self, allowed: &Limits) -> (r: bool)
        ensures
            r == within_limits(*self, *allowed),
    {
        if self.max_texture_dimension_1d > allowed.max_texture_dimension_1d {
            return false;
        }
        if self.max_texture_dimension_2d > allowed.max_texture_dimension_2d {
            return false;
        }
        if self.max_texture_dimension_3d > allowed.max_texture_dimension_3d {
            return false;
        }
        if self.max_texture_array_layers > allowed.max_texture_array_layers {
            return false;
        }
        if self.max_bind_groups > allowed.max_bind_groups {
            return false;
        }
        if self.max_bind_groups_plus_vertex_buffers > allowed.max_bind_groups_plus_vertex_buffers {
            return false;
        }
        if self.max_bindings_per_bind_group > allowed.max_bindings_per_bind_group {
            return false;
        }
        if self.max_dynamic_uniform_buffers_per_pipeline_layout > allowed.max_dynamic_uniform_buffers_per_pipeline_layout {
            return false;
        }
        if self.max_dynamic_storage_buffers_per_pipeline_layout > allowed.max_dynamic_storage_buffers_per_pipeline_layout {
            return false;
        }
        if self.max_sampled_textures_per_shader_stage > allowed.max_sampled_textures_per_shader_stage {
            return false;
        }
        if self.max_samplers_per_shader_stage > allowed.max_samplers_per_shader_stage {
            return false;
        }
        if self.max_storage_buffers_per_shader_stage > allowed.max_storage_buffers_per_shader_stage {
            return false;
        }
        if self.max_storage_textures_per_shader_stage > allowed.max_storage_textures_per_shader_stage {
            return false;
        }
        if self.max_uniform_buffers_per_shader_stage > allowed.max_uniform_buffers_per_shader_stage {
            return false;
        }
        if self.max_binding_array_elements_per_shader_stage > allowed.max_binding_array_elements_per_shader_stage {
            return false;
        }
        if self.max_binding_array_acceleration_structure_elements_per_shader_stage > allowed.max_binding_array_acceleration_structure_elements_per_shader_stage {
            return false;
        }
        if self.max_binding_array_sampler_elements_per_shader_stage > allowed.max_binding_array_sampler_elements_per_shader_stage {
            return false;
        }
        if self.max_uniform_buffer_binding_size > allowed.max_uniform_buffer_binding_size {
            return false;
        }
        if self.max_storage_buffer_binding_size > allowed.max_storage_buffer_binding_size {
            return false;
        }
        if self.max_vertex_buffers > allowed.max_vertex_buffers {
            return false;
        }
        if self.max_buffer_size > allowed.max_buffer_size {
            return false;
        }
        if self.max_vertex_attributes > allowed.max_vertex_attributes {
            return false;
        }
        if self.max_vertex_buffer_array_stride > allowed.max_vertex_buffer_array_stride {
            return false;
        }
        if self.max_inter_stage_shader_variables > allowed.max_inter_stage_shader_variables {
            return false;
        }
        if self.min_uniform_buffer_offset_alignment < allowed.min_uniform_buffer_offset_alignment {
            return false;
        }
        if self.min_storage_buffer_offset_alignment < allowed.min_storage_buffer_offset_alignment {
            return false;
        }
        if self.max_color_attachments > allowed.max_color_attachments {
            return false;
        }
        if self.max_color_attachment_bytes_per_sample > allowed.max_color_attachment_bytes_per_sample {
            return false;
        }
        if self.max_compute_workgroup_storage_size > allowed.max_compute_workgroup_storage_size {
            return false;
        }
        if self.max_compute_invocations_per_workgroup > allowed.max_compute_invocations_per_workgroup {
            return false;
        }
        if self.max_compute_workgroup_size_x > allowed.max_compute_workgroup_size_x {
            return false;
        }
        if self.max_compute_workgroup_size_y > allowed.max_compute_workgroup_size_y {
            return false;
        }
        if self.max_compute_workgroup_size_z > allowed.max_compute_workgroup_size_z {
            return false;
        }
        if self.max_compute_workgroups_per_dimension > allowed.max_compute_workgroups_per_dimension {
            return false;
        }
        if self.max_immediate_size > allowed.max_immediate_size {
            return false;
        }
        if self.max_non_sampler_bindings > allowed.max_non_sampler_bindings {
            return false;
        }
        if self.max_task_workgroup_total_count > allowed.max_task_workgroup_total_count {
            return false;
        }
        if self.max_task_workgroups_per_dimension > allowed.max_task_workgroups_per_dimension {
            return false;
        }
        if self.max_mesh_workgroup_total_count > allowed.max_mesh_workgroup_total_count {
            return false;
        }
        if self.max_mesh_workgroups_per_dimension > allowed.max_mesh_workgroups_per_dimension {
            return false;
        }
        if self.max_task_invocations_per_workgroup > allowed.max_task_invocations_per_workgroup {
            return false;
        }
        if self.max_task_invocations_per_dimension > allowed.max_task_invocations_per_dimension {
            return false;
        }
        if self.max_mesh_invocations_per_workgroup > allowed.max_mesh_invocations_per_workgroup {
            return false;
        }
        if self.max_mesh_invocations_per_dimension > allowed.max_mesh_invocations_per_dimension {
            return false;
        }
        if self.max_task_payload_size > allowed.max_task_payload_size {
            return false;
        }
        if self.max_mesh_output_vertices > allowed.max_mesh_output_vertices {
            return false;
        }
        if self.max_mesh_output_primitives > allowed.max_mesh_output_primitives {
            return false;
        }
        if self.max_mesh_output_layers > allowed.max_mesh_output_layers {
            return false;
        }
        if self.max_mesh_multiview_view_count > allowed.max_mesh_multiview_view_count {
            return false;
        }
        if self.max_blas_primitive_count > allowed.max_blas_primitive_count {
            return false;
        }
        if self.max_blas_geometry_count > allowed.max_blas_geometry_count {
            return false;
        }
        if self.max_tlas_instance_count > allowed.max_tlas_instance_count {
            return false;
        }
        if self.max_acceleration_structures_per_shader_stage > allowed.max_acceleration_structures_per_shader_stage {
            return false;
        }
        if self.max_buffers_and_acceleration_structures_per_shader_stage > allowed.max_buffers_and_acceleration_structures_per_shader_stage {
            return false;
        }
        if self.max_multiview_view_count > allowed.max_multiview_view_count {
            return false;
        }
        if self.max_ray_dispatch_count > allowed.max_ray_dispatch_count {
            return false;
        }
        if self.max_ray_recursion_depth > allowed.max_ray_recursion_depth {
            return false;
        }
        true
    }
}

/// The smaller of two numbers.
pub open spec fn min_u32(a: u32, b: u32) -> u32 {
    if a <= b { a } else { b }
}

/// `base` with its three maximum texture dimensions replaced.
pub open spec fn with_resolution(base: Limits, dim_1d: u32, dim_2d: u32, dim_3d: u32) -> Limits {
    Limits {
        max_texture_dimension_1d: dim_1d,
        max_texture_dimension_2d: dim_2d,
        max_texture_dimension_3d: dim_3d,
        ..base
    }
}

/// `base` with the texture dimensions that a device of an adapter with `adapter` limits gets:
/// for each, the smaller of the adapter's and the default.
pub open spec fn with_adapter_resolution(base: Limits, adapter: Limits) -> Limits {
    let d = spec_defaults();
    with_resolution(
        base,
        min_u32(adapter.max_texture_dimension_1d, d.max_texture_dimension_1d),
        min_u32(adapter.max_texture_dimension_2d, d.max_texture_dimension_2d),
        min_u32(adapter.max_texture_dimension_3d, d.max_texture_dimension_3d),
    )
}

/// The base limits of a device of an adapter with `adapter` limits: the first of the default,
/// the downlevel and the WebGL2 limits, each with the adapter's resolution, that the adapter
/// supports; the WebGL2 ones where it supports neither of the others.
pub open spec fn base_device_limits(adapter: Limits) -> Limits {
    let default_limits = with_adapter_resolution(spec_defaults(), adapter);
    let downlevel_limits = with_adapter_resolution(spec_downlevel_defaults(), adapter);
    if within_limits(default_limits, adapter) {
        default_limits
    } else if within_limits(downlevel_limits, adapter) {
        downlevel_limits
    } else {
        with_adapter_resolution(spec_downlevel_webgl2_defaults(), adapter)
    }
}

/// The smaller of two numbers.
fn min_of(a: u32, b: u32) -> (r: u32)
    ensures
        r == min_u32(a, b),
{
    if a <= b { a } else { b }
}

/// The limits that a device of an adapter with `adapter_limits` is created with where the
/// caller asks for no particular limits.
pub fn get_base_device_limits_from_adapter_limits(adapter_limits: &Limits) -> (r: Limits)
    ensures
        r == base_device_limits(*adapter_limits),
{
    let default_limits = Limits::defaults();
    let dim_1d = min_of(adapter_limits.max_texture_dimension_1d, default_limits.max_texture_dimension_1d);
    let dim_2d = min_of(adapter_limits.max_texture_dimension_2d, default_limits.max_texture_dimension_2d);
    let dim_3d = min_of(adapter_limits.max_texture_dimension_3d, default_limits.max_texture_dimension_3d);

    let default_limits_with_resolution = Limits {
        max_texture_dimension_1d: dim_1d,
        max_texture_dimension_2d: dim_2d,
        max_texture_dimension_3d: dim_3d,
        ..default_limits
    };
    if default_limits_with_resolution.check_limits(adapter_limits) {
        return default_limits_with_resolution;
    }

    let downlevel_defaults_limits_with_resolution = Limits {
        max_texture_dimension_1d: dim_1d,
        max_texture_dimension_2d: dim_2d,
        max_texture_dimension_3d: dim_3d,
        ..Limits::downlevel_defaults()
    };
    if downlevel_defaults_limits_with_resolution.check_limits(adapter_limits) {
        return downlevel_defaults_limits_with_resolution;
    }

    Limits {
        max_texture_dimension_1d: dim_1d,
        max_texture_dimension_2d: dim_2d,
        max_texture_dimension_3d: dim_3d,
        ..Limits::downlevel_webgl2_defaults()
    }
}

/// The base limits of a device never exceed the adapter's texture dimensions nor the default
/// ones.
pub proof fn base_device_resolution_is_bounded(adapter: Limits)
    ensures
        base_device_limits(adapter).max_texture_dimension_1d <= adapter.max_texture_dimension_1d,
        base_device_limits(adapter).max_texture_dimension_2d <= adapter.max_texture_dimension_2d,
        base_device_limits(adapter).max_texture_dimension_3d <= adapter.max_texture_dimension_3d,
        base_device_limits(adapter).max_texture_dimension_1d <= spec_defaults().max_texture_dimension_1d,
        base_device_limits(adapter).max_texture_dimension_2d <= spec_defaults().max_texture_dimension_2d,
        base_device_limits(adapter).max_texture_dimension_3d <= spec_defaults().max_texture_dimension_3d,
{
}

/// An adapter supports the base limits of its devices whenever it supports at least the WebGL2
/// limits at its own resolution.
pub proof fn base_device_limits_are_supported(adapter: Limits)
    requires
        within_limits(with_adapter_resolution(spec_downlevel_webgl2_defaults(), adapter), adapter),
    ensures
        within_limits(base_device_limits(adapter), adapter),
{
}

/// The default limits, taken at the adapter's resolution, are the base limits of every adapter
/// that supports them.
pub proof fn default_limits_are_preferred(adapter: Limits)
    requires
        within_limits(with_adapter_resolution(spec_defaults(), adapter), adapter),
    ensures
        base_device_limits(adapter) == with_adapter_resolution(spec_defaults(), adapter),
{
}

impl Default for Limits {
    fn default() -> (r: Limits)
        ensures
            r == spec_defaults(),
    {
        Limits::defaults()
    }
}


/// The limits as the C interface lays them out (`WGPULimits`).
#[derive(Clone, Copy, Debug, PartialEq, Eq, Structural)]
pub struct NativeLimits {
    pub max_texture_dimension_1d: u32,
    pub max_texture_dimension_2d: u32,
    pub max_texture_dimension_3d: u32,
    pub max_texture_array_layers: u32,
    pub max_bind_groups: u32,
    pub max_dynamic_uniform_buffers_per_pipeline_layout: u32,
    pub max_dynamic_storage_buffers_per_pipeline_layout: u32,
    pub max_sampled_textures_per_shader_stage: u32,
    pub max_samplers_per_shader_stage: u32,
    pub max_storage_buffers_per_shader_stage: u32,
    pub max_storage_textures_per_shader_stage: u32,
    pub max_uniform_buffers_per_shader_stage: u32,
    pub max_uniform_buffer_binding_size: u64,
    pub max_storage_buffer_binding_size: u64,
    pub min_uniform_buffer_offset_alignment: u32,
    pub min_storage_buffer_offset_alignment: u32,
    pub max_vertex_buffers: u32,
    pub max_buffer_size: u64,
    pub max_vertex_attributes: u32,
    pub max_vertex_buffer_array_stride: u32,
    pub max_inter_stage_shader_components: u32,
    pub max_compute_workgroup_storage_size: u32,
    pub max_compute_invocations_per_workgroup: u32,
    pub max_compute_workgroup_size_x: u32,
    pub max_compute_workgroup_size_y: u32,
    pub max_compute_workgroup_size_z: u32,
    pub max_compute_workgroups_per_dimension: u32,
}

/// The extension of `WGPULimits` that carries the limits particular to this library.
#[derive(Clone, Copy, Debug, PartialEq, Eq, Structural)]
pub struct NativeLimitsExtras {
    pub max_immediate_size: u32,
}

/// The limits that a caller of the C interface is handed back, with the extension that the
/// caller chained to them, if any.
#[derive(Clone, Copy, Debug, PartialEq, Eq, Structural)]
pub struct NativeSupportedLimits {
    pub limits: NativeLimits,
    pub extras: Option<NativeLimitsExtras>,
}

/// The limits that a device is asked for: each limit that the C structure gives as a non-zero
/// value takes that value, every other limit keeps its default.
pub open spec fn required_limits(required: NativeLimits, extras: Option<NativeLimitsExtras>) -> Limits {
    let d = spec_defaults();
    Limits {
        max_texture_dimension_1d: if required.max_texture_dimension_1d != 0 { required.max_texture_dimension_1d } else { d.max_texture_dimension_1d },
        max_texture_dimension_2d: if required.max_texture_dimension_2d != 0 { required.max_texture_dimension_2d } else { d.max_texture_dimension_2d },
        max_texture_dimension_3d: if required.max_texture_dimension_3d != 0 { required.max_texture_dimension_3d } else { d.max_texture_dimension_3d },
        max_texture_array_layers: if required.max_texture_array_layers != 0 { required.max_texture_array_layers } else { d.max_texture_array_layers },
        max_bind_groups: if required.max_bind_groups != 0 { required.max_bind_groups } else { d.max_bind_groups },
        max_bind_groups_plus_vertex_buffers: d.max_bind_groups_plus_vertex_buffers,
        max_bindings_per_bind_group: d.max_bindings_per_bind_group,
        max_dynamic_uniform_buffers_per_pipeline_layout: if required.max_dynamic_uniform_buffers_per_pipeline_layout != 0 { required.max_dynamic_uniform_buffers_per_pipeline_layout } else { d.max_dynamic_uniform_buffers_per_pipeline_layout },
        max_dynamic_storage_buffers_per_pipeline_layout: if required.max_dynamic_storage_buffers_per_pipeline_layout != 0 { required.max_dynamic_storage_buffers_per_pipeline_layout } else { d.max_dynamic_storage_buffers_per_pipeline_layout },
        max_sampled_textures_per_shader_stage: if required.max_sampled_textures_per_shader_stage != 0 { required.max_sampled_textures_per_shader_stage } else { d.max_sampled_textures_per_shader_stage },
        max_samplers_per_shader_stage: if required.max_samplers_per_shader_stage != 0 { required.max_samplers_per_shader_stage } else { d.max_samplers_per_shader_stage },
        max_storage_buffers_per_shader_stage: if required.max_storage_buffers_per_shader_stage != 0 { required.max_storage_buffers_per_shader_stage } else { d.max_storage_buffers_per_shader_stage },
        max_storage_textures_per_shader_stage: if required.max_storage_textures_per_shader_stage != 0 { required.max_storage_textures_per_shader_stage } else { d.max_storage_textures_per_shader_stage },
        max_uniform_buffers_per_shader_stage: if required.max_uniform_buffers_per_shader_stage != 0 { required.max_uniform_buffers_per_shader_stage } else { d.max_uniform_buffers_per_shader_stage },
        max_binding_array_elements_per_shader_stage: d.max_binding_array_elements_per_shader_stage,
        max_binding_array_acceleration_structure_elements_per_shader_stage: d.max_binding_array_acceleration_structure_elements_per_shader_stage,
        max_binding_array_sampler_elements_per_shader_stage: d.max_binding_array_sampler_elements_per_shader_stage,
        max_uniform_buffer_binding_size: if required.max_uniform_buffer_binding_size != 0 { required.max_uniform_buffer_binding_size } else { d.max_uniform_buffer_binding_size },
        max_storage_buffer_binding_size: if required.max_storage_buffer_binding_size != 0 { required.max_storage_buffer_binding_size } else { d.max_storage_buffer_binding_size },
        max_vertex_buffers: if required.max_vertex_buffers != 0 { required.max_vertex_buffers } else { d.max_vertex_buffers },
        max_buffer_size: d.max_buffer_size,
        max_vertex_attributes: if required.max_vertex_attributes != 0 { required.max_vertex_attributes } else { d.max_vertex_attributes },
        max_vertex_buffer_array_stride: d.max_vertex_buffer_array_stride,
        max_inter_stage_shader_variables: d.max_inter_stage_shader_variables,
        min_uniform_buffer_offset_alignment: d.min_uniform_buffer_offset_alignment,
        min_storage_buffer_offset_alignment: d.min_storage_buffer_offset_alignment,
        max_color_attachments: d.max_color_attachments,
        max_color_attachment_bytes_per_sample: d.max_color_attachment_bytes_per_sample,
        max_compute_workgroup_storage_size: d.max_compute_workgroup_storage_size,
        max_compute_invocations_per_workgroup: d.max_compute_invocations_per_workgroup,
        max_compute_workgroup_size_x: d.max_compute_workgroup_size_x,
        max_compute_workgroup_size_y: d.max_compute_workgroup_size_y,
        max_compute_workgroup_size_z: d.max_compute_workgroup_size_z,
        max_compute_workgroups_per_dimension: d.max_compute_workgroups_per_dimension,
        max_immediate_size: match extras {
            Some(e) => if e.max_immediate_size != 0 { e.max_immediate_size } else { d.max_immediate_size },
            None => d.max_immediate_size,
        },
        max_non_sampler_bindings: d.max_non_sampler_bindings,
        max_task_workgroup_total_count: d.max_task_workgroup_total_count,
        max_task_workgroups_per_dimension: d.max_task_workgroups_per_dimension,
        max_mesh_workgroup_total_count: d.max_mesh_workgroup_total_count,
        max_mesh_workgroups_per_dimension: d.max_mesh_workgroups_per_dimension,
        max_task_invocations_per_workgroup: d.max_task_invocations_per_workgroup,
        max_task_invocations_per_dimension: d.max_task_invocations_per_dimension,
        max_mesh_invocations_per_workgroup: d.max_mesh_invocations_per_workgroup,
        max_mesh_invocations_per_dimension: d.max_mesh_invocations_per_dimension,
        max_task_payload_size: d.max_task_payload_size,
        max_mesh_output_vertices: d.max_mesh_output_vertices,
        max_mesh_output_primitives: d.max_mesh_output_primitives,
        max_mesh_output_layers: d.max_mesh_output_layers,
        max_mesh_multiview_view_count: d.max_mesh_multiview_view_count,
        max_blas_primitive_count: d.max_blas_primitive_count,
        max_blas_geometry_count: d.max_blas_geometry_count,
        max_tlas_instance_count: d.max_tlas_instance_count,
        max_acceleration_structures_per_shader_stage: d.max_acceleration_structures_per_shader_stage,
        max_buffers_and_acceleration_structures_per_shader_stage: d.max_buffers_and_acceleration_structures_per_shader_stage,
        max_multiview_view_count: d.max_multiview_view_count,
        max_ray_dispatch_count: d.max_ray_dispatch_count,
        max_ray_recursion_depth: d.max_ray_recursion_depth,
        ..d
    }
}

/// `value` where it is not zero, else `default`.
fn nonzero_or_u32(value: u32, default: u32) -> (r: u32)
    ensures
        r == if value != 0 { value } else { default },
{
    if value != 0 { value } else { default }
}

/// `value` where it is not zero, else `default`.
fn nonzero_or_u64(value: u64, default: u64) -> (r: u64)
    ensures
        r == if value != 0 { value } else { default },
{
    if value != 0 { value } else { default }
}

/// Converts the limits that a caller of the C interface requires into the limits of the
/// graphics library; a limit given as zero keeps its default.
pub fn map_required_limits(required: &NativeLimits, extras: Option<&NativeLimitsExtras>) -> (r: Limits)
    ensures
        r == required_limits(*required, match extras { Some(e) => Some(*e), None => None }),
{
    let d = Limits::defaults();
    let immediate = match extras {
        Some(e) => nonzero_or_u32(e.max_immediate_size, d.max_immediate_size),
        None => d.max_immediate_size,
    };
    Limits {
        max_texture_dimension_1d: nonzero_or_u32(required.max_texture_dimension_1d, d.max_texture_dimension_1d),
        max_texture_dimension_2d: nonzero_or_u32(required.max_texture_dimension_2d, d.max_texture_dimension_2d),
        max_texture_dimension_3d: nonzero_or_u32(required.max_texture_dimension_3d, d.max_texture_dimension_3d),
        max_texture_array_layers: nonzero_or_u32(required.max_texture_array_layers, d.max_texture_array_layers),
        max_bind_groups: nonzero_or_u32(required.max_bind_groups, d.max_bind_groups),
        max_dynamic_uniform_buffers_per_pipeline_layout: nonzero_or_u32(required.max_dynamic_uniform_buffers_per_pipeline_layout, d.max_dynamic_uniform_buffers_per_pipeline_layout),
        max_dynamic_storage_buffers_per_pipeline_layout: nonzero_or_u32(required.max_dynamic_storage_buffers_per_pipeline_layout, d.max_dynamic_storage_buffers_per_pipeline_layout),
        max_sampled_textures_per_shader_stage: nonzero_or_u32(required.max_sampled_textures_per_shader_stage, d.max_sampled_textures_per_shader_stage),
        max_samplers_per_shader_stage: nonzero_or_u32(required.max_samplers_per_shader_stage, d.max_samplers_per_shader_stage),
        max_storage_buffers_per_shader_stage: nonzero_or_u32(required.max_storage_buffers_per_shader_stage, d.max_storage_buffers_per_shader_stage),
        max_storage_textures_per_shader_stage: nonzero_or_u32(required.max_storage_textures_per_shader_stage, d.max_storage_textures_per_shader_stage),
        max_uniform_buffers_per_shader_stage: nonzero_or_u32(required.max_uniform_buffers_per_shader_stage, d.max_uniform_buffers_per_shader_stage),
        max_uniform_buffer_binding_size: nonzero_or_u64(required.max_uniform_buffer_binding_size, d.max_uniform_buffer_binding_size),
        max_storage_buffer_binding_size: nonzero_or_u64(required.max_storage_buffer_binding_size, d.max_storage_buffer_binding_size),
        max_vertex_buffers: nonzero_or_u32(required.max_vertex_buffers, d.max_vertex_buffers),
        max_vertex_attributes: nonzero_or_u32(required.max_vertex_attributes, d.max_vertex_attributes),
        max_immediate_size: immediate,
        ..d
    }
}

/// Every limit that the C requirement carries and gives as zero keeps its default (the limit of
/// the WebGPU standard), and one given as any other value takes that value; the same holds of
/// the immediate data size of a chained extension, which without the extension keeps its
/// default of zero. Every limit that the requirement cannot carry keeps its default.
pub proof fn zero_requirements_keep_the_defaults(required: NativeLimits, extras: Option<NativeLimitsExtras>)
    ensures
        required.max_texture_dimension_1d == 0 ==> required_limits(required, extras).max_texture_dimension_1d == 8192,
        required.max_texture_dimension_1d != 0 ==> required_limits(required, extras).max_texture_dimension_1d == required.max_texture_dimension_1d,
        required.max_texture_dimension_2d == 0 ==> required_limits(required, extras).max_texture_dimension_2d == 8192,
        required.max_texture_dimension_2d != 0 ==> required_limits(required, extras).max_texture_dimension_2d == required.max_texture_dimension_2d,
        required.max_texture_dimension_3d == 0 ==> required_limits(required, extras).max_texture_dimension_3d == 2048,
        required.max_texture_dimension_3d != 0 ==> required_limits(required, extras).max_texture_dimension_3d == required.max_texture_dimension_3d,
        required.max_texture_array_layers == 0 ==> required_limits(required, extras).max_texture_array_layers == 256,
        required.max_texture_array_layers != 0 ==> required_limits(required, extras).max_texture_array_layers == required.max_texture_array_layers,
        required.max_bind_groups == 0 ==> required_limits(required, extras).max_bind_groups == 4,
        required.max_bind_groups != 0 ==> required_limits(required, extras).max_bind_groups == required.max_bind_groups,
        required.max_dynamic_uniform_buffers_per_pipeline_layout == 0 ==> required_limits(required, extras).max_dynamic_uniform_buffers_per_pipeline_layout == 8,
        required.max_dynamic_uniform_buffers_per_pipeline_layout != 0 ==> required_limits(required, extras).max_dynamic_uniform_buffers_per_pipeline_layout == required.max_dynamic_uniform_buffers_per_pipeline_layout,
        required.max_dynamic_storage_buffers_per_pipeline_layout == 0 ==> required_limits(required, extras).max_dynamic_storage_buffers_per_pipeline_layout == 4,
        required.max_dynamic_storage_buffers_per_pipeline_layout != 0 ==> required_limits(required, extras).max_dynamic_storage_buffers_per_pipeline_layout == required.max_dynamic_storage_buffers_per_pipeline_layout,
        required.max_sampled_textures_per_shader_stage == 0 ==> required_limits(required, extras).max_sampled_textures_per_shader_stage == 16,
        required.max_sampled_textures_per_shader_stage != 0 ==> required_limits(required, extras).max_sampled_textures_per_shader_stage == required.max_sampled_textures_per_shader_stage,
        required.max_samplers_per_shader_stage == 0 ==> required_limits(required, extras).max_samplers_per_shader_stage == 16,
        required.max_samplers_per_shader_stage != 0 ==> required_limits(required, extras).max_samplers_per_shader_stage == required.max_samplers_per_shader_stage,
        required.max_storage_buffers_per_shader_stage == 0 ==> required_limits(required, extras).max_storage_buffers_per_shader_stage == 8,
        required.max_storage_buffers_per_shader_stage != 0 ==> required_limits(required, extras).max_storage_buffers_per_shader_stage == required.max_storage_buffers_per_shader_stage,
        required.max_storage_textures_per_shader_stage == 0 ==> required_limits(required, extras).max_storage_textures_per_shader_stage == 4,
        required.max_storage_textures_per_shader_stage != 0 ==> required_limits(required, extras).max_storage_textures_per_shader_stage == required.max_storage_textures_per_shader_stage,
        required.max_uniform_buffers_per_shader_stage == 0 ==> required_limits(required, extras).max_uniform_buffers_per_shader_stage == 12,
        required.max_uniform_buffers_per_shader_stage != 0 ==> required_limits(required, extras).max_uniform_buffers_per_shader_stage == required.max_uniform_buffers_per_shader_stage,
        required.max_uniform_buffer_binding_size == 0 ==> required_limits(required, extras).max_uniform_buffer_binding_size == 65536,
        required.max_uniform_buffer_binding_size != 0 ==> required_limits(required, extras).max_uniform_buffer_binding_size == required.max_uniform_buffer_binding_size,
        required.max_storage_buffer_binding_size == 0 ==> required_limits(required, extras).max_storage_buffer_binding_size == 134217728,
        required.max_storage_buffer_binding_size != 0 ==> required_limits(required, extras).max_storage_buffer_binding_size == required.max_storage_buffer_binding_size,
        required.max_vertex_buffers == 0 ==> required_limits(required, extras).max_vertex_buffers == 8,
        required.max_vertex_buffers != 0 ==> required_limits(required, extras).max_vertex_buffers == required.max_vertex_buffers,
        required.max_vertex_attributes == 0 ==> required_limits(required, extras).max_vertex_attributes == 16,
        required.max_vertex_attributes != 0 ==> required_limits(required, extras).max_vertex_attributes == required.max_vertex_attributes,
        required_limits(required, extras).max_immediate_size == match extras {
            Some(e) => e.max_immediate_size,
            None => 0,
        },
        ({
            let r = required_limits(required, extras);
            let d = spec_defaults();
            Limits {
                max_texture_dimension_1d: d.max_texture_dimension_1d,
                max_texture_dimension_2d: d.max_texture_dimension_2d,
                max_texture_dimension_3d: d.max_texture_dimension_3d,
                max_texture_array_layers: d.max_texture_array_layers,
                max_bind_groups: d.max_bind_groups,
                max_dynamic_uniform_buffers_per_pipeline_layout: d.max_dynamic_uniform_buffers_per_pipeline_layout,
                max_dynamic_storage_buffers_per_pipeline_layout: d.max_dynamic_storage_buffers_per_pipeline_layout,
                max_sampled_textures_per_shader_stage: d.max_sampled_textures_per_shader_stage,
                max_samplers_per_shader_stage: d.max_samplers_per_shader_stage,
                max_storage_buffers_per_shader_stage: d.max_storage_buffers_per_shader_stage,
                max_storage_textures_per_shader_stage: d.max_storage_textures_per_shader_stage,
                max_uniform_buffers_per_shader_stage: d.max_uniform_buffers_per_shader_stage,
                max_uniform_buffer_binding_size: d.max_uniform_buffer_binding_size,
                max_storage_buffer_binding_size: d.max_storage_buffer_binding_size,
                max_vertex_buffers: d.max_vertex_buffers,
                max_vertex_attributes: d.max_vertex_attributes,
                max_immediate_size: d.max_immediate_size,
                ..r
            } == d
        }),
{
}

/// The C layout of a set of limits.
pub open spec fn native_limits_of(limits: Limits) -> NativeLimits {
    NativeLimits {
        max_texture_dimension_1d: limits.max_texture_dimension_1d,
        max_texture_dimension_2d: limits.max_texture_dimension_2d,
        max_texture_dimension_3d: limits.max_texture_dimension_3d,
        max_texture_array_layers: limits.max_texture_array_layers,
        max_bind_groups: limits.max_bind_groups,
        max_dynamic_uniform_buffers_per_pipeline_layout: limits.max_dynamic_uniform_buffers_per_pipeline_layout,
        max_dynamic_storage_buffers_per_pipeline_layout: limits.max_dynamic_storage_buffers_per_pipeline_layout,
        max_sampled_textures_per_shader_stage: limits.max_sampled_textures_per_shader_stage,
        max_samplers_per_shader_stage: limits.max_samplers_per_shader_stage,
        max_storage_buffers_per_shader_stage: limits.max_storage_buffers_per_shader_stage,
        max_storage_textures_per_shader_stage: limits.max_storage_textures_per_shader_stage,
        max_uniform_buffers_per_shader_stage: limits.max_uniform_buffers_per_shader_stage,
        max_uniform_buffer_binding_size: limits.max_uniform_buffer_binding_size,
        max_storage_buffer_binding_size: limits.max_storage_buffer_binding_size,
        min_uniform_buffer_offset_alignment: limits.min_uniform_buffer_offset_alignment,
        min_storage_buffer_offset_alignment: limits.min_storage_buffer_offset_alignment,
        max_vertex_buffers: limits.max_vertex_buffers,
        max_buffer_size: limits.max_buffer_size,
        max_vertex_attributes: limits.max_vertex_attributes,
        max_vertex_buffer_array_stride: limits.max_vertex_buffer_array_stride,
        max_inter_stage_shader_components: limits.max_inter_stage_shader_variables,
        max_compute_workgroup_storage_size: limits.max_compute_workgroup_storage_size,
        max_compute_invocations_per_workgroup: limits.max_compute_invocations_per_workgroup,
        max_compute_workgroup_size_x: limits.max_compute_workgroup_size_x,
        max_compute_workgroup_size_y: limits.max_compute_workgroup_size_y,
        max_compute_workgroup_size_z: limits.max_compute_workgroup_size_z,
        max_compute_workgroups_per_dimension: limits.max_compute_workgroups_per_dimension,
    }
}

/// Writes limits into the structure that a caller of the C interface handed in: every field of
/// `WGPULimits` is written, and the extension, where the caller chained one, receives the
/// largest immediate-data size.
pub fn write_limits_struct(limits: &Limits, supported_limits: &mut NativeSupportedLimits)
    ensures
        final(supported_limits).limits == native_limits_of(*limits),
        final(supported_limits).extras == (match old(supported_limits).extras {
            Some(_) => Some(NativeLimitsExtras { max_immediate_size: limits.max_immediate_size }),
            None => None,
        }),
{
    supported_limits.limits = NativeLimits {
        max_texture_dimension_1d: limits.max_texture_dimension_1d,
        max_texture_dimension_2d: limits.max_texture_dimension_2d,
        max_texture_dimension_3d: limits.max_texture_dimension_3d,
        max_texture_array_layers: limits.max_texture_array_layers,
        max_bind_groups: limits.max_bind_groups,
        max_dynamic_uniform_buffers_per_pipeline_layout: limits.max_dynamic_uniform_buffers_per_pipeline_layout,
        max_dynamic_storage_buffers_per_pipeline_layout: limits.max_dynamic_storage_buffers_per_pipeline_layout,
        max_sampled_textures_per_shader_stage: limits.max_sampled_textures_per_shader_stage,
        max_samplers_per_shader_stage: limits.max_samplers_per_shader_stage,
        max_storage_buffers_per_shader_stage: limits.max_storage_buffers_per_shader_stage,
        max_storage_textures_per_shader_stage: limits.max_storage_textures_per_shader_stage,
        max_uniform_buffers_per_shader_stage: limits.max_uniform_buffers_per_shader_stage,
        max_uniform_buffer_binding_size: limits.max_uniform_buffer_binding_size,
        max_storage_buffer_binding_size: limits.max_storage_buffer_binding_size,
        min_uniform_buffer_offset_alignment: limits.min_uniform_buffer_offset_alignment,
        min_storage_buffer_offset_alignment: limits.min_storage_buffer_offset_alignment,
        max_vertex_buffers: limits.max_vertex_buffers,
        max_buffer_size: limits.max_buffer_size,
        max_vertex_attributes: limits.max_vertex_attributes,
        max_vertex_buffer_array_stride: limits.max_vertex_buffer_array_stride,
        max_inter_stage_shader_components: limits.max_inter_stage_shader_variables,
        max_compute_workgroup_storage_size: limits.max_compute_workgroup_storage_size,
        max_compute_invocations_per_workgroup: limits.max_compute_invocations_per_workgroup,
        max_compute_workgroup_size_x: limits.max_compute_workgroup_size_x,
        max_compute_workgroup_size_y: limits.max_compute_workgroup_size_y,
        max_compute_workgroup_size_z: limits.max_compute_workgroup_size_z,
        max_compute_workgroups_per_dimension: limits.max_compute_workgroups_per_dimension,
    };
    if supported_limits.extras.is_some() {
        supported_limits.extras = Some(NativeLimitsExtras { max_immediate_size: limits.max_immediate_size });
    }
}

/// Limits that a caller reads from a device and hands back as its requirement are asked for
/// unchanged, wherever they are not zero; every limit that the requirement cannot carry keeps
/// its default.
pub proof fn written_limits_are_required_back(limits: Limits)
    requires
        limits.max_texture_dimension_1d != 0,
        limits.max_texture_dimension_2d != 0,
        limits.max_texture_dimension_3d != 0,
        limits.max_texture_array_layers != 0,
        limits.max_bind_groups != 0,
        limits.max_dynamic_uniform_buffers_per_pipeline_layout != 0,
        limits.max_dynamic_storage_buffers_per_pipeline_layout != 0,
        limits.max_sampled_textures_per_shader_stage != 0,
        limits.max_samplers_per_shader_stage != 0,
        limits.max_storage_buffers_per_shader_stage != 0,
        limits.max_storage_textures_per_shader_stage != 0,
        limits.max_uniform_buffers_per_shader_stage != 0,
        limits.max_uniform_buffer_binding_size != 0,
        limits.max_storage_buffer_binding_size != 0,
        limits.max_vertex_buffers != 0,
        limits.max_vertex_attributes != 0,
        limits.max_immediate_size != 0,
    ensures
        ({
            let back = required_limits(
                native_limits_of(limits),
                Some(NativeLimitsExtras { max_immediate_size: limits.max_immediate_size }),
            );
            &&& back.max_texture_dimension_1d == limits.max_texture_dimension_1d
            &&& back.max_texture_dimension_2d == limits.max_texture_dimension_2d
            &&& back.max_texture_dimension_3d == limits.max_texture_dimension_3d
            &&& back.max_texture_array_layers == limits.max_texture_array_layers
            &&& back.max_bind_groups == limits.max_bind_groups
            &&& back.max_dynamic_uniform_buffers_per_pipeline_layout == limits.max_dynamic_uniform_buffers_per_pipeline_layout
            &&& back.max_dynamic_storage_buffers_per_pipeline_layout == limits.max_dynamic_storage_buffers_per_pipeline_layout
            &&& back.max_sampled_textures_per_shader_stage == limits.max_sampled_textures_per_shader_stage
            &&& back.max_samplers_per_shader_stage == limits.max_samplers_per_shader_stage
            &&& back.max_storage_buffers_per_shader_stage == limits.max_storage_buffers_per_shader_stage
            &&& back.max_storage_textures_per_shader_stage == limits.max_storage_textures_per_shader_stage
            &&& back.max_uniform_buffers_per_shader_stage == limits.max_uniform_buffers_per_shader_stage
            &&& back.max_uniform_buffer_binding_size == limits.max_uniform_buffer_binding_size
            &&& back.max_storage_buffer_binding_size == limits.max_storage_buffer_binding_size
            &&& back.max_vertex_buffers == limits.max_vertex_buffers
            &&& back.max_vertex_attributes == limits.max_vertex_attributes
            &&& back.max_immediate_size == limits.max_immediate_size
            &&& back.min_uniform_buffer_offset_alignment == spec_defaults().min_uniform_buffer_offset_alignment
        }),
{
}

} // verus!
