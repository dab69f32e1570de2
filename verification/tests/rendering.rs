use image::ImageEncoder;
use std::collections::HashMap;

use jandering_engine::handle::{BufferHandle, ShaderHandle, TextureHandle, UntypedBindGroupHandle};
use jandering_engine::render_pass::{
    attachment_views, clamp_instances, plan_submission, ColorView, LoadChoice, MeshDraw,
    RenderAction, RenderPassState, RenderStep, StepPlan, StepTargets, OPAQUE_ALPHA,
};
use jandering_engine::shader::{BlendMode, PrimitiveTopology, ShaderDescriptor, ShaderSource};
use jandering_engine::texture::sampler::{SamplerAddressMode, SamplerFilterMode};
use jandering_engine::texture::texture_usage;
use jandering_engine::texture::{
    decode_image, gpu_usages, image_upload, GpuTextureFormat, RowLayout, TextureDescriptor,
    TextureFormat, TextureUsageFlags,
};
use jandering_engine::types::UVec2;

fn surface_step(depth: Option<usize>) -> StepTargets {
    StepTargets {
        target: None,
        depth_tex: depth.map(TextureHandle),
        resolve_target: None,
        clear_color: false,
        clear_depth: false,
    }
}

fn empty_step(targets: StepTargets) -> RenderStep {
    RenderStep {
        targets,
        shader: None,
        bind_groups: HashMap::new(),
        alpha: OPAQUE_ALPHA,
        action: RenderAction::Empty,
    }
}

#[test]
fn attachments_of_texture_and_surface_steps() {
    assert_eq!(attachment_views(&surface_step(None)), (ColorView::Surface, None));
    let to_texture = StepTargets {
        target: Some(TextureHandle(1)),
        depth_tex: None,
        resolve_target: Some(TextureHandle(2)),
        clear_color: false,
        clear_depth: false,
    };
    assert_eq!(
        attachment_views(&to_texture),
        (ColorView::Texture(TextureHandle(1)), Some(ColorView::Texture(TextureHandle(2))))
    );
    let unresolved = StepTargets { resolve_target: None, ..to_texture };
    assert_eq!(
        attachment_views(&unresolved),
        (ColorView::Texture(TextureHandle(1)), Some(ColorView::Surface))
    );
}

#[test]
fn new_passes_begin_where_targets_change() {
    let to_texture = StepTargets {
        target: Some(TextureHandle(4)),
        depth_tex: Some(TextureHandle(9)),
        resolve_target: None,
        clear_color: true,
        clear_depth: true,
    };
    let steps = [
        empty_step(surface_step(Some(9))),
        empty_step(surface_step(Some(9))),
        empty_step(to_texture),
        empty_step(surface_step(Some(9))),
        empty_step(surface_step(None)),
        empty_step(surface_step(Some(8))),
    ];
    let plan = plan_submission(&steps);
    assert_eq!(plan.len(), 5);
    let begins: Vec<bool> = plan.iter().map(|p| p.pass.begins_pass).collect();
    assert_eq!(begins, vec![true, false, true, false, true]);
    assert!(plan.iter().all(|p| p.draw.is_none() && p.shader.is_none()));
    assert_eq!(
        plan[2].pass,
        StepPlan {
            begins_pass: true,
            view: ColorView::Texture(TextureHandle(4)),
            resolve: Some(ColorView::Surface),
            depth: Some(TextureHandle(9)),
            color_load: LoadChoice::Clear,
            depth_load: LoadChoice::Clear,
        }
    );
    assert_eq!(plan[0].pass.color_load, LoadChoice::Load);
    assert_eq!(plan[4].pass.depth, None);
    assert!(plan_submission(&[empty_step(surface_step(None))]).is_empty());
}

#[test]
fn draws_are_clamped_to_the_instances() {
    assert_eq!(clamp_instances(0, 10, 4), (0, 4));
    assert_eq!(clamp_instances(2, 3, 4), (2, 3));
    assert_eq!(clamp_instances(6, 2, 4), (6, 4));
    assert_eq!(clamp_instances(3, 1, 4), (3, 1));
}

#[test]
fn shader_descriptor_defaults_and_builders() {
    let d = ShaderDescriptor::default();
    assert!(matches!(d.source, ShaderSource::Default));
    assert_eq!((d.vs_entry, d.fs_entry), ("vs_main", "fs_main"));
    assert!(d.backface_culling && !d.depth && !d.stripped);
    assert_eq!(d.multisample, 1);
    assert!(matches!(ShaderDescriptor::default_flat().source, ShaderSource::DefaultFlat));

    let d = ShaderDescriptor::default()
        .with_source("code")
        .with_depth(true)
        .with_stripping(true)
        .with_backface_culling(false)
        .with_multisample(4)
        .with_vs_entry("vs")
        .with_fs_entry("fs")
        .with_descriptors(vec![])
        .with_bind_group_layouts(vec![]);
    assert!(matches!(d.source, ShaderSource::Code("code")));
    assert_eq!((d.vs_entry, d.fs_entry), ("vs", "fs"));
    let p = d.pipeline();
    assert_eq!(p.topology, PrimitiveTopology::TriangleStrip);
    assert!(!p.cull_back_faces);
    assert_eq!(p.depth_format, Some(GpuTextureFormat::Depth32Float));
    assert_eq!(p.target_format, GpuTextureFormat::Bgra8UnormSrgb);
    assert_eq!(p.sample_count, 4);

    assert_eq!(p.blend, BlendMode::Alpha);
    let p = ShaderDescriptor::default().pipeline();
    assert_eq!(p.blend, BlendMode::Alpha);
    assert_eq!(p.topology, PrimitiveTopology::TriangleList);
    assert!(p.cull_back_faces);
    assert_eq!(p.depth_format, None);
}

#[test]
fn usage_bits_turn_on_gpu_usages() {
    assert_eq!(
        gpu_usages(texture_usage::BIND | texture_usage::TARGET),
        TextureUsageFlags {
            texture_binding: true,
            copy_src: false,
            copy_dst: false,
            render_attachment: true,
        }
    );
    assert_eq!(
        gpu_usages(texture_usage::NONE),
        TextureUsageFlags {
            texture_binding: false,
            copy_src: false,
            copy_dst: false,
            render_attachment: false,
        }
    );
    assert!(gpu_usages(texture_usage::COPY_SRC).copy_src);
    assert!(gpu_usages(texture_usage::COPY_TARGET).copy_dst);
}

#[test]
fn texture_creation_plan() {
    let d = TextureDescriptor::default();
    assert_eq!(d.name, "texture");
    let c = d.creation();
    assert_eq!((c.width, c.height, c.sample_count), (0, 0, 1));
    assert_eq!(c.format, GpuTextureFormat::Bgra8UnormSrgb);
    assert!(c.usages.texture_binding && c.usages.copy_dst && c.usages.render_attachment);
    assert!(!c.usages.copy_src);
    assert_eq!(c.upload, None);

    let pixels = [0u8; 24];
    let d = TextureDescriptor {
        size: UVec2::new(3, 2),
        format: TextureFormat::Rgba8U,
        data: Some(&pixels[..]),
        ..TextureDescriptor::default()
    };
    let c = d.creation();
    assert_eq!(c.format, GpuTextureFormat::Rgba8UnormSrgb);
    assert_eq!(c.upload, Some(RowLayout { bytes_per_row: 12, rows_per_image: 2 }));

    let depth = TextureDescriptor {
        size: UVec2::new(5, 5),
        format: TextureFormat::Depth32F,
        data: Some(&pixels[..]),
        ..TextureDescriptor::default()
    };
    let c = depth.creation();
    assert_eq!(c.format, GpuTextureFormat::Depth32Float);
    assert_eq!(c.upload, Some(RowLayout { bytes_per_row: 5, rows_per_image: 5 }));
    assert_eq!(TextureFormat::F32.channels(), 1);
    assert_eq!(TextureFormat::Depth16U.gpu_format(), GpuTextureFormat::Depth16Unorm);
}

#[test]
fn image_upload_plan() {
    let desc = TextureDescriptor { address_mode: SamplerAddressMode::Repeat, ..TextureDescriptor::default() };
    let u = image_upload(2, 3, vec![7; 24], &desc);
    assert_eq!((u.width, u.height), (2, 3));
    assert_eq!(u.format, GpuTextureFormat::Rgba8UnormSrgb);
    assert_eq!(u.rows, RowLayout { bytes_per_row: 8, rows_per_image: 3 });
    assert_eq!(u.address_mode, SamplerAddressMode::Repeat);
    assert_eq!(u.mag_filter, SamplerFilterMode::Linear);
    assert_eq!(u.mipmap_filter, SamplerFilterMode::Nearest);
    assert!(u.usages.texture_binding && u.usages.copy_dst);
    assert!(!u.usages.copy_src && !u.usages.render_attachment);
    assert_eq!(u.pixels, vec![7; 24]);

    let normal = TextureDescriptor { is_normal_map: true, ..TextureDescriptor::default() };
    assert_eq!(image_upload(1, 1, vec![0; 4], &normal).format, GpuTextureFormat::Rgba8Unorm);
    let widest = image_upload(0x3fff_ffff, 0, vec![], &normal);
    assert_eq!(widest.rows.bytes_per_row, 0xffff_fffc);
}

fn png_bytes(width: u32, height: u32, rgba: &[u8]) -> Vec<u8> {
    let mut out = Vec::new();
    image::codecs::png::PngEncoder::new(&mut out)
        .write_image(rgba, width, height, image::ColorType::Rgba8)
        .unwrap();
    out
}

#[test]
fn decoded_png_is_uploaded_as_rgba() {
    let rgba = [255u8, 0, 0, 255, 0, 255, 0, 128];
    let bytes = png_bytes(2, 1, &rgba);
    let u = decode_image(&bytes, &TextureDescriptor::default()).unwrap();
    assert_eq!((u.width, u.height), (2, 1));
    assert_eq!(u.pixels, rgba.to_vec());
    assert_eq!(u.rows, RowLayout { bytes_per_row: 8, rows_per_image: 1 });
}

#[test]
fn undecodable_bytes_give_nothing() {
    assert!(decode_image(b"not an image", &TextureDescriptor::default()).is_none());
    assert!(decode_image(&[], &TextureDescriptor::default()).is_none());
}

#[test]
fn a_draw_uses_up_the_clears() {
    let mut state = StepTargets {
        target: Some(TextureHandle(1)),
        depth_tex: Some(TextureHandle(2)),
        resolve_target: None,
        clear_color: true,
        clear_depth: true,
    };
    let first = state.take_for_draw();
    assert!(first.clear_color && first.clear_depth);
    let second = state.take_for_draw();
    assert!(!second.clear_color && !second.clear_depth);
    assert_eq!(second.target, Some(TextureHandle(1)));
    assert_eq!(second.depth_tex, Some(TextureHandle(2)));
    let plan = plan_submission(&[empty_step(first), empty_step(second), empty_step(second)]);
    assert_eq!(plan[0].pass.color_load, LoadChoice::Clear);
    assert_eq!(plan[1].pass.color_load, LoadChoice::Load);
    assert_eq!(plan[1].pass.depth_load, LoadChoice::Load);
}

#[test]
fn recorded_draws_carry_the_pass_state() {
    let mut pass = RenderPassState::new();
    assert!(pass.shader.is_none() && pass.bind_groups.is_empty());
    assert_eq!(pass.alpha, 1.0f32.to_bits());
    pass.set_target(Some(TextureHandle(3)), None);
    pass.with_depth(TextureHandle(4), true);
    pass.with_clear_color(0.5f32.to_bits());
    pass.set_shader(ShaderHandle(2));
    pass.bind(0, UntypedBindGroupHandle(7));
    pass.bind(1, UntypedBindGroupHandle(8));
    pass.unbind(1);
    let vb = BufferHandle::uniform(10);
    let ib = BufferHandle::uniform(11);
    let first = pass.render_range(vb, ib, Some(BufferHandle::uniform(12)), 6, 4, 0, 10);
    let second = pass.render_range(vb, ib, None, 6, 4, 1, 2);
    let open = pass.render_empty();
    assert!(first.targets.clear_color && first.targets.clear_depth);
    assert!(!second.targets.clear_color && !second.targets.clear_depth);
    assert_eq!(second.shader, Some(ShaderHandle(2)));
    assert_eq!(second.alpha, 0.5f32.to_bits());

    let plan = plan_submission(&[first, second, open]);
    assert_eq!(plan.len(), 2);
    assert_eq!(plan[0].pass.color_load, LoadChoice::Clear);
    assert_eq!(plan[1].pass.color_load, LoadChoice::Load);
    assert_eq!(plan[0].shader, Some(ShaderHandle(2)));
    let bound: Vec<(u32, UntypedBindGroupHandle)> = plan[1].bind_groups.iter().map(|(s, h)| (*s, *h)).collect();
    assert_eq!(bound, vec![(0, UntypedBindGroupHandle(7))]);
    assert_eq!(
        plan[0].draw,
        Some(MeshDraw {
            vertex_buffer: vb,
            index_buffer: ib,
            instance_buffer: Some(BufferHandle::uniform(12)),
            num_indices: 6,
            first_instance: 0,
            end_instance: 4,
        })
    );
    assert_eq!(plan[1].draw.map(|d| (d.first_instance, d.end_instance)), Some((1, 2)));
}
