use vulkan_vibe::fps::{fps_title, push_decimal};
use vulkan_vibe::pipeline::{
    disc_vertex_count, pipeline_config, render_pass_config, vertex_buffer_bytes, CullMode, LoadOp,
    PolygonMode, StoreOp, Topology, DISC_SEGMENTS,
};

#[test]
fn title_with_one_decimal_place() {
    assert_eq!(fps_title(598), "Vulkan Vibe - FPS: 59.8");
}

#[test]
fn title_edge_values() {
    assert_eq!(fps_title(0), "Vulkan Vibe - FPS: 0.0");
    assert_eq!(fps_title(9), "Vulkan Vibe - FPS: 0.9");
    assert_eq!(fps_title(10), "Vulkan Vibe - FPS: 1.0");
    assert_eq!(fps_title(12345), "Vulkan Vibe - FPS: 1234.5");
}

#[test]
fn decimal_rendering() {
    let mut s = String::new();
    push_decimal(&mut s, 0);
    assert_eq!(s, "0");
    let mut t = String::new();
    push_decimal(&mut t, 9081726354);
    assert_eq!(t, "9081726354");
}

#[test]
fn disc_geometry() {
    // centre, one vertex per segment, one closing vertex
    assert_eq!(DISC_SEGMENTS, 32);
    assert_eq!(disc_vertex_count(DISC_SEGMENTS), 34);
    assert_eq!(vertex_buffer_bytes(34), 272);
}

#[test]
fn pipeline_policy() {
    let p = pipeline_config();
    assert_eq!(p.vertex_stride, 8);
    assert_eq!(p.attribute_offset, 0);
    assert_eq!(p.push_constant_bytes, 64);
    assert_eq!(p.topology, Topology::TriangleFan);
    assert_eq!(p.polygon_mode, PolygonMode::Fill);
    assert_eq!(p.cull_mode, CullMode::NoCulling);
    assert_eq!(p.sample_count, 1);
    assert!(!p.blending);
    assert!(p.dynamic_viewport);
    assert!(p.dynamic_scissor);
}

#[test]
fn render_pass_policy() {
    let rp = render_pass_config();
    assert_eq!(rp.load_op, LoadOp::Clear);
    assert_eq!(rp.store_op, StoreOp::Store);
    assert_eq!(
        rp.initial_layout,
        vulkan_vibe::pipeline::ImageLayout::Undefined
    );
    assert_eq!(
        rp.final_layout,
        vulkan_vibe::pipeline::ImageLayout::PresentSource
    );
    assert_eq!(rp.sample_count, 1);
    assert_eq!(rp.color_attachment, 0);
}
