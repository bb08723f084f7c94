use amethyst_renderer::builder::{EffectInit, NewEffect};
use amethyst_renderer::program::{ProgramHandle, ProgramSource};
use amethyst_renderer::state::{
    BufferInfo, BufferRole, BufferUsage, Comparison, CullFace, Depth, DepthMode, FrontFace,
    Primitive, Rasterizer,
};
use gfx::format::{ChannelType, Format, SurfaceType};
use gfx::pso::buffer::Element;
use gfx::state::{Blend, ColorMask};

fn assert_empty(init: &EffectInit) {
    assert!(init.vertex_bufs.is_empty());
    assert!(init.const_bufs.is_empty());
    assert!(init.globals.is_empty());
    assert!(init.samplers.is_empty());
    assert!(init.textures.is_empty());
    assert!(init.out_colors.is_empty());
    assert!(init.out_blends.is_empty());
    assert_eq!(init.out_depth, None);
}

#[test]
fn a_new_builder_culls_back_faces_of_triangle_lists() {
    let vs = ProgramHandle { id: 1 };
    let ps = ProgramHandle { id: 2 };
    let b = NewEffect::new(0, false).simple_handles(vs, ps);
    assert_eq!(b.primitive(), Primitive::TriangleList);
    assert_eq!(
        b.rasterizer(),
        Rasterizer { front_face: FrontFace::CounterClockwise, cull_face: CullFace::Back, multisample: false }
    );
    assert_eq!(*b.source(), ProgramSource::SimpleHandle(vs, ps));
    assert_empty(b.init());
}

#[test]
fn multisampling_turns_on_the_multisample_mode() {
    let b = NewEffect::new(4, false).simple(b"v", b"p");
    assert!(b.rasterizer().multisample);
    assert_eq!(b.rasterizer().cull_face, CullFace::Back);
    assert_eq!(*b.source(), ProgramSource::Simple(b"v", b"p"));
    let b = NewEffect::new(1, true).geom(b"v", b"g", b"p");
    assert!(b.rasterizer().multisample);
    assert_eq!(*b.source(), ProgramSource::Geometry(b"v", b"g", b"p"));
    let b = NewEffect::new(0, true).tess(b"v", b"h", b"d", b"p");
    assert!(!b.rasterizer().multisample);
    assert_eq!(*b.source(), ProgramSource::Tessellated(b"v", b"h", b"d", b"p"));
}

#[test]
fn builder_steps_chain() {
    let mut b = NewEffect::new(0, false).simple(b"v", b"p");
    b.without_back_face_culling()
        .with_primitive_type(Primitive::PatchList(3))
        .with_raw_global("time")
        .with_texture("albedo");
    assert_eq!(b.rasterizer().cull_face, CullFace::Nothing);
    assert_eq!(b.primitive(), Primitive::PatchList(3));
    assert_eq!(b.init().globals, vec!["time"]);
    assert_eq!(b.init().samplers, vec!["albedo"]);
    assert_eq!(b.init().textures, vec!["albedo"]);
}

#[test]
fn constant_buffers_are_described_and_drained_once() {
    let mut b = NewEffect::new(0, false).simple(b"v", b"p");
    b.with_raw_constant_buffer("VertexArgs", 64, 1)
        .with_raw_constant_buffer("Lights", 48, 8);
    assert_eq!(b.init().const_bufs, vec!["VertexArgs", "Lights"]);
    let infos = b.drain_constant_buffers();
    assert_eq!(
        infos,
        vec![
            BufferInfo { role: BufferRole::Constant, usage: BufferUsage::Dynamic, bind: 0, size: 64, stride: 64 },
            BufferInfo { role: BufferRole::Constant, usage: BufferUsage::Dynamic, bind: 0, size: 384, stride: 48 },
        ]
    );
    assert_eq!(b.init().const_bufs, vec!["VertexArgs", "Lights"]);
    assert!(b.drain_constant_buffers().is_empty());
}

#[test]
fn a_depth_mode_sets_the_depth_test() {
    let mut b = NewEffect::new(0, false).simple(b"v", b"p");
    b.with_output("color", Some(DepthMode::LessEqualTest));
    assert_eq!(b.init().out_depth, Some(Depth { fun: Comparison::LessEqual, write: false }));
    assert_eq!(b.init().out_colors, vec!["color"]);
    b.with_output("extra", Some(DepthMode::LessEqualWrite));
    assert_eq!(b.init().out_depth, Some(Depth { fun: Comparison::LessEqual, write: true }));
    b.with_output("plain", None);
    assert_eq!(b.init().out_depth, Some(Depth { fun: Comparison::LessEqual, write: true }));
    assert_eq!(b.init().out_colors, vec!["color", "extra", "plain"]);
}

#[test]
fn no_depth_mode_leaves_no_depth_test_unless_forced() {
    let mut b = NewEffect::new(0, false).simple(b"v", b"p");
    b.with_output("color", None);
    assert_eq!(b.init().out_depth, None);

    let mut b = NewEffect::new(0, true).simple(b"v", b"p");
    b.with_output("color", None);
    assert_eq!(b.init().out_depth, Some(Depth { fun: Comparison::Always, write: true }));

    let mut b = NewEffect::new(0, true).simple(b"v", b"p");
    b.with_output("color", Some(DepthMode::LessEqualTest));
    assert_eq!(b.init().out_depth, Some(Depth { fun: Comparison::LessEqual, write: false }));
}

#[test]
fn blended_outputs_keep_mask_and_blend() {
    let mut b = NewEffect::new(0, false).simple(b"v", b"p");
    let blend = gfx::preset::blend::ALPHA;
    b.with_blended_output("color", ColorMask::all(), blend, Some(DepthMode::LessEqualTest));
    assert_eq!(b.init().out_blends.len(), 1);
    assert_eq!(b.init().out_blends[0].0, "color");
    assert_eq!(b.init().out_blends[0].1, ColorMask::all());
    assert!(b.init().out_blends[0].2 == blend);
    assert!(b.init().out_colors.is_empty());
    assert_eq!(b.init().out_depth, Some(Depth { fun: Comparison::LessEqual, write: false }));

    let mut b = NewEffect::new(0, true).simple(b"v", b"p");
    b.with_blended_output("color", ColorMask::empty(), Blend::default(), None);
    assert_eq!(b.init().out_depth, Some(Depth { fun: Comparison::Always, write: true }));
}

static ATTRIBUTES: [(&str, Element<Format>); 2] = [
    ("position", Element { format: Format(SurfaceType::R32_G32_B32, ChannelType::Float), offset: 0 }),
    ("normal", Element { format: Format(SurfaceType::R32_G32_B32, ChannelType::Float), offset: 12 }),
];

#[test]
fn vertex_buffers_are_added_in_order() {
    let mut b = NewEffect::new(0, false).simple(b"v", b"p");
    b.with_raw_vertex_buffer(&ATTRIBUTES, 24, 0)
        .with_raw_vertex_buffer(&ATTRIBUTES[..1], 12, 1);
    let bufs = &b.init().vertex_bufs;
    assert_eq!(bufs.len(), 2);
    assert_eq!(bufs[0].0.len(), 2);
    assert_eq!(bufs[0].0[1].0, "normal");
    assert_eq!(bufs[0].0[1].1.offset, 12);
    assert_eq!((bufs[0].1, bufs[0].2), (24, 0));
    assert_eq!(bufs[1].0.len(), 1);
    assert_eq!((bufs[1].1, bufs[1].2), (12, 1));
    let init = b.into_init();
    assert_eq!(init.vertex_bufs.len(), 2);
}

#[test]
fn depth_modes_stand_for_less_equal_tests() {
    assert_eq!(DepthMode::LessEqualTest.depth(), Depth { fun: Comparison::LessEqual, write: false });
    assert_eq!(DepthMode::LessEqualWrite.depth(), Depth { fun: Comparison::LessEqual, write: true });
}

#[test]
fn rasterizer_presets() {
    let r = Rasterizer::new_fill();
    assert_eq!(r, Rasterizer { front_face: FrontFace::CounterClockwise, cull_face: CullFace::Nothing, multisample: false });
    assert_eq!(r.with_cull_back().cull_face, CullFace::Back);
}

#[test]
fn empty_init_binds_nothing() {
    assert_empty(&EffectInit::new());
}

#[test]
fn a_cloned_description_binds_the_same() {
    let mut b = NewEffect::new(0, false).simple(b"v", b"p");
    b.with_raw_global("g").with_texture("t").with_output("color", Some(DepthMode::LessEqualWrite));
    let copy = b.init().clone();
    assert_eq!(copy.globals, vec!["g"]);
    assert_eq!(copy.textures, vec!["t"]);
    assert_eq!(copy.samplers, vec!["t"]);
    assert_eq!(copy.out_colors, vec!["color"]);
    assert_eq!(copy.out_depth, Some(Depth { fun: Comparison::LessEqual, write: true }));
}
