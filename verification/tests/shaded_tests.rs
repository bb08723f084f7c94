use amethyst_renderer::builder::{Binding, NewEffect};
use amethyst_renderer::program::{ProgramHandle, ProgramSource};
use amethyst_renderer::shaded::DrawShaded;
use amethyst_renderer::state::{Comparison, Depth, DepthMode};
use gfx::format::{ChannelType, Format, SurfaceType};
use gfx::pso::buffer::Element;
use gfx::state::ColorMask;

#[derive(Debug, PartialEq)]
struct PosNormTex;

static ATTRIBUTES: [(&str, Element<Format>); 1] = [(
    "position",
    Element { format: Format(SurfaceType::R32_G32_B32, ChannelType::Float), offset: 0 },
)];

#[test]
fn opaque_shaded_pass_writes_color_with_depth() {
    let pass: DrawShaded<PosNormTex> = DrawShaded::new();
    let builder = NewEffect::new(0, false).simple(b"v", b"p");
    let init = pass.get_init(builder, &ATTRIBUTES, 32, &[]).unwrap();
    assert_eq!(init.vertex_bufs.len(), 1);
    assert_eq!((init.vertex_bufs[0].1, init.vertex_bufs[0].2), (32, 0));
    assert_eq!(init.out_colors, vec!["color"]);
    assert!(init.out_blends.is_empty());
    assert_eq!(init.out_depth, Some(Depth { fun: Comparison::LessEqual, write: true }));
}

#[test]
fn transparent_shaded_pass_blends_color() {
    let blend = gfx::preset::blend::ALPHA;
    let mut pass: DrawShaded<PosNormTex> =
        DrawShaded::new().with_transparency(ColorMask::all(), blend, Some(DepthMode::LessEqualTest));
    let vs = ProgramHandle { id: 5 };
    let ps = ProgramHandle { id: 6 };
    let builder = pass.compile(NewEffect::new(2, false), vs, ps, &ATTRIBUTES, 32, &[]);
    assert_eq!(*builder.source(), ProgramSource::SimpleHandle(vs, ps));
    assert!(builder.rasterizer().multisample);
    let init = builder.init();
    assert!(init.out_colors.is_empty());
    assert_eq!(init.out_blends.len(), 1);
    assert_eq!(init.out_blends[0].0, "color");
    assert_eq!(init.out_blends[0].1, ColorMask::all());
    assert!(init.out_blends[0].2 == blend);
    assert_eq!(init.out_depth, Some(Depth { fun: Comparison::LessEqual, write: false }));
}

#[test]
fn transparency_without_depth_mode_keeps_no_depth_test() {
    let pass: DrawShaded<PosNormTex> =
        DrawShaded::new().with_transparency(ColorMask::all(), gfx::preset::blend::ADD, None);
    let init = pass.get_init(NewEffect::new(0, false).simple(b"v", b"p"), &ATTRIBUTES, 12, &[]).unwrap();
    assert_eq!(init.out_depth, None);
    let init = pass.get_init(NewEffect::new(0, true).simple(b"v", b"p"), &ATTRIBUTES, 12, &[]).unwrap();
    assert_eq!(init.out_depth, Some(Depth { fun: Comparison::Always, write: true }));
}

#[test]
fn a_shaded_pass_ignores_the_program_it_is_given() {
    let pass: DrawShaded<PosNormTex> = DrawShaded::new_with_program(ProgramSource::Simple(b"v", b"p"));
    let init = pass.get_init(NewEffect::new(0, false).simple(b"v", b"p"), &ATTRIBUTES, 12, &[]).unwrap();
    assert_eq!(init.out_colors, vec!["color"]);
    assert!(init.out_blends.is_empty());
}

use amethyst_renderer::shaded::{DrawCall, Visibility};

fn call(entity: u32, with_material: bool, with_global: bool) -> DrawCall {
    DrawCall { entity, with_material, with_global }
}

#[test]
fn without_visibility_every_complete_entity_is_drawn_in_order() {
    let pass: DrawShaded<PosNormTex> = DrawShaded::new();
    let mesh = vec![true, true, false, true, true];
    let material = vec![true, false, true, true, true];
    let global = vec![true, true, true, true];
    let calls = pass.draw_calls(&mesh, &material, &global, None);
    assert_eq!(calls, vec![call(0, true, true), call(3, true, true)]);
}

#[test]
fn with_visibility_unordered_then_ordered_entities_are_drawn() {
    let pass: DrawShaded<PosNormTex> = DrawShaded::new();
    let mesh = vec![true, true, true, false, true];
    let material = vec![true, true, false, true, false];
    let global = vec![true, true, true, true, true];
    let vis = Visibility {
        visible_unordered: vec![false, true, true],
        visible_ordered: vec![4, 3, 0, 9, 2],
    };
    let calls = pass.draw_calls(&mesh, &material, &global, Some(&vis));
    assert_eq!(
        calls,
        vec![
            call(1, true, true),
            call(4, false, true),
            call(0, true, true),
            call(2, false, true),
        ]
    );
}

#[test]
fn nothing_to_draw() {
    let pass: DrawShaded<PosNormTex> = DrawShaded::new();
    let calls = pass.draw_calls(&Vec::new(), &Vec::new(), &Vec::new(), None);
    assert!(calls.is_empty());
    let vis = Visibility { visible_unordered: Vec::new(), visible_ordered: vec![0, 1] };
    let calls = pass.draw_calls(&vec![false, false], &vec![true, true], &vec![true, true], Some(&vis));
    assert!(calls.is_empty());
}

#[test]
fn cloned_and_default_passes_keep_their_transparency() {
    let pass: DrawShaded<PosNormTex> =
        DrawShaded::new().with_transparency(ColorMask::all(), gfx::preset::blend::ALPHA, None);
    let copy = pass.clone();
    let init = copy.get_init(NewEffect::new(0, false).simple(b"v", b"p"), &ATTRIBUTES, 12, &[]).unwrap();
    assert_eq!(init.out_blends.len(), 1);
    let default: DrawShaded<PosNormTex> = Default::default();
    let init = default.get_init(NewEffect::new(0, false).simple(b"v", b"p"), &ATTRIBUTES, 12, &[]).unwrap();
    assert_eq!(init.out_colors, vec!["color"]);
}

#[test]
fn shaded_bindings_come_between_the_vertex_buffer_and_the_output() {
    let pass: DrawShaded<PosNormTex> = DrawShaded::new();
    let bindings = [
        Binding::ConstantBuffer("VertexArgs", 64, 1),
        Binding::ConstantBuffer("PointLights", 32, 128),
        Binding::Global("light_count"),
        Binding::Texture("albedo"),
        Binding::Texture("emission"),
    ];
    let vs = ProgramHandle { id: 1 };
    let ps = ProgramHandle { id: 2 };
    let mut builder = pass.clone().compile(NewEffect::new(0, false), vs, ps, &ATTRIBUTES, 32, &bindings);
    {
        let init = builder.init();
        assert_eq!(init.vertex_bufs.len(), 1);
        assert_eq!(init.const_bufs, vec!["VertexArgs", "PointLights"]);
        assert_eq!(init.globals, vec!["light_count"]);
        assert_eq!(init.textures, vec!["albedo", "emission"]);
        assert_eq!(init.samplers, vec!["albedo", "emission"]);
        assert_eq!(init.out_colors, vec!["color"]);
    }
    let infos = builder.drain_constant_buffers();
    assert_eq!(infos.len(), 2);
    assert_eq!((infos[0].size, infos[0].stride), (64, 64));
    assert_eq!((infos[1].size, infos[1].stride), (4096, 32));
    let init = pass.get_init(NewEffect::new(0, false).simple(b"v", b"p"), &ATTRIBUTES, 32, &bindings).unwrap();
    assert_eq!(init.const_bufs, vec!["VertexArgs", "PointLights"]);
    assert_eq!(init.textures, vec!["albedo", "emission"]);
}

#[test]
fn shaded_passes_compare_by_transparency() {
    let a: DrawShaded<PosNormTex> = DrawShaded::new();
    let b: DrawShaded<PosNormTex> = DrawShaded::new();
    assert_eq!(a, b);
    let c = DrawShaded::new().with_transparency(ColorMask::all(), gfx::preset::blend::ALPHA, None);
    assert_ne!(a, c);
    assert!(format!("{:?}", c).contains("DrawShaded"));
}
