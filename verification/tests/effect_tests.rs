use amethyst_renderer::builder::NewEffect;
use amethyst_renderer::effect::{Effect, EffectResources, Target};
use amethyst_renderer::pass::CompiledPass;
use amethyst_renderer::program::{Program, ProgramHandle, ShaderStages};
use amethyst_renderer::state::{BufferInfo, CullFace, FrontFace, Primitive, Rasterizer};
use std::cell::Cell;

#[derive(Clone, Debug, PartialEq)]
struct Plain;

impl EffectResources for Plain {
    type Pipeline = &'static str;
    type Buffer = u32;
    type Uniform = i64;
    type Texture = u8;
    type Sampler = u16;
    type ColorView = String;
    type DepthView = String;
}

fn target(colors: &[&str], depth: Option<&str>) -> Target<Plain> {
    Target {
        color_bufs: colors.iter().map(|c| c.to_string()).collect(),
        depth_buf: depth.map(|d| d.to_string()),
    }
}

/// Creates buffers numbered 100, 200, 300, ... in the order asked for.
fn counting() -> impl Fn(BufferInfo) -> Result<u32, &'static str> {
    let next = Cell::new(100u32);
    move |_info| {
        let v = next.get();
        next.set(v + 100);
        Ok(v)
    }
}

fn built() -> Effect<Plain> {
    let vs = ProgramHandle { id: 1 };
    let ps = ProgramHandle { id: 2 };
    let mut b = NewEffect::new(0, false).simple_handles(vs, ps);
    b.with_raw_global("time")
        .with_raw_global("scale")
        .with_raw_global("time")
        .with_raw_constant_buffer("VertexArgs", 64, 1)
        .with_raw_constant_buffer("Lights", 16, 4)
        .with_raw_constant_buffer("VertexArgs", 8, 2);
    let compiled: Result<&'static str, ()> = Ok("pso");
    let e = b.build::<Plain, _, _, _>(compiled, counting(), -1, &target(&["screen"], Some("depth"))).unwrap();
    assert!(b.drain_constant_buffers().is_empty());
    e
}

#[test]
fn build_binds_placeholders_buffers_and_outputs() {
    let e = built();
    assert_eq!(e.pso, Some("pso"));
    assert_eq!(e.data.globals, vec![-1, -1, -1]);
    assert_eq!(e.data.const_bufs, vec![100, 200, 300]);
    assert!(e.data.vertex_bufs.is_empty());
    assert!(e.data.textures.is_empty());
    assert!(e.data.samplers.is_empty());
    assert_eq!(e.data.out_colors, vec!["screen".to_string()]);
    assert_eq!(e.data.out_blends, vec!["screen".to_string()]);
    assert_eq!(e.data.out_depth, Some(("depth".to_string(), (0, 0))));
    assert_eq!(e.reload_handles(), (ProgramHandle { id: 1 }, ProgramHandle { id: 2 }));
}

#[test]
fn a_name_stands_for_its_last_position() {
    let mut e = built();
    e.update_global("time", 7);
    assert_eq!(e.data.globals, vec![-1, -1, 7]);
    e.update_global("scale", 3);
    assert_eq!(e.data.globals, vec![-1, 3, 7]);
    assert_eq!(e.constant_buffer("VertexArgs"), Some(&300));
    assert_eq!(e.constant_buffer("Lights"), Some(&200));
    assert_eq!(e.constant_buffer("Missing"), None);
}

#[test]
fn the_last_setting_of_a_global_stays() {
    let mut e = built();
    e.update_global("scale", 3);
    e.update_global("scale", 5);
    assert_eq!(e.data.globals, vec![-1, 5, -1]);
}

#[test]
fn setting_an_unknown_global_changes_nothing() {
    let mut e = built();
    e.update_global("missing", 9);
    assert_eq!(e.data.globals, vec![-1, -1, -1]);
}

#[test]
fn buffers_are_paired_with_names_as_far_as_both_go() {
    let mut b = NewEffect::new(0, false).simple(b"v", b"p");
    b.with_raw_constant_buffer("A", 4, 1).with_raw_constant_buffer("B", 4, 1);
    let compiled: Result<&'static str, ()> = Err(());
    let e = b.build::<Plain, _, _, _>(compiled, counting(), 0, &target(&[], None)).unwrap();
    assert_eq!(e.constant_buffer("A"), Some(&100));
    assert_eq!(e.constant_buffer("B"), Some(&200));
    assert_eq!(e.pso, None);
    assert_eq!(e.program_count(), 0);
    assert!(e.data.out_colors.is_empty());
    assert_eq!(e.data.out_depth, None);
}

#[test]
fn clear_unbinds_textures_samplers_and_vertex_buffers() {
    let mut e = built();
    e.data.textures.push(1);
    e.data.samplers.push(2);
    e.data.vertex_bufs.push(3);
    e.update_global("time", 4);
    e.clear();
    assert!(e.data.textures.is_empty());
    assert!(e.data.samplers.is_empty());
    assert!(e.data.vertex_bufs.is_empty());
    assert_eq!(e.data.globals, vec![-1, -1, 4]);
    assert_eq!(e.data.const_bufs, vec![100, 200, 300]);
    assert_eq!(e.data.out_colors, vec!["screen".to_string()]);
}

#[test]
fn new_target_replaces_all_outputs() {
    let mut e = built();
    e.new_target(&target(&["a", "b"], None));
    assert_eq!(e.data.out_colors, vec!["a".to_string(), "b".to_string()]);
    assert_eq!(e.data.out_blends, vec!["a".to_string(), "b".to_string()]);
    assert_eq!(e.data.out_depth, None);
    assert_eq!(e.data.globals, vec![-1, -1, -1]);
    assert_eq!(e.pso, Some("pso"));
}

#[test]
fn reload_compiles_the_second_program_as_vertex_stage() {
    let e = built();
    let first = Program::new(Box::new(b"first".to_vec()));
    let second = Program::new(Box::new(b"second".to_vec()));
    let req = e.reload_request(Some(&first), Some(&second)).unwrap();
    assert_eq!(req.stages, ShaderStages::Simple { vertex: &b"second"[..], pixel: &b"first"[..] });
    assert_eq!(req.prim, Primitive::TriangleList);
    assert_eq!(
        req.rast,
        Rasterizer { front_face: FrontFace::CounterClockwise, cull_face: CullFace::Back, multisample: false }
    );
    assert!(req.init.globals.is_empty() && req.init.out_colors.is_empty() && req.init.out_depth.is_none());
    assert!(e.reload_request(None, Some(&second)).is_none());
    assert!(e.reload_request(Some(&first), None).is_none());
}

#[test]
fn compiled_pass_hands_new_targets_to_its_effect() {
    let mut pass = CompiledPass::new(built(), 42u32);
    pass.new_target(&target(&["x"], Some("d2")));
    assert_eq!(pass.effect().data.out_colors, vec!["x".to_string()]);
    assert_eq!(pass.effect().data.out_depth, Some(("d2".to_string(), (0, 0))));
    {
        let (inner, effect) = pass.parts_mut();
        assert_eq!(*inner, 42);
        *inner = 43;
        effect.update_global("scale", 8);
    }
    assert_eq!(pass.effect().data.globals, vec![-1, 8, -1]);
    let init = amethyst_renderer::builder::EffectInit::new();
    let first = Program::new(Box::new(b"f".to_vec()));
    let second = Program::new(Box::new(b"s".to_vec()));
    let req = pass.reload_request(Some(&first), Some(&second), init).unwrap();
    assert_eq!(req.stages, ShaderStages::Simple { vertex: &b"s"[..], pixel: &b"f"[..] });
}

fn builder_with_two_buffers() -> amethyst_renderer::builder::EffectBuilder<'static> {
    let mut b = NewEffect::new(0, false).simple_handles(ProgramHandle { id: 1 }, ProgramHandle { id: 2 });
    b.with_raw_global("time")
        .with_raw_constant_buffer("VertexArgs", 64, 1)
        .with_raw_constant_buffer("Lights", 16, 4);
    b
}

#[test]
fn build_creates_each_queued_buffer_from_its_description() {
    let mut b = builder_with_two_buffers();
    let compiled: Result<&'static str, String> = Ok("pso");
    let e = b
        .build::<Plain, &str, String, _>(compiled, |info: BufferInfo| Ok(info.size as u32), 0, &target(&["s"], None))
        .unwrap();
    assert_eq!(e.pso, Some("pso"));
    assert_eq!(e.data.const_bufs, vec![64, 64]);
    assert_eq!(e.constant_buffer("Lights"), Some(&64));
    assert_eq!(e.data.globals, vec![0]);
    assert_eq!(e.reload_handles(), (ProgramHandle { id: 1 }, ProgramHandle { id: 2 }));
}

#[test]
fn a_second_build_creates_no_buffers() {
    let mut b = builder_with_two_buffers();
    let first = b.build::<Plain, &str, (), _>(Ok("pso"), counting(), 0, &target(&[], None)).unwrap();
    assert_eq!(first.data.const_bufs, vec![100, 200]);
    let second = b
        .build::<Plain, &str, (), _>(Ok("pso"), |_info: BufferInfo| Err("not asked"), 0, &target(&[], None))
        .unwrap();
    assert!(second.data.const_bufs.is_empty());
    assert_eq!(second.constant_buffer("VertexArgs"), None);
    assert_eq!(second.data.globals, vec![0]);
}

#[test]
fn build_with_a_failed_compilation_has_no_pipeline() {
    let mut b = builder_with_two_buffers();
    let compiled: Result<&'static str, String> = Err("syntax error".to_string());
    let e = b.build::<Plain, &str, String, _>(compiled, counting(), 0, &target(&[], None)).unwrap();
    assert_eq!(e.pso, None);
    assert_eq!(e.data.const_bufs, vec![100, 200]);
    assert_eq!(e.program_count(), 2);
}

#[test]
fn build_fails_with_the_first_failed_buffer_and_stops_there() {
    let mut b = builder_with_two_buffers();
    let asked = Cell::new(0u32);
    let res = b.build::<Plain, &str, (), _>(
        Ok("pso"),
        |_info: BufferInfo| {
            asked.set(asked.get() + 1);
            Err(if asked.get() == 1 { "first" } else { "second" })
        },
        0,
        &target(&[], None),
    );
    assert_eq!(res.err(), Some("first"));
    assert_eq!(asked.get(), 1);
    assert!(b.drain_constant_buffers().is_empty());

    let mut b = builder_with_two_buffers();
    let asked = Cell::new(0u32);
    let res = b.build::<Plain, &str, (), _>(
        Ok("pso"),
        |_info: BufferInfo| {
            asked.set(asked.get() + 1);
            if asked.get() == 1 { Ok(1) } else { Err("out of memory") }
        },
        0,
        &target(&[], None),
    );
    assert_eq!(res.err(), Some("out of memory"));
    assert_eq!(asked.get(), 2);
}

#[test]
fn draw_parts_need_a_pipeline() {
    let e = built();
    let (pso, data) = e.draw_parts().unwrap();
    assert_eq!(*pso, "pso");
    assert_eq!(data.globals, vec![-1, -1, -1]);
    let mut none = built();
    none.pso = None;
    assert!(none.draw_parts().is_none());
}

#[test]
fn a_cloned_effect_equals_the_original() {
    let e = built();
    let copy = e.clone();
    assert_eq!(copy, e);
    assert_eq!(copy.constant_buffer("Lights"), Some(&200));
    let mut changed = e.clone();
    changed.update_global("time", 1);
    assert_ne!(changed, e);
    assert!(format!("{:?}", e).contains("pso"));
    let pass = CompiledPass::new(e, 1u8);
    let pass_copy = pass.clone();
    assert_eq!(pass_copy.effect(), pass.effect());
}

#[test]
fn only_declared_globals_are_known() {
    let e = built();
    assert!(e.has_global("time"));
    assert!(e.has_global("scale"));
    assert!(!e.has_global("VertexArgs"));
    assert_eq!(e.program_count(), 2);
}
