//! The shaded pass: draws meshes with simple lighting.
use vstd::prelude::*;
use std::marker::PhantomData;
use crate::builder::{
    add_bindings, add_blended_output, add_output, add_vertex_buffer, bindings_fit,
    constant_buffer_infos, constant_buffer_names, global_names, law_add_bindings,
    law_output_sets_depth, texture_names, Binding, BuilderView, EffectBuilder, EffectInit, NewEffect,
};
use crate::gfx_types::{Attributes, ElemStride};
use crate::program::{ProgramHandle, ProgramSource};
use crate::state::{Comparison, Depth, DepthMode};

verus! {

/// How a transparent shaded pass writes its colour output: the colour mask,
/// the blend state and the depth mode.
pub type Transparency = (gfx::state::ColorMask, gfx::state::Blend, Option<DepthMode>);

/// Draws meshes with a simple lighting technique; `V` is the vertex format
/// of the meshes.
#[verifier::reject_recursive_types(V)]
#[derive(Debug, PartialEq)]
pub struct DrawShaded<V> {
    _pd: PhantomData<V>,
    transparency: Option<Transparency>,
}

impl<V> Clone for DrawShaded<V> {
    fn clone(&self) -> (c: Self)
        ensures
            c.spec_transparency() == self.spec_transparency(),
    {
        DrawShaded { _pd: PhantomData, transparency: self.transparency }
    }
}

impl<V> Default for DrawShaded<V> {
    fn default() -> (d: Self)
        ensures
            d.spec_transparency() is None,
    {
        DrawShaded { _pd: PhantomData, transparency: None }
    }
}

/// The builder state after the shaded pass has added to `b` its vertex
/// buffer, then the bindings `bindings` (its vertex arguments, light buffers
/// and textures), then its colour output `name`.
pub open spec fn shaded_setup<'a>(
    b: BuilderView<'a>,
    transparency: Option<Transparency>,
    attrs: Attributes<'a>,
    stride: ElemStride,
    bindings: Seq<Binding<'a>>,
    name: &'a str,
) -> BuilderView<'a> {
    let bound = add_bindings(add_vertex_buffer(b, attrs, stride, 0u8), bindings);
    match transparency {
        Some((mask, blend, depth)) => add_blended_output(bound, name, mask, blend, depth),
        None => add_output(bound, name, Some(DepthMode::LessEqualWrite)),
    }
}

/// Setting up the shaded pass, opaque or transparent alike, adds its vertex
/// buffer (per vertex, at the end), then all of `bindings` in order: the
/// constant buffer names with their queued descriptions, the globals, and
/// the textures with their samplers. Then it adds the colour output: for an
/// opaque pass a plain output with a less-or-equal depth test that writes;
/// for a transparent pass a blended output with its mask and blend, its
/// depth set by its depth mode as for any output. Nothing else changes.
pub proof fn law_shaded_setup<'a>(
    b: BuilderView<'a>,
    transparency: Option<Transparency>,
    attrs: Attributes<'a>,
    stride: ElemStride,
    bindings: Seq<Binding<'a>>,
    name: &'a str,
)
    ensures
        ({
            let r = shaded_setup(b, transparency, attrs, stride, bindings, name);
            &&& r.init.vertex_bufs == b.init.vertex_bufs.push((attrs, stride, 0u8))
            &&& r.init.const_bufs == b.init.const_bufs + constant_buffer_names(bindings)
            &&& r.const_bufs == b.const_bufs + constant_buffer_infos(bindings)
            &&& r.init.globals == b.init.globals + global_names(bindings)
            &&& r.init.textures == b.init.textures + texture_names(bindings)
            &&& r.init.samplers == b.init.samplers + texture_names(bindings)
            &&& r.prim == b.prim
            &&& r.rast == b.rast
            &&& r.prog == b.prog
            &&& r.force_depth == b.force_depth
            &&& match transparency {
                None => {
                    &&& r.init.out_colors == b.init.out_colors.push(name)
                    &&& r.init.out_blends == b.init.out_blends
                    &&& r.init.out_depth == Some(Depth { fun: Comparison::LessEqual, write: true })
                },
                Some((mask, blend, depth)) => {
                    &&& r.init.out_colors == b.init.out_colors
                    &&& r.init.out_blends == b.init.out_blends.push((name, mask, blend))
                    &&& r.init.out_depth == match depth {
                        Some(mode) => Some(
                            Depth { fun: Comparison::LessEqual, write: mode == DepthMode::LessEqualWrite },
                        ),
                        None => if b.force_depth {
                            Some(Depth { fun: Comparison::Always, write: true })
                        } else {
                            b.init.out_depth
                        },
                    }
                },
            }
        }),
{
    let v = add_vertex_buffer(b, attrs, stride, 0u8);
    law_add_bindings(v, bindings);
    let bound = add_bindings(v, bindings);
    match transparency {
        Some((mask, blend, depth)) => {
            law_output_sets_depth(bound, name, mask, blend, depth);
        },
        None => {
            law_output_sets_depth(
                bound,
                name,
                vstd::pervasive::arbitrary(),
                vstd::pervasive::arbitrary(),
                Some(DepthMode::LessEqualWrite),
            );
        },
    }
}

impl<V> DrawShaded<V> {
    /// How the pass writes its colour output, if it is transparent.
    pub closed spec fn spec_transparency(&self) -> Option<Transparency> {
        self.transparency
    }

    /// An opaque shaded pass.
    pub fn new() -> (p: DrawShaded<V>)
        ensures
            p.spec_transparency() is None,
    {
        DrawShaded { _pd: PhantomData, transparency: None }
    }

    /// An opaque shaded pass; the program source is not used.
    pub fn new_with_program(p: ProgramSource) -> (d: DrawShaded<V>)
        ensures
            d.spec_transparency() is None,
    {
        DrawShaded::new()
    }

    /// The same pass, transparent: its colour output is written with `mask`
    /// and `blend`, and the depth buffer as `depth` says.
    pub fn with_transparency(self, mask: gfx::state::ColorMask, blend: gfx::state::Blend, depth: Option<DepthMode>) -> (p: DrawShaded<V>)
        ensures
            p.spec_transparency() == Some((mask, blend, depth)),
    {
        DrawShaded { _pd: PhantomData, transparency: Some((mask, blend, depth)) }
    }

    /// Adds to `builder` the pass's vertex buffer, with the attributes `attrs`
    /// of the vertex format and its size `stride`; then `bindings`, the
    /// vertex arguments, light buffers and textures (albedo and emission)
    /// that the pass's shaders read, as the renderer's pass utilities lay
    /// them out; then its colour output: a blended output when the pass is
    /// transparent, otherwise a plain output that tests and writes depth.
    pub fn setup<'a>(
        &self,
        builder: &mut EffectBuilder<'a>,
        attrs: Attributes<'a>,
        stride: ElemStride,
        bindings: &[Binding<'a>],
    )
        requires
            bindings_fit(bindings@),
        ensures
            final(builder)@ == shaded_setup(
                old(builder)@,
                self.spec_transparency(),
                attrs,
                stride,
                bindings@,
                "color",
            ),
    {
        builder.with_raw_vertex_buffer(attrs, stride, 0);
        builder.with_bindings(bindings);
        match self.transparency {
            Some((mask, blend, depth)) => {
                builder.with_blended_output("color", mask, blend, depth);
            },
            None => {
                builder.with_output("color", Some(DepthMode::LessEqualWrite));
            },
        }
    }

    /// The pipeline description of the pass, from a builder for its effect
    /// set up as [`DrawShaded::setup`] does.
    pub fn get_init<'a>(
        &self,
        builder: EffectBuilder<'a>,
        attrs: Attributes<'a>,
        stride: ElemStride,
        bindings: &[Binding<'a>],
    ) -> (init: Option<EffectInit<'a>>)
        requires
            bindings_fit(bindings@),
        ensures
            init matches Some(i) && i@ == shaded_setup(
                builder@,
                self.spec_transparency(),
                attrs,
                stride,
                bindings@,
                "color",
            ).init,
    {
        let mut builder = builder;
        self.setup(&mut builder, attrs, stride, bindings);
        Some(builder.into_init())
    }

    /// Starts the effect of the pass from the vertex program `vs` and the
    /// pixel program `ps`, and sets it up as [`DrawShaded::setup`] does.
    pub fn compile<'a>(
        &mut self,
        effect: NewEffect,
        vs: ProgramHandle,
        ps: ProgramHandle,
        attrs: Attributes<'a>,
        stride: ElemStride,
        bindings: &[Binding<'a>],
    ) -> (b: EffectBuilder<'a>)
        requires
            bindings_fit(bindings@),
        ensures
            b@ == shaded_setup(
                crate::builder::new_builder(
                    effect.spec_multisampling(),
                    effect.spec_force_depth(),
                    ProgramSource::SimpleHandle(vs, ps),
                ),
                old(self).spec_transparency(),
                attrs,
                stride,
                bindings@,
                "color",
            ),
            *final(self) == *old(self),
    {
        let mut builder = effect.simple_handles(vs, ps);
        self.setup(&mut builder, attrs, stride, bindings);
        builder
    }
}

/// One mesh to draw: the entity that has it, and whether its material and
/// its transform are drawn with it (the defaults are used otherwise).
#[derive(Clone, Copy, Debug, PartialEq, Eq, Structural)]
pub struct DrawCall {
    pub entity: u32,
    pub with_material: bool,
    pub with_global: bool,
}

/// The entities the camera sees: those whose order does not matter, by
/// entity index, and those to draw in a given order, back to front.
pub struct Visibility {
    pub visible_unordered: Vec<bool>,
    pub visible_ordered: Vec<u32>,
}

/// Whether `e` is set in `flags`; entities beyond the end are not.
pub open spec fn flag(flags: Seq<bool>, e: int) -> bool {
    0 <= e < flags.len() && flags[e]
}

/// The draw calls for the entities below `k` that have a mesh, a material
/// and a transform (and, where `visible` is given, are visible), in entity
/// order.
pub open spec fn joined_calls(
    mesh: Seq<bool>,
    material: Seq<bool>,
    global: Seq<bool>,
    visible: Option<Seq<bool>>,
    k: int,
) -> Seq<DrawCall>
    decreases k,
{
    if k <= 0 {
        Seq::empty()
    } else {
        let prev = joined_calls(mesh, material, global, visible, k - 1);
        let e = k - 1;
        let seen = match visible {
            Some(v) => flag(v, e),
            None => true,
        };
        if flag(mesh, e) && flag(material, e) && flag(global, e) && seen {
            prev.push(DrawCall { entity: e as u32, with_material: true, with_global: true })
        } else {
            prev
        }
    }
}

/// The draw calls for the first `k` entities of `order` that have a mesh, in
/// that order, each with its material and transform where it has them.
pub open spec fn ordered_calls(
    mesh: Seq<bool>,
    material: Seq<bool>,
    global: Seq<bool>,
    order: Seq<u32>,
    k: int,
) -> Seq<DrawCall>
    decreases k,
{
    if k <= 0 {
        Seq::empty()
    } else {
        let prev = ordered_calls(mesh, material, global, order, k - 1);
        let e = order[k - 1] as int;
        if flag(mesh, e) {
            prev.push(
                DrawCall { entity: e as u32, with_material: flag(material, e), with_global: flag(global, e) },
            )
        } else {
            prev
        }
    }
}

/// The meshes the shaded pass draws, in order: without visibility
/// information, every entity with a mesh, a material and a transform; with
/// it, those of them that are visible in any order, then every entity of the
/// ordered visible list that has a mesh.
pub open spec fn shaded_draw_calls(
    mesh: Seq<bool>,
    material: Seq<bool>,
    global: Seq<bool>,
    visibility: Option<(Seq<bool>, Seq<u32>)>,
) -> Seq<DrawCall> {
    match visibility {
        None => joined_calls(mesh, material, global, None, mesh.len() as int),
        Some((unordered, ordered)) => joined_calls(mesh, material, global, Some(unordered), mesh.len() as int)
            + ordered_calls(mesh, material, global, ordered, ordered.len() as int),
    }
}

/// The draw call the ordered visible list makes for entity `x`: one when it
/// has a mesh, with its material and transform where it has them.
pub open spec fn ordered_call(mesh: Seq<bool>, material: Seq<bool>, global: Seq<bool>, x: u32) -> Option<DrawCall> {
    if (x as int) < mesh.len() && mesh[x as int] {
        Some(
            DrawCall {
                entity: x,
                with_material: (x as int) < material.len() && material[x as int],
                with_global: (x as int) < global.len() && global[x as int],
            },
        )
    } else {
        None
    }
}

/// The joined calls for the entities below `k` are those entities, in
/// increasing order, that have a mesh, a material and a transform and are
/// seen, each drawn with its material and transform.
proof fn lemma_joined_calls(
    mesh: Seq<bool>,
    material: Seq<bool>,
    global: Seq<bool>,
    visible: Option<Seq<bool>>,
    k: int,
)
    requires
        0 <= k <= u32::MAX + 1,
    ensures
        ({
            let c = joined_calls(mesh, material, global, visible, k);
            &&& forall|i: int|
                0 <= i < c.len() ==> {
                    let e = (#[trigger] c[i]).entity as int;
                    &&& e < k
                    &&& e < mesh.len() && mesh[e]
                    &&& e < material.len() && material[e]
                    &&& e < global.len() && global[e]
                    &&& (visible matches Some(v) ==> e < v.len() && v[e])
                    &&& c[i].with_material && c[i].with_global
                }
            &&& forall|i: int, j: int| 0 <= i < j < c.len() ==> (#[trigger] c[i]).entity < (#[trigger] c[j]).entity
            &&& forall|e: int|
                0 <= e < k && e < mesh.len() && mesh[e] && e < material.len() && material[e] && e < global.len()
                    && global[e] && (visible matches Some(v) ==> e < v.len() && v[e]) ==> exists|i: int|
                    0 <= i < c.len() && (#[trigger] c[i]).entity == e
        }),
    decreases k,
{
    if k > 0 {
        lemma_joined_calls(mesh, material, global, visible, k - 1);
        let prev = joined_calls(mesh, material, global, visible, k - 1);
        let c = joined_calls(mesh, material, global, visible, k);
        let e = k - 1;
        assert(((e as u32) as int) == e);
        assert forall|x: int|
            0 <= x < k && x < mesh.len() && mesh[x] && x < material.len() && material[x] && x < global.len()
                && global[x] && (visible matches Some(v) ==> x < v.len() && v[x]) implies exists|i: int|
                0 <= i < c.len() && (#[trigger] c[i]).entity == x by {
            if x < k - 1 {
                let i = choose|i: int| 0 <= i < prev.len() && (#[trigger] prev[i]).entity == x;
                assert(c[i] == prev[i]);
            } else {
                assert(c[c.len() - 1].entity == x);
            }
        }
    }
}

/// The ordered calls for the first `k` entities of `order` are the calls
/// those entities make, in the order of the list.
proof fn lemma_ordered_calls(mesh: Seq<bool>, material: Seq<bool>, global: Seq<bool>, order: Seq<u32>, k: int)
    requires
        0 <= k <= order.len(),
    ensures
        ordered_calls(mesh, material, global, order, k) == order.take(k).filter_map(
            |x: u32| ordered_call(mesh, material, global, x),
        ),
    decreases k,
{
    let f = |x: u32| ordered_call(mesh, material, global, x);
    if k == 0 {
        assert(order.take(0) =~= Seq::<u32>::empty());
    } else {
        lemma_ordered_calls(mesh, material, global, order, k - 1);
        let t = order.take(k);
        assert(t.drop_last() =~= order.take(k - 1));
        assert(t.last() == order[k - 1]);
        let x = order[k - 1];
        assert(((x as int) as u32) == x);
        let prev = ordered_calls(mesh, material, global, order, k - 1);
        if let Some(call) = f(x) {
            assert(prev.push(call) =~= prev + seq![call]);
        }
    }
}

/// Without visibility information the shaded pass draws exactly the
/// entities that have a mesh, a material and a transform, each once, in
/// increasing entity order, each with its material and transform.
pub proof fn law_draw_calls_without_visibility(mesh: Seq<bool>, material: Seq<bool>, global: Seq<bool>)
    requires
        mesh.len() <= u32::MAX,
    ensures
        ({
            let c = shaded_draw_calls(mesh, material, global, None);
            &&& forall|i: int|
                0 <= i < c.len() ==> {
                    let e = (#[trigger] c[i]).entity as int;
                    &&& e < mesh.len() && mesh[e]
                    &&& e < material.len() && material[e]
                    &&& e < global.len() && global[e]
                    &&& c[i].with_material && c[i].with_global
                }
            &&& forall|i: int, j: int| 0 <= i < j < c.len() ==> (#[trigger] c[i]).entity < (#[trigger] c[j]).entity
            &&& forall|e: int|
                0 <= e < mesh.len() && mesh[e] && e < material.len() && material[e] && e < global.len()
                    && global[e] ==> exists|i: int| 0 <= i < c.len() && (#[trigger] c[i]).entity == e
        }),
{
    let c = shaded_draw_calls(mesh, material, global, None);
    lemma_joined_calls(mesh, material, global, None, mesh.len() as int);
    assert forall|e: int|
        0 <= e < mesh.len() && mesh[e] && e < material.len() && material[e] && e < global.len()
            && global[e] implies exists|i: int| 0 <= i < c.len() && (#[trigger] c[i]).entity == e by {
        let none: Option<Seq<bool>> = None;
        assert(none matches Some(v) ==> e < v.len() && v[e]);
    }
}

/// With visibility information the shaded pass first draws exactly the
/// entities of the unordered visible set that have a mesh, a material and a
/// transform, each once, in increasing entity order, with material and
/// transform: an entity outside that set gets no call there. Then it draws
/// the entities of the ordered list, in the list's order, those that have
/// a mesh, each with its material and transform where it has them.
pub proof fn law_draw_calls_with_visibility(
    mesh: Seq<bool>,
    material: Seq<bool>,
    global: Seq<bool>,
    unordered: Seq<bool>,
    ordered: Seq<u32>,
)
    requires
        mesh.len() <= u32::MAX,
    ensures
        ({
            let c = shaded_draw_calls(mesh, material, global, Some((unordered, ordered)));
            let in_order = ordered.filter_map(|x: u32| ordered_call(mesh, material, global, x));
            let j = c.len() - in_order.len();
            &&& 0 <= j
            &&& c.skip(j) == in_order
            &&& forall|i: int|
                0 <= i < j ==> {
                    let e = (#[trigger] c[i]).entity as int;
                    &&& e < mesh.len() && mesh[e]
                    &&& e < material.len() && material[e]
                    &&& e < global.len() && global[e]
                    &&& e < unordered.len() && unordered[e]
                    &&& c[i].with_material && c[i].with_global
                }
            &&& forall|i: int, k: int| 0 <= i < k < j ==> (#[trigger] c[i]).entity < (#[trigger] c[k]).entity
            &&& forall|e: int|
                0 <= e < mesh.len() && mesh[e] && e < material.len() && material[e] && e < global.len()
                    && global[e] && e < unordered.len() && unordered[e] ==> exists|i: int|
                    0 <= i < j && (#[trigger] c[i]).entity == e
            }),
{
    let joined = joined_calls(mesh, material, global, Some(unordered), mesh.len() as int);
    let c = shaded_draw_calls(mesh, material, global, Some((unordered, ordered)));
    lemma_joined_calls(mesh, material, global, Some(unordered), mesh.len() as int);
    lemma_ordered_calls(mesh, material, global, ordered, ordered.len() as int);
    assert(ordered.take(ordered.len() as int) =~= ordered);
    let j = joined.len() as int;
    assert(c.skip(j) =~= ordered_calls(mesh, material, global, ordered, ordered.len() as int));
    assert forall|i: int| 0 <= i < j implies #[trigger] c[i] == joined[i] by {}
    assert forall|e: int|
        0 <= e < mesh.len() && mesh[e] && e < material.len() && material[e] && e < global.len() && global[e]
            && e < unordered.len() && unordered[e] implies exists|i: int| 0 <= i < j && (#[trigger] c[i]).entity == e by {
        let i = choose|i: int| 0 <= i < joined.len() && (#[trigger] joined[i]).entity == e;
        assert(c[i] == joined[i]);
    }
}

/// The contents of the flags `v`, if there are any.
pub open spec fn flags_view(v: Option<&Vec<bool>>) -> Option<Seq<bool>> {
    match v {
        Some(flags) => Some(flags@),
        None => None,
    }
}

/// The contents of the visibility information `v`, if there is any.
pub open spec fn visibility_view(v: Option<&Visibility>) -> Option<(Seq<bool>, Seq<u32>)> {
    match v {
        Some(vis) => Some((vis.visible_unordered@, vis.visible_ordered@)),
        None => None,
    }
}

/// The draw calls for the entities of `mesh` (those below `mesh.len()`) that
/// have a mesh, a material and a transform, and are seen.
fn joined_draw_calls(
    mesh: &Vec<bool>,
    material: &Vec<bool>,
    global: &Vec<bool>,
    visible: Option<&Vec<bool>>,
) -> (calls: Vec<DrawCall>)
    requires
        mesh@.len() <= u32::MAX,
    ensures
        calls@ == joined_calls(mesh@, material@, global@, flags_view(visible), mesh@.len() as int),
{
    let ghost vis = flags_view(visible);
    let mut calls: Vec<DrawCall> = Vec::new();
    let n = mesh.len();
    let mut e: usize = 0;
    while e < n
        invariant
            n == mesh@.len(),
            n <= u32::MAX,
            e <= n,
            vis == flags_view(visible),
            calls@ == joined_calls(mesh@, material@, global@, vis, e as int),
        decreases n - e,
    {
        let seen = match visible {
            Some(v) => e < v.len() && v[e],
            None => true,
        };
        if mesh[e] && e < material.len() && material[e] && e < global.len() && global[e] && seen {
            calls.push(DrawCall { entity: e as u32, with_material: true, with_global: true });
        }
        e = e + 1;
    }
    calls
}

impl<V> DrawShaded<V> {
    /// The meshes the pass draws, in the order it draws them, for the
    /// entities below `has_mesh.len()`: `has_mesh`, `has_material` and
    /// `has_global` tell, by entity index, which entities have a mesh, a
    /// material and a transform; `visibility` is what the camera sees, when
    /// it is known.
    pub fn draw_calls(
        &self,
        has_mesh: &Vec<bool>,
        has_material: &Vec<bool>,
        has_global: &Vec<bool>,
        visibility: Option<&Visibility>,
    ) -> (calls: Vec<DrawCall>)
        requires
            has_mesh@.len() <= u32::MAX,
        ensures
            calls@ == shaded_draw_calls(
                has_mesh@,
                has_material@,
                has_global@,
                visibility_view(visibility),
            ),
    {
        match visibility {
            None => joined_draw_calls(has_mesh, has_material, has_global, None),
            Some(vis) => {
                let mut calls = joined_draw_calls(has_mesh, has_material, has_global, Some(&vis.visible_unordered));
                let ghost joined = calls@;
                let order = &vis.visible_ordered;
                let m = order.len();
                let mut k: usize = 0;
                while k < m
                    invariant
                        m == order@.len(),
                        k <= m,
                        calls@ == joined + ordered_calls(has_mesh@, has_material@, has_global@, order@, k as int),
                    decreases m - k,
                {
                    let e = order[k];
                    let eu = e as usize;
                    if eu < has_mesh.len() && has_mesh[eu] {
                        let with_material = eu < has_material.len() && has_material[eu];
                        let with_global = eu < has_global.len() && has_global[eu];
                        calls.push(DrawCall { entity: e, with_material, with_global });
                    }
                    proof {
                        let next = ordered_calls(has_mesh@, has_material@, has_global@, order@, k + 1);
                        let cur = ordered_calls(has_mesh@, has_material@, has_global@, order@, k as int);
                        if flag(has_mesh@, e as int) {
                            assert(next == cur.push(
                                DrawCall {
                                    entity: e,
                                    with_material: flag(has_material@, e as int),
                                    with_global: flag(has_global@, e as int),
                                },
                            ));
                            assert(joined + next =~= (joined + cur).push(
                                DrawCall {
                                    entity: e,
                                    with_material: flag(has_material@, e as int),
                                    with_global: flag(has_global@, e as int),
                                },
                            ));
                        }
                    }
                    k = k + 1;
                }
                calls
            },
        }
    }
}

} // verus!
