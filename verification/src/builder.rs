//! Assembling the description of an effect's pipeline state.
use vstd::prelude::*;
use crate::gfx_types::{Attributes, ElemStride, InstanceRate};
use crate::effect::{
    effect_steps, entries_of, law_effect_stays_wf, lemma_entries_of, names_within, outputs_of,
    with_global, Effect, EffectData, EffectResources, EffectStep, EffectView, NameTable, Target,
};
use crate::program::{ProgramHandle, ProgramSource};
use vstd::pervasive::arbitrary;
use crate::state::{
    BufferInfo, BufferRole, BufferUsage, Comparison, CullFace, Depth, DepthMode, FrontFace,
    Primitive, Rasterizer,
};

verus! {

/// One vertex buffer of a pipeline: its named attributes, the distance
/// between two vertices and the instance rate.
pub type VertexBufferInit<'a> = (Attributes<'a>, ElemStride, InstanceRate);

/// One blended colour output: its name, colour mask and blend state.
pub type BlendedOutputInit<'a> = (&'a str, gfx::state::ColorMask, gfx::state::Blend);

/// The pipeline state description of an effect: the shader variables that
/// are bound, by name, and how the outputs are written.
pub struct EffectInit<'a> {
    pub vertex_bufs: Vec<VertexBufferInit<'a>>,
    pub const_bufs: Vec<&'a str>,
    pub globals: Vec<&'a str>,
    pub samplers: Vec<&'a str>,
    pub textures: Vec<&'a str>,
    pub out_colors: Vec<&'a str>,
    pub out_blends: Vec<BlendedOutputInit<'a>>,
    pub out_depth: Option<Depth>,
}

/// The contents of an [`EffectInit`], as sequences.
pub struct EffectInitView<'a> {
    pub vertex_bufs: Seq<VertexBufferInit<'a>>,
    pub const_bufs: Seq<&'a str>,
    pub globals: Seq<&'a str>,
    pub samplers: Seq<&'a str>,
    pub textures: Seq<&'a str>,
    pub out_colors: Seq<&'a str>,
    pub out_blends: Seq<BlendedOutputInit<'a>>,
    pub out_depth: Option<Depth>,
}

/// A description that binds nothing and sets no depth test.
pub open spec fn empty_init<'a>() -> EffectInitView<'a> {
    EffectInitView {
        vertex_bufs: Seq::empty(),
        const_bufs: Seq::empty(),
        globals: Seq::empty(),
        samplers: Seq::empty(),
        textures: Seq::empty(),
        out_colors: Seq::empty(),
        out_blends: Seq::empty(),
        out_depth: None,
    }
}

impl<'a> View for EffectInit<'a> {
    type V = EffectInitView<'a>;

    open spec fn view(&self) -> EffectInitView<'a> {
        EffectInitView {
            vertex_bufs: self.vertex_bufs@,
            const_bufs: self.const_bufs@,
            globals: self.globals@,
            samplers: self.samplers@,
            textures: self.textures@,
            out_colors: self.out_colors@,
            out_blends: self.out_blends@,
            out_depth: self.out_depth,
        }
    }
}

/// A copy of `v`.
fn copy_vec<T: Copy>(v: &Vec<T>) -> (c: Vec<T>)
    ensures
        c@ == v@,
{
    let mut c: Vec<T> = Vec::new();
    let n = v.len();
    for i in 0..n
        invariant
            n == v@.len(),
            c@ == v@.take(i as int),
    {
        c.push(v[i]);
        assert(v@.take(i + 1) =~= v@.take(i as int).push(v@[i as int]));
    }
    assert(v@.take(n as int) =~= v@);
    c
}

impl<'a> Clone for EffectInit<'a> {
    fn clone(&self) -> (c: Self)
        ensures
            c@ == self@,
    {
        EffectInit {
            vertex_bufs: copy_vec(&self.vertex_bufs),
            const_bufs: copy_vec(&self.const_bufs),
            globals: copy_vec(&self.globals),
            samplers: copy_vec(&self.samplers),
            textures: copy_vec(&self.textures),
            out_colors: copy_vec(&self.out_colors),
            out_blends: copy_vec(&self.out_blends),
            out_depth: self.out_depth,
        }
    }
}

impl<'a> EffectInit<'a> {
    /// A description that binds nothing.
    pub fn new() -> (init: EffectInit<'a>)
        ensures
            init@ == empty_init::<'a>(),
    {
        EffectInit {
            vertex_bufs: Vec::new(),
            const_bufs: Vec::new(),
            globals: Vec::new(),
            samplers: Vec::new(),
            textures: Vec::new(),
            out_colors: Vec::new(),
            out_blends: Vec::new(),
            out_depth: None,
        }
    }
}

/// The depth state an output gets from the depth mode it is given: the
/// mode's own state, or, where outputs always need a depth test, one that
/// always passes and writes; otherwise it is left as it was.
pub open spec fn output_depth(old_depth: Option<Depth>, depth: Option<DepthMode>, force_depth: bool) -> Option<Depth> {
    match depth {
        Some(mode) => Some(crate::state::depth_of_mode(mode)),
        None => if force_depth {
            Some(crate::state::pass_write())
        } else {
            old_depth
        },
    }
}

/// Starts the building of an effect; the platform settings it carries are
/// handed to every builder it makes.
pub struct NewEffect {
    multisampling: u16,
    force_depth: bool,
}

/// Builds the pipeline state description of an effect, step by step.
pub struct EffectBuilder<'a> {
    init: EffectInit<'a>,
    prim: Primitive,
    prog: ProgramSource<'a>,
    rast: Rasterizer,
    const_bufs: Vec<BufferInfo>,
    force_depth: bool,
}

/// The state of an [`EffectBuilder`].
pub struct BuilderView<'a> {
    /// The pipeline state description built so far.
    pub init: EffectInitView<'a>,
    pub prim: Primitive,
    pub prog: ProgramSource<'a>,
    pub rast: Rasterizer,
    /// The constant buffers still to be created.
    pub const_bufs: Seq<BufferInfo>,
    /// Whether outputs without a depth mode get a depth test that always
    /// passes and writes.
    pub force_depth: bool,
}

impl<'a> BuilderView<'a> {
    /// Whether every constant buffer name has its description queued next
    /// to it, and every texture its sampler.
    pub open spec fn paired(self) -> bool {
        &&& self.init.const_bufs.len() == self.const_bufs.len()
        &&& self.init.samplers == self.init.textures
    }
}

impl<'a> View for EffectBuilder<'a> {
    type V = BuilderView<'a>;

    closed spec fn view(&self) -> BuilderView<'a> {
        BuilderView {
            init: self.init@,
            prim: self.prim,
            prog: self.prog,
            rast: self.rast,
            const_bufs: self.const_bufs@,
            force_depth: self.force_depth,
        }
    }
}

/// `b` with back face culling disabled.
pub open spec fn without_culling<'a>(b: BuilderView<'a>) -> BuilderView<'a> {
    BuilderView { rast: Rasterizer { cull_face: CullFace::Nothing, ..b.rast }, ..b }
}

/// `b` with the global `name` added.
pub open spec fn add_global<'a>(b: BuilderView<'a>, name: &'a str) -> BuilderView<'a> {
    BuilderView { init: EffectInitView { globals: b.init.globals.push(name), ..b.init }, ..b }
}

/// `b` with the constant buffer `name` of `num` elements of `size` bytes
/// added, and its description queued for creation.
pub open spec fn add_constant_buffer<'a>(b: BuilderView<'a>, name: &'a str, size: usize, num: usize) -> BuilderView<'a> {
    BuilderView {
        init: EffectInitView { const_bufs: b.init.const_bufs.push(name), ..b.init },
        const_bufs: b.const_bufs.push(crate::state::constant_buffer_info(size, num)),
        ..b
    }
}

/// `b` drawing primitives of topology `prim`.
pub open spec fn with_primitive<'a>(b: BuilderView<'a>, prim: Primitive) -> BuilderView<'a> {
    BuilderView { prim, ..b }
}

/// `b` with the colour output `name` added, its depth set from `depth`.
pub open spec fn add_output<'a>(b: BuilderView<'a>, name: &'a str, depth: Option<DepthMode>) -> BuilderView<'a> {
    BuilderView {
        init: EffectInitView {
            out_depth: output_depth(b.init.out_depth, depth, b.force_depth),
            out_colors: b.init.out_colors.push(name),
            ..b.init
        },
        ..b
    }
}

/// `b` with the blended colour output `name` added, its depth set from
/// `depth`.
pub open spec fn add_blended_output<'a>(
    b: BuilderView<'a>,
    name: &'a str,
    mask: gfx::state::ColorMask,
    blend: gfx::state::Blend,
    depth: Option<DepthMode>,
) -> BuilderView<'a> {
    BuilderView {
        init: EffectInitView {
            out_depth: output_depth(b.init.out_depth, depth, b.force_depth),
            out_blends: b.init.out_blends.push((name, mask, blend)),
            ..b.init
        },
        ..b
    }
}

/// `b` with the texture `name` and its sampler added.
pub open spec fn add_texture<'a>(b: BuilderView<'a>, name: &'a str) -> BuilderView<'a> {
    BuilderView {
        init: EffectInitView {
            samplers: b.init.samplers.push(name),
            textures: b.init.textures.push(name),
            ..b.init
        },
        ..b
    }
}

/// `b` with a vertex buffer of attributes `attrs` added.
pub open spec fn add_vertex_buffer<'a>(b: BuilderView<'a>, attrs: Attributes<'a>, stride: ElemStride, rate: InstanceRate) -> BuilderView<'a> {
    BuilderView {
        init: EffectInitView { vertex_bufs: b.init.vertex_bufs.push((attrs, stride, rate)), ..b.init },
        ..b
    }
}

/// A shader variable that a pass binds by name: a global, a constant buffer
/// of `num` elements of `size` bytes, or a texture with its sampler.
#[derive(Clone, Copy, Debug, PartialEq, Eq)]
pub enum Binding<'a> {
    Global(&'a str),
    ConstantBuffer(&'a str, usize, usize),
    Texture(&'a str),
}

/// `b` with the binding `x` added.
pub open spec fn add_binding<'a>(b: BuilderView<'a>, x: Binding<'a>) -> BuilderView<'a> {
    match x {
        Binding::Global(name) => add_global(b, name),
        Binding::ConstantBuffer(name, size, num) => add_constant_buffer(b, name, size, num),
        Binding::Texture(name) => add_texture(b, name),
    }
}

/// `b` with the bindings `xs` added, in order.
pub open spec fn add_bindings<'a>(b: BuilderView<'a>, xs: Seq<Binding<'a>>) -> BuilderView<'a>
    decreases xs.len(),
{
    if xs.len() == 0 {
        b
    } else {
        add_binding(add_bindings(b, xs.drop_last()), xs.last())
    }
}

/// Whether the size of every constant buffer among `xs` fits in a `usize`.
pub open spec fn bindings_fit(xs: Seq<Binding>) -> bool {
    forall|i: int|
        0 <= i < xs.len() ==> match #[trigger] xs[i] {
            Binding::ConstantBuffer(_, size, num) => num * size <= usize::MAX,
            _ => true,
        }
}

/// The state of a builder that has just been started for `src`: nothing is
/// bound, triangle lists are drawn, and back faces are culled by a filling
/// rasterizer that multi-samples exactly when `multisampling` is not zero.
pub open spec fn new_builder<'a>(multisampling: u16, force_depth: bool, src: ProgramSource<'a>) -> BuilderView<'a> {
    BuilderView {
        init: empty_init(),
        prim: Primitive::TriangleList,
        prog: src,
        rast: Rasterizer { multisample: multisampling > 0, ..crate::state::default_rasterizer() },
        const_bufs: Seq::empty(),
        force_depth,
    }
}

impl NewEffect {
    /// Starts effects for a target rendered with `multisampling` samples;
    /// `force_depth` tells whether the platform needs a depth test on every
    /// output.
    pub fn new(multisampling: u16, force_depth: bool) -> (e: NewEffect)
        ensures
            e.spec_multisampling() == multisampling,
            e.spec_force_depth() == force_depth,
    {
        NewEffect { multisampling, force_depth }
    }

    pub closed spec fn spec_multisampling(&self) -> u16 {
        self.multisampling
    }

    pub closed spec fn spec_force_depth(&self) -> bool {
        self.force_depth
    }

    /// An effect of a vertex and a pixel program asset.
    pub fn simple_handles<'f>(self, vs: ProgramHandle, ps: ProgramHandle) -> (b: EffectBuilder<'f>)
        ensures
            b@ == new_builder(
                self.spec_multisampling(),
                self.spec_force_depth(),
                ProgramSource::SimpleHandle(vs, ps),
            ),
    {
        EffectBuilder::new(self.multisampling, self.force_depth, ProgramSource::SimpleHandle(vs, ps))
    }

    /// An effect of vertex and pixel shader sources.
    pub fn simple<'f>(self, vs: &'f [u8], ps: &'f [u8]) -> (b: EffectBuilder<'f>)
        ensures
            b@ == new_builder(
                self.spec_multisampling(),
                self.spec_force_depth(),
                ProgramSource::Simple(vs, ps),
            ),
    {
        EffectBuilder::new(self.multisampling, self.force_depth, ProgramSource::Simple(vs, ps))
    }

    /// An effect of vertex, geometry and pixel shader sources.
    pub fn geom<'f>(self, vs: &'f [u8], gs: &'f [u8], ps: &'f [u8]) -> (b: EffectBuilder<'f>)
        ensures
            b@ == new_builder(
                self.spec_multisampling(),
                self.spec_force_depth(),
                ProgramSource::Geometry(vs, gs, ps),
            ),
    {
        EffectBuilder::new(self.multisampling, self.force_depth, ProgramSource::Geometry(vs, gs, ps))
    }

    /// An effect of vertex, hull, domain and pixel shader sources.
    pub fn tess<'f>(self, vs: &'f [u8], hs: &'f [u8], ds: &'f [u8], ps: &'f [u8]) -> (b: EffectBuilder<'f>)
        ensures
            b@ == new_builder(
                self.spec_multisampling(),
                self.spec_force_depth(),
                ProgramSource::Tessellated(vs, hs, ds, ps),
            ),
    {
        EffectBuilder::new(
            self.multisampling,
            self.force_depth,
            ProgramSource::Tessellated(vs, hs, ds, ps),
        )
    }
}

impl<'a> EffectBuilder<'a> {
    /// Starts building an effect compiled from `src`.
    pub(crate) fn new(multisampling: u16, force_depth: bool, src: ProgramSource<'a>) -> (b: EffectBuilder<'a>)
        ensures
            b@ == new_builder(multisampling, force_depth, src),
    {
        let mut rast = Rasterizer::new_fill().with_cull_back();
        if multisampling > 0 {
            rast.multisample = true;
        }
        EffectBuilder {
            init: EffectInit::new(),
            prim: Primitive::TriangleList,
            prog: src,
            rast,
            const_bufs: Vec::new(),
            force_depth,
        }
    }

    /// Disables back face culling.
    pub fn without_back_face_culling(&mut self) -> (r: &mut Self)
        ensures
            r@ == without_culling(old(self)@),
            *final(self) == *final(r),
    {
        self.rast.cull_face = CullFace::Nothing;
        self
    }

    /// Adds a global constant to the effect.
    pub fn with_raw_global(&mut self, name: &'a str) -> (r: &mut Self)
        ensures
            r@ == add_global(old(self)@, name),
            *final(self) == *final(r),
    {
        self.init.globals.push(name);
        self
    }

    /// Adds a raw uniform constant to the effect: a constant buffer of `num`
    /// elements of `size` bytes each is requested.
    pub fn with_raw_constant_buffer(&mut self, name: &'a str, size: usize, num: usize) -> (r: &mut Self)
        requires
            num * size <= usize::MAX,
        ensures
            r@ == add_constant_buffer(old(self)@, name, size, num),
            *final(self) == *final(r),
    {
        self.const_bufs.push(
            BufferInfo {
                role: BufferRole::Constant,
                usage: BufferUsage::Dynamic,
                bind: 0,
                size: num * size,
                stride: size,
            },
        );
        self.init.const_bufs.push(name);
        self
    }

    /// Sets the primitive topology of the pipeline.
    pub fn with_primitive_type(&mut self, prim: Primitive) -> (r: &mut Self)
        ensures
            r@ == with_primitive(old(self)@, prim),
            *final(self) == *final(r),
    {
        self.prim = prim;
        self
    }

    /// Sets the depth test of the outputs from `depth`.
    fn set_output_depth(&mut self, depth: Option<DepthMode>)
        ensures
            final(self)@ == (BuilderView {
                init: EffectInitView {
                    out_depth: output_depth(old(self)@.init.out_depth, depth, old(self)@.force_depth),
                    ..old(self)@.init
                },
                ..old(self)@
            }),
    {
        if let Some(mode) = depth {
            self.init.out_depth = Some(mode.depth());
        }
        if self.force_depth && depth.is_none() {
            self.init.out_depth = Some(Depth { fun: Comparison::Always, write: true });
        }
    }

    /// Adds the colour output `name`; if the target has a depth buffer, its
    /// mode is set by `depth`.
    pub fn with_output(&mut self, name: &'a str, depth: Option<DepthMode>) -> (r: &mut Self)
        ensures
            r@ == add_output(old(self)@, name, depth),
            *final(self) == *final(r),
    {
        self.set_output_depth(depth);
        self.init.out_colors.push(name);
        self
    }

    /// Adds the blended colour output `name`; if the target has a depth
    /// buffer, its mode is set by `depth`.
    pub fn with_blended_output(
        &mut self,
        name: &'a str,
        mask: gfx::state::ColorMask,
        blend: gfx::state::Blend,
        depth: Option<DepthMode>,
    ) -> (r: &mut Self)
        ensures
            r@ == add_blended_output(old(self)@, name, mask, blend, depth),
            *final(self) == *final(r),
    {
        self.set_output_depth(depth);
        self.init.out_blends.push((name, mask, blend));
        self
    }

    /// Adds the texture `name` with its sampler.
    pub fn with_texture(&mut self, name: &'a str) -> (r: &mut Self)
        ensures
            r@ == add_texture(old(self)@, name),
            *final(self) == *final(r),
    {
        self.init.samplers.push(name);
        self.init.textures.push(name);
        self
    }

    /// Adds a vertex buffer with the attributes `attrs`.
    pub fn with_raw_vertex_buffer(&mut self, attrs: Attributes<'a>, stride: ElemStride, rate: InstanceRate) -> (r: &mut Self)
        ensures
            r@ == add_vertex_buffer(old(self)@, attrs, stride, rate),
            *final(self) == *final(r),
    {
        self.init.vertex_bufs.push((attrs, stride, rate));
        self
    }

    /// Adds the bindings `bindings`, in order.
    pub fn with_bindings(&mut self, bindings: &[Binding<'a>]) -> (r: &mut Self)
        requires
            bindings_fit(bindings@),
        ensures
            r@ == add_bindings(old(self)@, bindings@),
            *final(self) == *final(r),
    {
        let ghost start = self@;
        let n = bindings.len();
        assert(bindings@.take(0) =~= Seq::<Binding<'a>>::empty());
        for i in 0..n
            invariant
                n == bindings@.len(),
                bindings_fit(bindings@),
                self@ == add_bindings(start, bindings@.take(i as int)),
        {
            let x = bindings[i];
            assert(bindings@.take(i + 1).drop_last() =~= bindings@.take(i as int));
            assert(bindings@.take(i + 1).last() == x);
            match x {
                Binding::Global(name) => {
                    self.with_raw_global(name);
                },
                Binding::ConstantBuffer(name, size, num) => {
                    assert(num * size <= usize::MAX) by {
                        assert(bindings@[i as int] == x);
                    }
                    self.with_raw_constant_buffer(name, size, num);
                },
                Binding::Texture(name) => {
                    self.with_texture(name);
                },
            }
        }
        assert(bindings@.take(n as int) =~= bindings@);
        self
    }

    /// The pipeline state description built so far.
    pub fn init(&self) -> (init: &EffectInit<'a>)
        ensures
            init@ == self@.init,
    {
        &self.init
    }

    /// The pipeline state description, giving up the builder.
    pub fn into_init(self) -> (init: EffectInit<'a>)
        ensures
            init@ == self@.init,
    {
        self.init
    }

    /// The primitive topology of the pipeline.
    pub fn primitive(&self) -> (p: Primitive)
        ensures
            p == self@.prim,
    {
        self.prim
    }

    /// The rasterizer state of the pipeline.
    pub fn rasterizer(&self) -> (r: Rasterizer)
        ensures
            r == self@.rast,
    {
        self.rast
    }

    /// Where the effect's programs come from.
    pub fn source(&self) -> (s: &ProgramSource<'a>)
        ensures
            *s == self@.prog,
    {
        &self.prog
    }
}

/// The names `names` as character sequences.
pub open spec fn name_views<'a>(names: Seq<&'a str>) -> Seq<Seq<char>> {
    names.map_values(|n: &'a str| n@)
}

/// The number of constant buffers that are created when an effect is built:
/// names and buffer descriptions are paired up in order, as far as both go.
pub open spec fn paired_const_bufs(b: BuilderView) -> nat {
    if b.init.const_bufs.len() <= b.const_bufs.len() {
        b.init.const_bufs.len()
    } else {
        b.const_bufs.len()
    }
}

/// A table in which each of the names `names[0..n]` stands for its
/// position, a later occurrence replacing an earlier one.
fn name_table<'a>(names: &Vec<&'a str>, n: usize) -> (t: NameTable)
    requires
        n <= names@.len(),
    ensures
        t@ == entries_of(name_views(names@.take(n as int))),
{
    let mut t = NameTable::new();
    assert(name_views(names@.take(0)) =~= Seq::<Seq<char>>::empty());
    for i in 0..n
        invariant
            n <= names@.len(),
            t@ == entries_of(name_views(names@.take(i as int))),
    {
        t.insert(names[i], i);
        let ghost next = name_views(names@.take(i + 1));
        assert(next.drop_last() =~= name_views(names@.take(i as int)));
        assert(next.last() == names@[i as int]@);
    }
    t
}

/// Whether `e` is the effect built from `b` with the pipeline `pso`, the
/// program handles `handles`, the constant buffers `buffers` (created from
/// the paired descriptions, in order) and the global placeholder
/// `placeholder`, drawing into `target`: the first constant buffer names and
/// every global name each stand for their last position, every global holds
/// the placeholder, nothing else is bound, and the outputs are the target's.
pub open spec fn built_from<'a, R: EffectResources>(
    b: BuilderView<'a>,
    pso: Option<R::Pipeline>,
    handles: Seq<ProgramHandle>,
    buffers: Seq<R::Buffer>,
    placeholder: R::Uniform,
    target: &Target<R>,
    e: EffectView<R>,
) -> bool {
    &&& e.pso == pso
    &&& e.prog == handles
    &&& e.const_bufs == entries_of(name_views(b.init.const_bufs.take(buffers.len() as int)))
    &&& e.data.const_bufs == buffers
    &&& e.globals == entries_of(name_views(b.init.globals))
    &&& e.data.globals == Seq::new(b.init.globals.len(), |i: int| placeholder)
    &&& e.data.vertex_bufs.len() == 0
    &&& e.data.textures.len() == 0
    &&& e.data.samplers.len() == 0
    &&& outputs_of(e.data, target)
    &&& e.wf()
}

/// The pipeline a compilation gave, if it succeeded.
pub open spec fn compiled_pipeline<P, F>(compiled: Result<P, F>) -> Option<P> {
    match compiled {
        Ok(p) => Some(p),
        Err(_) => None,
    }
}

/// Whether every creation in `created` succeeded.
pub open spec fn all_created<B, E>(created: Seq<Result<B, E>>) -> bool {
    forall|i: int| 0 <= i < created.len() ==> #[trigger] created[i] is Ok
}

/// Whether `e` is the error of the first creation in `created` that failed.
pub open spec fn first_failure<B, E>(created: Seq<Result<B, E>>, e: E) -> bool {
    exists|k: int|
        0 <= k < created.len() && #[trigger] created[k] == Err::<B, E>(e) && forall|j: int|
            0 <= j < k ==> created[j] is Ok
}

/// The values that the creations `created` gave.
pub open spec fn created_values<B, E>(created: Seq<Result<B, E>>) -> Seq<B> {
    created.map_values(
        |r: Result<B, E>|
            match r {
                Ok(b) => b,
                Err(_) => arbitrary(),
            },
    )
}

/// The program asset handles an effect compiled from `src` records: the
/// vertex then the pixel handle for a source by handle, none otherwise.
pub open spec fn source_handles(src: ProgramSource) -> Seq<ProgramHandle> {
    match src.spec_handles() {
        Some((vs, ps)) => seq![vs, ps],
        None => Seq::empty(),
    }
}

/// The descriptions of the constant buffers that building `b` creates, in
/// order: those paired up with a name.
pub open spec fn queued_buffers(b: BuilderView) -> Seq<BufferInfo> {
    b.const_bufs.take(paired_const_bufs(b) as int)
}

/// Whether `created` are outcomes of creating the buffers `infos` with
/// `create`, one by one in order, stopping at the first failure: each is
/// an outcome `create` can give for its description, every one but the
/// last succeeded, and fewer than all were tried only when the last failed.
pub open spec fn created_in_order<B, E, C: Fn(BufferInfo) -> Result<B, E>>(
    create: C,
    infos: Seq<BufferInfo>,
    created: Seq<Result<B, E>>,
) -> bool {
    &&& created.len() <= infos.len()
    &&& forall|j: int| 0 <= j < created.len() ==> call_ensures(create, (infos[j],), #[trigger] created[j])
    &&& forall|j: int| 0 <= j < created.len() - 1 ==> #[trigger] created[j] is Ok
    &&& created.len() < infos.len() ==> created.len() > 0 && created.last() is Err
}

/// Whether `res` is what building from `b` gives, where compiling its
/// programs and pipeline gave `compiled` and creating its buffers gave
/// `created`: the first failed creation fails the build with its error; a
/// failed compilation leaves the effect without a pipeline; otherwise the
/// effect is built from `b` with the created buffers and the handles of
/// `b`'s source.
pub open spec fn build_result<'a, R: EffectResources, E, F>(
    b: BuilderView<'a>,
    compiled: Result<R::Pipeline, F>,
    created: Seq<Result<R::Buffer, E>>,
    placeholder: R::Uniform,
    target: &Target<R>,
    res: Result<Effect<R>, E>,
) -> bool {
    &&& res is Ok <==> all_created(created)
    &&& res matches Err(e) ==> created.len() > 0 && created.last() == Err::<R::Buffer, E>(e)
        && first_failure(created, e)
    &&& res matches Ok(e) ==> created.len() == queued_buffers(b).len() && built_from(
        b,
        compiled_pipeline(compiled),
        source_handles(b.prog),
        created_values(created),
        placeholder,
        target,
        e@,
    )
}

impl<'a> EffectBuilder<'a> {
    /// Takes out the descriptions of the constant buffers to create, paired
    /// up with their names; the builder keeps the names and no description.
    pub fn drain_constant_buffers(&mut self) -> (infos: Vec<BufferInfo>)
        ensures
            infos@ == queued_buffers(old(self)@),
            final(self)@ == (BuilderView { const_bufs: Seq::empty(), ..old(self)@ }),
    {
        let n = if self.init.const_bufs.len() <= self.const_bufs.len() {
            self.init.const_bufs.len()
        } else {
            self.const_bufs.len()
        };
        let mut infos: Vec<BufferInfo> = Vec::new();
        std::mem::swap(&mut infos, &mut self.const_bufs);
        infos.truncate(n);
        assert(self.const_bufs@ =~= Seq::<BufferInfo>::empty());
        infos
    }

    /// Assembles the effect from the pipeline `pso`, the program handles
    /// `handles`, the constant buffers `buffers` (created from the queued
    /// descriptions, in order) and the global placeholder `placeholder`,
    /// drawing into `target`.
    fn assemble<R: EffectResources>(
        &self,
        pso: Option<R::Pipeline>,
        handles: Vec<ProgramHandle>,
        buffers: Vec<R::Buffer>,
        placeholder: R::Uniform,
        target: &Target<R>,
    ) -> (e: Effect<R>)
        requires
            buffers@.len() <= self@.init.const_bufs.len(),
        ensures
            built_from(self@, pso, handles@, buffers@, placeholder, target, e@),
    {
        let nbufs = buffers.len();
        let const_bufs = name_table(&self.init.const_bufs, nbufs);
        let nglobals = self.init.globals.len();
        let globals = name_table(&self.init.globals, nglobals);
        assert(self@.init.globals.take(nglobals as int) =~= self@.init.globals);
        let mut data: EffectData<R> = EffectData::new();
        data.const_bufs = buffers;
        for i in 0..nglobals
            invariant
                nglobals == self@.init.globals.len(),
                data@.globals =~= Seq::new(i as nat, |k: int| placeholder),
                data@.const_bufs == buffers@,
                data@.vertex_bufs.len() == 0,
                data@.textures.len() == 0,
                data@.samplers.len() == 0,
        {
            data.globals.push(placeholder);
            assert(data@.globals =~= Seq::new((i + 1) as nat, |k: int| placeholder));
        }
        data.set_outputs(target);
        proof {
            lemma_entries_of(name_views(self@.init.const_bufs.take(nbufs as int)));
            lemma_entries_of(name_views(self@.init.globals));
        }
        Effect::from_parts(pso, data, const_bufs, globals, handles)
    }

    /// Builds the effect, drawing into the outputs of `target`.
    ///
    /// `compiled` is the outcome of compiling the effect's programs and
    /// creating its pipeline state from this builder's source, primitive,
    /// rasterizer and description; `create` creates one constant buffer
    /// from its description; `placeholder` is the value every global holds
    /// until it is first set. The queued constant-buffer descriptions are
    /// taken out of the builder and created one by one, in order, stopping
    /// at the first failure, whose error fails the build; so a second build
    /// creates no constant buffer. A failed compilation leaves the effect
    /// without a pipeline. The effect records the program handles of the
    /// builder's source.
    pub fn build<R: EffectResources, E, F, C: Fn(BufferInfo) -> Result<R::Buffer, E>>(
        &mut self,
        compiled: Result<R::Pipeline, F>,
        create: C,
        placeholder: R::Uniform,
        target: &Target<R>,
    ) -> (res: Result<Effect<R>, E>)
        requires
            forall|info: BufferInfo| call_requires(create, (info,)),
        ensures
            final(self)@ == (BuilderView { const_bufs: Seq::empty(), ..old(self)@ }),
            exists|created: Seq<Result<R::Buffer, E>>|
                created_in_order(create, queued_buffers(old(self)@), created) && build_result(
                    old(self)@,
                    compiled,
                    created,
                    placeholder,
                    target,
                    res,
                ),
    {
        let ghost b0 = self@;
        let infos = self.drain_constant_buffers();
        assert(self@ == (BuilderView { const_bufs: Seq::empty(), ..b0 }));
        let pso = match compiled {
            Ok(p) => Some(p),
            Err(_) => None,
        };
        let mut buffers: Vec<R::Buffer> = Vec::new();
        let ghost mut created: Seq<Result<R::Buffer, E>> = Seq::empty();
        let n = infos.len();
        let mut i: usize = 0;
        while i < n
            invariant
                b0 == old(self)@,
                self@ == (BuilderView { const_bufs: Seq::empty(), ..b0 }),
                n == infos@.len(),
                infos@ == queued_buffers(b0),
                forall|info: BufferInfo| call_requires(create, (info,)),
                i <= n,
                created.len() == i,
                forall|j: int| 0 <= j < i ==> call_ensures(create, (infos@[j],), #[trigger] created[j]),
                forall|j: int| 0 <= j < i ==> #[trigger] created[j] is Ok,
                buffers@ == created_values(created),
            decreases n - i,
        {
            let r = create(infos[i]);
            let ghost next = created.push(r);
            match r {
                Ok(buf) => {
                    proof {
                        assert(created_values(next) =~= created_values(created).push(buf));
                    }
                    buffers.push(buf);
                    proof {
                        created = next;
                    }
                },
                Err(e) => {
                    proof {
                        created = next;
                        assert(created[i as int] == Err::<R::Buffer, E>(e));
                        assert(first_failure(created, e));
                        assert(!all_created(created));
                        assert(created_in_order(create, queued_buffers(b0), created));
                        assert(created_in_order(create, queued_buffers(b0), created) && build_result(
                            b0,
                            compiled,
                            created,
                            placeholder,
                            target,
                            Err::<Effect<R>, E>(e),
                        ));
                    }
                    return Err(e);
                },
            }
            i = i + 1;
        }
        assert(buffers@.len() <= self@.init.const_bufs.len());
        let handles: Vec<ProgramHandle> = match self.prog.handles() {
            Some((vs, ps)) => vec![vs, ps],
            None => Vec::new(),
        };
        assert(handles@ =~= source_handles(b0.prog));
        let e = self.assemble(pso, handles, buffers, placeholder, target);
        assert(created.len() == queued_buffers(b0).len());
        assert(created_values(created).len() == created.len());
        assert(built_from(b0, pso, handles@, created_values(created), placeholder, target, e@));
        assert(created_in_order(create, queued_buffers(b0), created));
        assert(created_in_order(create, queued_buffers(b0), created) && build_result(
            b0,
            compiled,
            created,
            placeholder,
            target,
            Ok::<Effect<R>, E>(e),
        ));
        Ok(e)
    }
}

/// The constant buffers are created by the first build only: building
/// again, from a builder whose queue the first build emptied, creates no
/// buffer and cannot fail, and the effect it gives has no constant buffer.
pub proof fn law_second_build_creates_no_buffers<'a, R: EffectResources, E, F, C: Fn(BufferInfo) -> Result<R::Buffer, E>>(
    b: BuilderView<'a>,
    compiled: Result<R::Pipeline, F>,
    create: C,
    created: Seq<Result<R::Buffer, E>>,
    placeholder: R::Uniform,
    target: &Target<R>,
    res: Result<Effect<R>, E>,
)
    requires
        b.const_bufs.len() == 0,
        created_in_order(create, queued_buffers(b), created),
        build_result(b, compiled, created, placeholder, target, res),
    ensures
        created.len() == 0,
        res is Ok,
        res matches Ok(e) ==> e@.data.const_bufs.len() == 0 && e@.const_bufs == Map::<Seq<char>, usize>::empty(),
{
    assert(name_views(b.init.const_bufs.take(0)) =~= Seq::<Seq<char>>::empty());
    assert(entries_of(Seq::<Seq<char>>::empty()) == Map::<Seq<char>, usize>::empty());
}

/// A builder just started for `src` draws triangle lists with a filling
/// rasterizer that culls back faces, counter-clockwise faces being front
/// faces, and multi-samples exactly when `multisampling` is not zero,
/// whatever the platform; it binds nothing, sets no depth test and queues
/// no constant buffer.
pub proof fn law_new_builder(multisampling: u16, force_depth: bool, src: ProgramSource)
    ensures
        ({
            let b = new_builder(multisampling, force_depth, src);
            &&& b.rast == Rasterizer {
                front_face: FrontFace::CounterClockwise,
                cull_face: CullFace::Back,
                multisample: multisampling != 0,
            }
            &&& b.prim == Primitive::TriangleList
            &&& b.prog == src
            &&& b.force_depth == force_depth
            &&& b.const_bufs.len() == 0
            &&& b.init.vertex_bufs.len() == 0
            &&& b.init.const_bufs.len() == 0
            &&& b.init.globals.len() == 0
            &&& b.init.samplers.len() == 0
            &&& b.init.textures.len() == 0
            &&& b.init.out_colors.len() == 0
            &&& b.init.out_blends.len() == 0
            &&& b.init.out_depth is None
        }),
{
}

/// The depth test an output leaves: an output given a depth mode sets a
/// less-or-equal test that writes exactly for `LessEqualWrite`, whatever
/// came before and whatever the platform; an output given none sets a test
/// that always passes and writes where the platform needs a depth test on
/// every output, and otherwise leaves the test as it was. Plain and blended
/// outputs alike add their colour output at the end, and nothing else.
pub proof fn law_output_sets_depth<'a>(
    b: BuilderView<'a>,
    name: &'a str,
    mask: gfx::state::ColorMask,
    blend: gfx::state::Blend,
    depth: Option<DepthMode>,
)
    ensures
        ({
            let expected = match depth {
                Some(mode) => Some(
                    Depth { fun: Comparison::LessEqual, write: mode == DepthMode::LessEqualWrite },
                ),
                None => if b.force_depth {
                    Some(Depth { fun: Comparison::Always, write: true })
                } else {
                    b.init.out_depth
                },
            };
            let plain = add_output(b, name, depth);
            let blended = add_blended_output(b, name, mask, blend, depth);
            &&& plain.init.out_depth == expected
            &&& blended.init.out_depth == expected
            &&& plain.init.out_colors == b.init.out_colors.push(name)
            &&& plain.init.out_blends == b.init.out_blends
            &&& blended.init.out_blends == b.init.out_blends.push((name, mask, blend))
            &&& blended.init.out_colors == b.init.out_colors
            &&& plain == BuilderView {
                init: EffectInitView { out_depth: expected, out_colors: plain.init.out_colors, ..b.init },
                ..b
            }
            &&& blended == BuilderView {
                init: EffectInitView { out_depth: expected, out_blends: blended.init.out_blends, ..b.init },
                ..b
            }
        }),
{
}

/// Each building step changes one thing: turning culling off sets the cull
/// mode to none; choosing a primitive sets it; a global, a texture (with
/// its sampler) or a vertex buffer is appended at the end of its list; a
/// constant buffer appends its name and queues a dynamic constant buffer of
/// `num * size` bytes with elements of `size` bytes. Everything else stays.
pub proof fn law_builder_steps_change_one_thing<'a>(
    b: BuilderView<'a>,
    name: &'a str,
    size: usize,
    num: usize,
    prim: Primitive,
    attrs: Attributes<'a>,
    stride: ElemStride,
    rate: InstanceRate,
)
    ensures
        without_culling(b) == (BuilderView { rast: Rasterizer { cull_face: CullFace::Nothing, ..b.rast }, ..b }),
        with_primitive(b, prim) == (BuilderView { prim, ..b }),
        add_global(b, name) == (BuilderView {
            init: EffectInitView { globals: b.init.globals.push(name), ..b.init },
            ..b
        }),
        add_texture(b, name) == (BuilderView {
            init: EffectInitView {
                textures: b.init.textures.push(name),
                samplers: b.init.samplers.push(name),
                ..b.init
            },
            ..b
        }),
        add_vertex_buffer(b, attrs, stride, rate) == (BuilderView {
            init: EffectInitView { vertex_bufs: b.init.vertex_bufs.push((attrs, stride, rate)), ..b.init },
            ..b
        }),
        num * size <= usize::MAX ==> add_constant_buffer(b, name, size, num) == (BuilderView {
            init: EffectInitView { const_bufs: b.init.const_bufs.push(name), ..b.init },
            const_bufs: b.const_bufs.push(
                BufferInfo {
                    role: BufferRole::Constant,
                    usage: BufferUsage::Dynamic,
                    bind: 0,
                    size: (num * size) as usize,
                    stride: size,
                },
            ),
            ..b
        }),
{
}

/// The names of the constant buffers among `xs`, in order.
pub open spec fn constant_buffer_names<'a>(xs: Seq<Binding<'a>>) -> Seq<&'a str> {
    xs.filter_map(
        |x: Binding<'a>|
            match x {
                Binding::ConstantBuffer(name, _, _) => Some(name),
                _ => None,
            },
    )
}

/// The descriptions of the constant buffers among `xs`, in order: dynamic
/// constant buffers of `num * size` bytes with elements of `size` bytes,
/// bound to nothing.
pub open spec fn constant_buffer_infos<'a>(xs: Seq<Binding<'a>>) -> Seq<BufferInfo> {
    xs.filter_map(
        |x: Binding<'a>|
            match x {
                Binding::ConstantBuffer(_, size, num) => Some(
                    BufferInfo {
                        role: BufferRole::Constant,
                        usage: BufferUsage::Dynamic,
                        bind: 0,
                        size: (num * size) as usize,
                        stride: size,
                    },
                ),
                _ => None,
            },
    )
}

/// The names of the globals among `xs`, in order.
pub open spec fn global_names<'a>(xs: Seq<Binding<'a>>) -> Seq<&'a str> {
    xs.filter_map(
        |x: Binding<'a>|
            match x {
                Binding::Global(name) => Some(name),
                _ => None,
            },
    )
}

/// The names of the textures among `xs`, in order.
pub open spec fn texture_names<'a>(xs: Seq<Binding<'a>>) -> Seq<&'a str> {
    xs.filter_map(
        |x: Binding<'a>|
            match x {
                Binding::Texture(name) => Some(name),
                _ => None,
            },
    )
}

/// Adding the bindings `xs` appends, in order, the constant buffer names
/// of `xs` and queues their descriptions, appends the global names, and
/// appends the texture names both as textures and as samplers; nothing else
/// changes.
pub proof fn law_add_bindings<'a>(b: BuilderView<'a>, xs: Seq<Binding<'a>>)
    ensures
        ({
            let r = add_bindings(b, xs);
            &&& r.init.const_bufs == b.init.const_bufs + constant_buffer_names(xs)
            &&& r.const_bufs == b.const_bufs + constant_buffer_infos(xs)
            &&& r.init.globals == b.init.globals + global_names(xs)
            &&& r.init.textures == b.init.textures + texture_names(xs)
            &&& r.init.samplers == b.init.samplers + texture_names(xs)
            &&& r == BuilderView {
                init: EffectInitView {
                    const_bufs: r.init.const_bufs,
                    globals: r.init.globals,
                    textures: r.init.textures,
                    samplers: r.init.samplers,
                    ..b.init
                },
                const_bufs: r.const_bufs,
                ..b
            }
        }),
    decreases xs.len(),
{
    if xs.len() == 0 {
        assert(b.init.const_bufs + constant_buffer_names(xs) =~= b.init.const_bufs);
        assert(b.const_bufs + constant_buffer_infos(xs) =~= b.const_bufs);
        assert(b.init.globals + global_names(xs) =~= b.init.globals);
        assert(b.init.textures + texture_names(xs) =~= b.init.textures);
        assert(b.init.samplers + texture_names(xs) =~= b.init.samplers);
    } else {
        let ys = xs.drop_last();
        law_add_bindings(b, ys);
        let p = add_bindings(b, ys);
        match xs.last() {
            Binding::ConstantBuffer(name, size, num) => {
                assert(b.init.const_bufs + constant_buffer_names(xs) =~= p.init.const_bufs.push(name));
                assert(b.const_bufs + constant_buffer_infos(xs) =~= p.const_bufs.push(
                    crate::state::constant_buffer_info(size, num),
                ));
                assert(global_names(xs) == global_names(ys));
                assert(texture_names(xs) == texture_names(ys));
            },
            Binding::Global(name) => {
                assert(b.init.globals + global_names(xs) =~= p.init.globals.push(name));
                assert(constant_buffer_names(xs) == constant_buffer_names(ys));
                assert(constant_buffer_infos(xs) == constant_buffer_infos(ys));
                assert(texture_names(xs) == texture_names(ys));
            },
            Binding::Texture(name) => {
                assert(b.init.textures + texture_names(xs) =~= p.init.textures.push(name));
                assert(b.init.samplers + texture_names(xs) =~= p.init.samplers.push(name));
                assert(constant_buffer_names(xs) == constant_buffer_names(ys));
                assert(constant_buffer_infos(xs) == constant_buffer_infos(ys));
                assert(global_names(xs) == global_names(ys));
            },
        }
    }
}

/// One step of building an effect.
pub enum BuilderStep<'a> {
    NoCulling,
    Global(&'a str),
    ConstantBuffer(&'a str, usize, usize),
    Primitive(Primitive),
    Output(&'a str, Option<DepthMode>),
    BlendedOutput(&'a str, gfx::state::ColorMask, gfx::state::Blend, Option<DepthMode>),
    Texture(&'a str),
    VertexBuffer(Attributes<'a>, ElemStride, InstanceRate),
    Bindings(Seq<Binding<'a>>),
}

/// `b` after the step `step`.
pub open spec fn builder_step<'a>(b: BuilderView<'a>, step: BuilderStep<'a>) -> BuilderView<'a> {
    match step {
        BuilderStep::NoCulling => without_culling(b),
        BuilderStep::Global(name) => add_global(b, name),
        BuilderStep::ConstantBuffer(name, size, num) => add_constant_buffer(b, name, size, num),
        BuilderStep::Primitive(prim) => with_primitive(b, prim),
        BuilderStep::Output(name, depth) => add_output(b, name, depth),
        BuilderStep::BlendedOutput(name, mask, blend, depth) => add_blended_output(b, name, mask, blend, depth),
        BuilderStep::Texture(name) => add_texture(b, name),
        BuilderStep::VertexBuffer(attrs, stride, rate) => add_vertex_buffer(b, attrs, stride, rate),
        BuilderStep::Bindings(xs) => add_bindings(b, xs),
    }
}

/// `b` after the steps `steps`, in order.
pub open spec fn builder_steps<'a>(b: BuilderView<'a>, steps: Seq<BuilderStep<'a>>) -> BuilderView<'a>
    decreases steps.len(),
{
    if steps.len() == 0 {
        b
    } else {
        builder_step(builder_steps(b, steps.drop_last()), steps.last())
    }
}

/// Adding bindings keeps names and descriptions of constant buffers, and
/// textures and samplers, paired up.
pub proof fn lemma_bindings_stay_paired<'a>(b: BuilderView<'a>, xs: Seq<Binding<'a>>)
    requires
        b.paired(),
    ensures
        add_bindings(b, xs).paired(),
    decreases xs.len(),
{
    if xs.len() > 0 {
        lemma_bindings_stay_paired(b, xs.drop_last());
    }
}

/// A builder starts with names and descriptions of constant buffers, and
/// textures and samplers, paired up, and any sequence of building steps
/// keeps them so: every constant buffer name is built with the description
/// queued next to it.
pub proof fn law_builder_stays_paired<'a>(
    multisampling: u16,
    force_depth: bool,
    src: ProgramSource<'a>,
    b: BuilderView<'a>,
    steps: Seq<BuilderStep<'a>>,
)
    ensures
        new_builder(multisampling, force_depth, src).paired(),
        b.paired() ==> builder_steps(b, steps).paired(),
        b.paired() ==> paired_const_bufs(builder_steps(b, steps)) == builder_steps(b, steps).const_bufs.len(),
    decreases steps.len(),
{
    if b.paired() && steps.len() > 0 {
        law_builder_stays_paired(multisampling, force_depth, src, b, steps.drop_last());
        if let BuilderStep::Bindings(xs) = steps.last() {
            lemma_bindings_stay_paired(builder_steps(b, steps.drop_last()), xs);
        }
    }
}

/// When names and descriptions are paired up, draining hands out every
/// queued description; draining again hands out none.
pub proof fn law_drain_all_once<'a>(b: BuilderView<'a>)
    ensures
        b.paired() ==> paired_const_bufs(b) == b.const_bufs.len(),
        paired_const_bufs(BuilderView { const_bufs: Seq::empty(), ..b }) == 0,
{
}

/// Of two outputs given depth modes, the later one sets the depth test; an
/// output given none leaves the depth test alone unless the platform needs
/// one on every output.
pub proof fn law_output_depth<'a>(
    b: BuilderView<'a>,
    first: &'a str,
    first_mode: DepthMode,
    second: &'a str,
    second_mode: DepthMode,
    mask: gfx::state::ColorMask,
    blend: gfx::state::Blend,
)
    ensures
        add_output(add_output(b, first, Some(first_mode)), second, Some(second_mode)).init.out_depth
            == Some(crate::state::depth_of_mode(second_mode)),
        add_blended_output(add_output(b, first, Some(first_mode)), second, mask, blend, Some(second_mode)).init.out_depth
            == Some(crate::state::depth_of_mode(second_mode)),
        !b.force_depth ==> add_output(b, first, None).init.out_depth == b.init.out_depth,
        b.force_depth ==> add_output(b, first, None).init.out_depth == Some(crate::state::pass_write()),
{
}

/// An effect that was built stays well formed through any sequence of
/// changes made to it afterwards, and keeps the names it was built with, so
/// setting a global or writing a constant buffer by name never looks past
/// the bound data.
pub proof fn law_built_effect_stays_wf<'a, R: EffectResources>(
    b: BuilderView<'a>,
    pso: Option<R::Pipeline>,
    handles: Seq<ProgramHandle>,
    buffers: Seq<R::Buffer>,
    placeholder: R::Uniform,
    target: &Target<R>,
    e: EffectView<R>,
    steps: Seq<EffectStep<R>>,
)
    requires
        built_from(b, pso, handles, buffers, placeholder, target, e),
    ensures
        effect_steps(e, steps).wf(),
        effect_steps(e, steps).globals == entries_of(name_views(b.init.globals)),
        effect_steps(e, steps).const_bufs == entries_of(name_views(b.init.const_bufs.take(buffers.len() as int))),
{
    law_effect_stays_wf(e, steps);
}

/// What a built effect binds: the pipeline and program handles it was
/// given; the created constant buffers, in order, each name among the first
/// names (one per buffer) standing for the last buffer of that name, no
/// other name found; one global per global name, each holding the
/// placeholder, every global name and no other found, standing for its
/// last position; no vertex buffer, texture or sampler; and, for every
/// colour buffer of the target, one plain and one blended output, with a
/// depth output exactly when the target has a depth buffer, its stencil
/// reference values zero.
pub proof fn law_what_build_binds<'a, R: EffectResources>(
    b: BuilderView<'a>,
    pso: Option<R::Pipeline>,
    handles: Seq<ProgramHandle>,
    buffers: Seq<R::Buffer>,
    placeholder: R::Uniform,
    target: &Target<R>,
    e: EffectView<R>,
)
    requires
        built_from(b, pso, handles, buffers, placeholder, target, e),
        buffers.len() <= b.init.const_bufs.len(),
        b.init.const_bufs.len() <= usize::MAX,
        b.init.globals.len() <= usize::MAX,
    ensures
        e.pso == pso,
        e.prog == handles,
        e.data.const_bufs == buffers,
        forall|n: Seq<char>|
            #[trigger] e.const_bufs.dom().contains(n) <==> exists|i: int|
                0 <= i < buffers.len() && (#[trigger] b.init.const_bufs[i])@ == n,
        forall|n: Seq<char>|
            #[trigger] e.const_bufs.dom().contains(n) ==> {
                let i = e.const_bufs[n] as int;
                &&& 0 <= i < buffers.len()
                &&& b.init.const_bufs[i]@ == n
                &&& forall|j: int| i < j < buffers.len() ==> (#[trigger] b.init.const_bufs[j])@ != n
            },
        e.data.globals.len() == b.init.globals.len(),
        forall|i: int| 0 <= i < e.data.globals.len() ==> #[trigger] e.data.globals[i] == placeholder,
        forall|n: Seq<char>|
            #[trigger] e.globals.dom().contains(n) <==> exists|i: int|
                0 <= i < b.init.globals.len() && (#[trigger] b.init.globals[i])@ == n,
        forall|n: Seq<char>|
            #[trigger] e.globals.dom().contains(n) ==> {
                let i = e.globals[n] as int;
                &&& 0 <= i < b.init.globals.len()
                &&& b.init.globals[i]@ == n
                &&& forall|j: int| i < j < b.init.globals.len() ==> (#[trigger] b.init.globals[j])@ != n
            },
        e.data.vertex_bufs.len() == 0,
        e.data.textures.len() == 0,
        e.data.samplers.len() == 0,
        e.data.out_colors.len() == target.color_bufs@.len(),
        e.data.out_blends.len() == target.color_bufs@.len(),
        e.data.out_depth is Some <==> target.depth_buf is Some,
        e.data.out_depth matches Some((_, refs)) ==> refs == (0u8, 0u8),
{
    let cn = name_views(b.init.const_bufs.take(buffers.len() as int));
    let gn = name_views(b.init.globals);
    assert(cn.len() == buffers.len());
    lemma_entries_of(cn);
    lemma_entries_of(gn);
    assert forall|n: Seq<char>|
        #[trigger] e.const_bufs.dom().contains(n) <==> exists|i: int|
            0 <= i < buffers.len() && (#[trigger] b.init.const_bufs[i])@ == n by {
        if e.const_bufs.dom().contains(n) {
            let k = choose|k: int| 0 <= k < cn.len() && cn[k] == n;
            assert(b.init.const_bufs[k]@ == n);
        }
        if exists|i: int| 0 <= i < buffers.len() && (#[trigger] b.init.const_bufs[i])@ == n {
            let i = choose|i: int| 0 <= i < buffers.len() && (#[trigger] b.init.const_bufs[i])@ == n;
            assert(cn[i] == n);
        }
    }
    assert forall|n: Seq<char>| #[trigger] e.const_bufs.dom().contains(n) implies {
        let i = e.const_bufs[n] as int;
        &&& 0 <= i < buffers.len()
        &&& b.init.const_bufs[i]@ == n
        &&& forall|j: int| i < j < buffers.len() ==> (#[trigger] b.init.const_bufs[j])@ != n
    } by {
        let i = e.const_bufs[n] as int;
        assert(cn[i] == n);
        assert forall|j: int| i < j < buffers.len() implies (#[trigger] b.init.const_bufs[j])@ != n by {
            assert(cn[j] == b.init.const_bufs[j]@);
        }
    }
    assert forall|n: Seq<char>|
        #[trigger] e.globals.dom().contains(n) <==> exists|i: int|
            0 <= i < b.init.globals.len() && (#[trigger] b.init.globals[i])@ == n by {
        if e.globals.dom().contains(n) {
            let k = choose|k: int| 0 <= k < gn.len() && gn[k] == n;
            assert(b.init.globals[k]@ == n);
        }
        if exists|i: int| 0 <= i < b.init.globals.len() && (#[trigger] b.init.globals[i])@ == n {
            let i = choose|i: int| 0 <= i < b.init.globals.len() && (#[trigger] b.init.globals[i])@ == n;
            assert(gn[i] == n);
        }
    }
    assert forall|n: Seq<char>| #[trigger] e.globals.dom().contains(n) implies {
        let i = e.globals[n] as int;
        &&& 0 <= i < b.init.globals.len()
        &&& b.init.globals[i]@ == n
        &&& forall|j: int| i < j < b.init.globals.len() ==> (#[trigger] b.init.globals[j])@ != n
    } by {
        let i = e.globals[n] as int;
        assert(gn[i] == n);
        assert forall|j: int| i < j < b.init.globals.len() implies (#[trigger] b.init.globals[j])@ != n by {
            assert(gn[j] == b.init.globals[j]@);
        }
    }
}

/// Every global an effect was built with can be set afterwards: its name
/// stands for a position of the bound globals, and setting it writes the
/// value there.
pub proof fn law_built_globals_are_settable<'a, R: EffectResources>(
    e: EffectView<R>,
    globals: Seq<&'a str>,
    name: &'a str,
    value: R::Uniform,
)
    requires
        e.wf(),
        e.globals == entries_of(name_views(globals)),
        globals.len() <= usize::MAX,
        globals.contains(name),
    ensures
        e.globals.dom().contains(name@),
        ({
            let i = e.globals[name@] as int;
            &&& 0 <= i < e.data.globals.len()
            &&& globals[i]@ == name@
            &&& forall|j: int| i < j < globals.len() ==> globals[j]@ != name@
            &&& with_global(e, name@, value).data.globals[i] == value
        }),
{
    let k = choose|k: int| 0 <= k < globals.len() && globals[k] == name;
    assert(name_views(globals)[k] == name@);
    lemma_entries_of(name_views(globals));
    let i = e.globals[name@] as int;
    assert(name_views(globals)[i] == name@);
    assert forall|j: int| i < j < globals.len() implies globals[j]@ != name@ by {
        assert(name_views(globals)[j] == globals[j]@);
    }
}

} // verus!
