//! A built effect: the pipeline it draws with, the data bound to the
//! pipeline, and the names under which constant buffers and globals are
//! found.
use vstd::prelude::*;
use crate::builder::EffectInit;
use crate::program::{Program, ProgramHandle, ShaderStages};
use crate::state::{Primitive, Rasterizer};

verus! {

/// The backend's resources that an effect holds.
pub trait EffectResources {
    /// A compiled pipeline state.
    type Pipeline: Clone + core::fmt::Debug + PartialEq;
    /// A raw GPU buffer.
    type Buffer: Clone + core::fmt::Debug + PartialEq;
    /// The value of a global uniform.
    type Uniform: Copy + core::fmt::Debug + PartialEq;
    /// A texture view that shaders read.
    type Texture: Clone + core::fmt::Debug + PartialEq;
    /// A texture sampler.
    type Sampler: Clone + core::fmt::Debug + PartialEq;
    /// A colour render target view.
    type ColorView: Clone + core::fmt::Debug + PartialEq;
    /// A depth-stencil target view.
    type DepthView: Clone + core::fmt::Debug + PartialEq;
}

/// The outputs of a render target: its colour buffers and, if it has one,
/// its depth buffer.
pub struct Target<R: EffectResources> {
    pub color_bufs: Vec<R::ColorView>,
    pub depth_buf: Option<R::DepthView>,
}

/// The data bound to an effect's pipeline when it draws.
#[derive(Clone, Debug, PartialEq)]
pub struct EffectData<R: EffectResources> {
    pub vertex_bufs: Vec<R::Buffer>,
    pub const_bufs: Vec<R::Buffer>,
    pub globals: Vec<R::Uniform>,
    pub textures: Vec<R::Texture>,
    pub samplers: Vec<R::Sampler>,
    pub out_colors: Vec<R::ColorView>,
    pub out_blends: Vec<R::ColorView>,
    /// The depth output with its stencil reference values.
    pub out_depth: Option<(R::DepthView, (u8, u8))>,
}

/// What a table built from `names` holds: each name that occurs stands for
/// its position, a later occurrence replacing an earlier one.
pub open spec fn entries_of(names: Seq<Seq<char>>) -> Map<Seq<char>, usize>
    decreases names.len(),
{
    if names.len() == 0 {
        Map::empty()
    } else {
        entries_of(names.drop_last()).insert(names.last(), (names.len() - 1) as usize)
    }
}

/// In a table built from `names`, exactly the names that occur are found,
/// and each stands for the last position at which it occurs.
pub proof fn lemma_entries_of(names: Seq<Seq<char>>)
    requires
        names.len() <= usize::MAX,
    ensures
        forall|n: Seq<char>| #[trigger] entries_of(names).dom().contains(n) <==> names.contains(n),
        forall|n: Seq<char>|
            #[trigger] entries_of(names).dom().contains(n) ==> {
                let v = entries_of(names)[n] as int;
                &&& 0 <= v < names.len()
                &&& names[v] == n
                &&& forall|j: int| v < j < names.len() ==> names[j] != n
            },
    decreases names.len(),
{
    if names.len() > 0 {
        let prev = names.drop_last();
        lemma_entries_of(prev);
        assert(entries_of(names) == entries_of(prev).insert(names.last(), (names.len() - 1) as usize));
        assert forall|n: Seq<char>| #[trigger] entries_of(names).dom().contains(n) <==> names.contains(n) by {
            assert(entries_of(prev).dom().contains(n) <==> prev.contains(n));
            if n == names.last() {
                assert(names[names.len() - 1] == n);
            }
            if names.contains(n) && n != names.last() {
                let k = choose|k: int| 0 <= k < names.len() && names[k] == n;
                assert(k < names.len() - 1);
                assert(prev[k] == n);
            }
            if n != names.last() && prev.contains(n) {
                let k = choose|k: int| 0 <= k < prev.len() && prev[k] == n;
                assert(names[k] == n);
            }
        }
        assert forall|n: Seq<char>|
            #[trigger] entries_of(names).dom().contains(n) implies {
                let v = entries_of(names)[n] as int;
                &&& 0 <= v < names.len()
                &&& names[v] == n
                &&& forall|j: int| v < j < names.len() ==> names[j] != n
            } by {
            if n != names.last() {
                let v = entries_of(prev)[n] as int;
                assert(prev[v] == n);
                assert forall|j: int| v < j < names.len() implies names[j] != n by {
                    if j < names.len() - 1 {
                        assert(prev[j] == names[j]);
                    }
                }
            }
        }
    }
}

/// The map from names to positions, held in an fnv hash map.
#[verifier::external_body]
#[derive(Debug, PartialEq, Eq)]
pub struct NameMap {
    map: fnv::FnvHashMap<String, usize>,
}

impl Clone for NameMap {
    /// `HashMap::clone` on the fnv hash map: the copy holds the same
    /// entries.
    #[verifier::external_body]
    fn clone(&self) -> (r: NameMap)
        ensures
            name_map_entries(r) == name_map_entries(*self),
    {
        NameMap { map: self.map.clone() }
    }
}

/// What a [`NameMap`] holds: the position each name stands for.
pub uninterp spec fn name_map_entries(m: NameMap) -> Map<Seq<char>, usize>;

/// An empty fnv hash map, by `FnvHashMap::default`: it holds nothing.
#[verifier::external_body]
fn name_map_new() -> (m: NameMap)
    ensures
        name_map_entries(m).dom() == Set::<Seq<char>>::empty(),
{
    NameMap { map: fnv::FnvHashMap::default() }
}

/// `HashMap::insert` on the fnv hash map, with `name` copied into a
/// `String` key: afterwards `name` stands for `index`, and every other name
/// for what it stood for before.
#[verifier::external_body]
fn name_map_insert(m: &mut NameMap, name: &str, index: usize)
    ensures
        name_map_entries(*final(m)) == name_map_entries(*old(m)).insert(name@, index),
{
    m.map.insert(name.to_string(), index);
}

/// `HashMap::get` on the fnv hash map, by the borrowed `str`: the position
/// `name` stands for, if it is there.
#[verifier::external_body]
fn name_map_get(m: &NameMap, name: &str) -> (r: Option<usize>)
    ensures
        r == (if name_map_entries(*m).dom().contains(name@) {
            Some(name_map_entries(*m)[name@])
        } else {
            None
        }),
{
    m.map.get(name).copied()
}

/// Names that each stand for a position.
#[derive(Clone, Debug, PartialEq, Eq)]
pub struct NameTable {
    map: NameMap,
}

impl View for NameTable {
    type V = Map<Seq<char>, usize>;

    closed spec fn view(&self) -> Map<Seq<char>, usize> {
        name_map_entries(self.map)
    }
}

impl NameTable {
    /// A table of no names.
    pub fn new() -> (t: NameTable)
        ensures
            t@ == Map::<Seq<char>, usize>::empty(),
    {
        let t = NameTable { map: name_map_new() };
        assert(t@ =~= Map::<Seq<char>, usize>::empty());
        t
    }

    /// Lets `name` stand for `index`.
    pub fn insert(&mut self, name: &str, index: usize)
        ensures
            final(self)@ == old(self)@.insert(name@, index),
    {
        name_map_insert(&mut self.map, name, index);
    }

    /// The position that `name` stands for, if it stands for one.
    pub fn get(&self, name: &str) -> (res: Option<usize>)
        ensures
            res == (if self@.dom().contains(name@) {
                Some(self@[name@])
            } else {
                None
            }),
    {
        name_map_get(&self.map, name)
    }
}

/// The contents of [`EffectData`], as sequences.
#[verifier::ext_equal]
pub struct EffectDataView<R: EffectResources> {
    pub vertex_bufs: Seq<R::Buffer>,
    pub const_bufs: Seq<R::Buffer>,
    pub globals: Seq<R::Uniform>,
    pub textures: Seq<R::Texture>,
    pub samplers: Seq<R::Sampler>,
    pub out_colors: Seq<R::ColorView>,
    pub out_blends: Seq<R::ColorView>,
    pub out_depth: Option<(R::DepthView, (u8, u8))>,
}

impl<R: EffectResources> View for EffectData<R> {
    type V = EffectDataView<R>;

    open spec fn view(&self) -> EffectDataView<R> {
        EffectDataView {
            vertex_bufs: self.vertex_bufs@,
            const_bufs: self.const_bufs@,
            globals: self.globals@,
            textures: self.textures@,
            samplers: self.samplers@,
            out_colors: self.out_colors@,
            out_blends: self.out_blends@,
            out_depth: self.out_depth,
        }
    }
}

/// Whether `outs` are clones of the views `views`, one for one.
pub open spec fn clones_of<T: Clone>(views: Seq<T>, outs: Seq<T>) -> bool {
    &&& outs.len() == views.len()
    &&& forall|k: int| 0 <= k < views.len() ==> cloned::<T>(#[trigger] views[k], outs[k])
}

/// Whether `data` draws into the outputs of `target`: its plain and blended
/// colour outputs are clones of the target's colour buffers, and its depth
/// output is a clone of the target's depth buffer, with stencil reference
/// values zero.
pub open spec fn outputs_of<R: EffectResources>(data: EffectDataView<R>, target: &Target<R>) -> bool {
    &&& clones_of(target.color_bufs@, data.out_colors)
    &&& clones_of(target.color_bufs@, data.out_blends)
    &&& match target.depth_buf {
        None => data.out_depth is None,
        Some(d) => data.out_depth matches Some((d2, refs)) && cloned(d, d2) && refs == (0u8, 0u8),
    }
}

/// Whether `new` equals `old` except for its outputs.
pub open spec fn same_but_outputs<R: EffectResources>(old: EffectDataView<R>, new: EffectDataView<R>) -> bool {
    &&& new.vertex_bufs == old.vertex_bufs
    &&& new.const_bufs == old.const_bufs
    &&& new.globals == old.globals
    &&& new.textures == old.textures
    &&& new.samplers == old.samplers
}

/// Clones of the views `views`, one for one.
fn clone_all<T: Clone>(views: &Vec<T>) -> (outs: Vec<T>)
    ensures
        clones_of(views@, outs@),
{
    let mut outs: Vec<T> = Vec::new();
    let n = views.len();
    for i in 0..n
        invariant
            n == views@.len(),
            outs@.len() == i,
            forall|k: int| 0 <= k < i ==> cloned::<T>(#[trigger] views@[k], outs@[k]),
    {
        outs.push(views[i].clone());
    }
    outs
}

impl<R: EffectResources> EffectData<R> {
    /// Data that binds nothing and draws nowhere.
    pub fn new() -> (d: EffectData<R>)
        ensures
            d@.vertex_bufs.len() == 0,
            d@.const_bufs.len() == 0,
            d@.globals.len() == 0,
            d@.textures.len() == 0,
            d@.samplers.len() == 0,
            d@.out_colors.len() == 0,
            d@.out_blends.len() == 0,
            d@.out_depth is None,
    {
        EffectData {
            vertex_bufs: Vec::new(),
            const_bufs: Vec::new(),
            globals: Vec::new(),
            textures: Vec::new(),
            samplers: Vec::new(),
            out_colors: Vec::new(),
            out_blends: Vec::new(),
            out_depth: None,
        }
    }

    /// Draws into the outputs of `target` from now on, blended and not.
    pub fn set_outputs(&mut self, target: &Target<R>)
        ensures
            outputs_of(final(self)@, target),
            same_but_outputs(old(self)@, final(self)@),
    {
        self.out_colors = clone_all(&target.color_bufs);
        self.out_blends = clone_all(&target.color_bufs);
        self.out_depth = match &target.depth_buf {
            None => None,
            Some(d) => Some((d.clone(), (0u8, 0u8))),
        };
    }
}

/// Everything an effect holds, as plain values: the pipeline, the bound
/// data, the positions that names of constant buffers and globals stand
/// for, and the
/// program asset handles it was compiled from.
#[verifier::ext_equal]
pub struct EffectView<R: EffectResources> {
    pub pso: Option<R::Pipeline>,
    pub data: EffectDataView<R>,
    pub const_bufs: Map<Seq<char>, usize>,
    pub globals: Map<Seq<char>, usize>,
    pub prog: Seq<ProgramHandle>,
}

/// A compiled effect: the pipeline state, the data bound to it, and the
/// positions of its constant buffers and globals by name.
#[derive(Clone, Debug, PartialEq)]
pub struct Effect<R: EffectResources> {
    pub pso: Option<R::Pipeline>,
    pub data: EffectData<R>,
    const_bufs: NameTable,
    globals: NameTable,
    prog: Vec<ProgramHandle>,
}

impl<R: EffectResources> View for Effect<R> {
    type V = EffectView<R>;

    closed spec fn view(&self) -> EffectView<R> {
        EffectView {
            pso: self.pso,
            data: self.data@,
            const_bufs: self.const_bufs@,
            globals: self.globals@,
            prog: self.prog@,
        }
    }
}

/// A request to the backend to create a pipeline state: the shader stages to
/// compile and link, with the primitive, rasterizer and pipeline description.
pub struct PipelineRequest<'s> {
    pub stages: ShaderStages<'s>,
    pub prim: Primitive,
    pub rast: Rasterizer,
    pub init: EffectInit<'s>,
}

/// Whether every name of `names` stands for a position below `len`, no two
/// names for the same one.
pub open spec fn names_within(names: Map<Seq<char>, usize>, len: nat) -> bool {
    &&& forall|n: Seq<char>| #[trigger] names.dom().contains(n) ==> names[n] < len
    &&& forall|a: Seq<char>, b: Seq<char>|
        #[trigger] names.dom().contains(a) && #[trigger] names.dom().contains(b) && a != b ==> names[a] != names[b]
}

impl<R: EffectResources> EffectView<R> {
    /// Whether every name of a constant buffer or a global stands for a
    /// position of the data bound to the pipeline, no two names for the same
    /// one.
    pub open spec fn wf(self) -> bool {
        &&& names_within(self.const_bufs, self.data.const_bufs.len())
        &&& names_within(self.globals, self.data.globals.len())
    }
}

impl<R: EffectResources> Effect<R> {
    /// Assembles an effect from its parts.
    pub(crate) fn from_parts(
        pso: Option<R::Pipeline>,
        data: EffectData<R>,
        const_bufs: NameTable,
        globals: NameTable,
        prog: Vec<ProgramHandle>,
    ) -> (e: Effect<R>)
        ensures
            e@ == (EffectView { pso, data: data@, const_bufs: const_bufs@, globals: globals@, prog: prog@ }),
    {
        Effect { pso, data, const_bufs, globals, prog }
    }
}

/// The effect `e` with the global that `name` stands for set to `value`;
/// `e` itself where no global has that name.
pub open spec fn with_global<R: EffectResources>(e: EffectView<R>, name: Seq<char>, value: R::Uniform) -> EffectView<R> {
    EffectView {
        data: EffectDataView {
            globals: if e.globals.dom().contains(name) {
                e.data.globals.update(e.globals[name] as int, value)
            } else {
                e.data.globals
            },
            ..e.data
        },
        ..e
    }
}

/// Whether `after` is `before` drawing into the outputs of `target`: its
/// outputs are clones of the target's, and nothing else changed.
pub open spec fn retargeted<R: EffectResources>(before: EffectView<R>, after: EffectView<R>, target: &Target<R>) -> bool {
    &&& outputs_of(after.data, target)
    &&& same_but_outputs(before.data, after.data)
    &&& after.pso == before.pso
    &&& after.const_bufs == before.const_bufs
    &&& after.globals == before.globals
    &&& after.prog == before.prog
}

/// The effect `e` with no texture, sampler or vertex buffer bound.
pub open spec fn cleared<R: EffectResources>(e: EffectView<R>) -> EffectView<R> {
    EffectView {
        data: EffectDataView {
            textures: Seq::empty(),
            samplers: Seq::empty(),
            vertex_bufs: Seq::empty(),
            ..e.data
        },
        ..e
    }
}

impl<R: EffectResources> Effect<R> {
    /// Sets the global `name` to `value`; where no global has that name the
    /// effect is left as it is.
    pub fn update_global(&mut self, name: &str, value: R::Uniform)
        requires
            old(self)@.wf(),
        ensures
            final(self)@ == with_global(old(self)@, name@, value),
    {
        let found = self.globals.get(name);
        if let Some(i) = found {
            self.data.globals.set(i, value);
        }
    }

    /// What a draw hands to the encoder: the pipeline and the data bound to
    /// it, when the effect has a pipeline; nothing is drawn otherwise.
    pub fn draw_parts(&self) -> (parts: Option<(&R::Pipeline, &EffectData<R>)>)
        ensures
            parts is Some <==> self@.pso is Some,
            parts matches Some((p, d)) ==> self@.pso == Some(*p) && d@ == self@.data,
    {
        match &self.pso {
            Some(p) => Some((p, &self.data)),
            None => None,
        }
    }

    /// Whether `name` is the name of a global.
    pub fn has_global(&self, name: &str) -> (b: bool)
        ensures
            b == self@.globals.dom().contains(name@),
    {
        self.globals.get(name).is_some()
    }

    /// The constant buffer that `name` stands for, if there is one.
    pub fn constant_buffer(&self, name: &str) -> (buf: Option<&R::Buffer>)
        requires
            self@.wf(),
        ensures
            if self@.const_bufs.dom().contains(name@) {
                buf matches Some(b) && *b == self@.data.const_bufs[self@.const_bufs[name@] as int]
            } else {
                buf is None
            },
    {
        let found = self.const_bufs.get(name);
        match found {
            Some(i) => Some(&self.data.const_bufs[i]),
            None => None,
        }
    }

    /// Unbinds all textures, samplers and vertex buffers.
    pub fn clear(&mut self)
        ensures
            final(self)@ == cleared(old(self)@),
    {
        self.data.textures.clear();
        self.data.samplers.clear();
        self.data.vertex_bufs.clear();
    }

    /// How many program asset handles the effect was compiled from.
    pub fn program_count(&self) -> (n: usize)
        ensures
            n == self@.prog.len(),
    {
        self.prog.len()
    }

    /// The first two program asset handles the effect was compiled from:
    /// those that a reload looks up again.
    pub fn reload_handles(&self) -> (h: (ProgramHandle, ProgramHandle))
        requires
            self@.prog.len() >= 2,
        ensures
            h == (self@.prog[0], self@.prog[1]),
    {
        (self.prog[0], self.prog[1])
    }

    /// What to recreate the pipeline from, given what the asset storage now
    /// holds for the first (`first`) and the second (`second`) of the
    /// effect's program handles, with the description `init`: when both are
    /// loaded, the second program is compiled as the vertex stage and the
    /// first as the pixel stage, into a filled, back-face culled
    /// triangle-list pipeline. When one of them is missing there is nothing
    /// to recreate.
    pub fn reload_request_with<'s>(
        &self,
        first: Option<&'s Program>,
        second: Option<&'s Program>,
        init: EffectInit<'s>,
    ) -> (req: Option<PipelineRequest<'s>>)
        requires
            self@.prog.len() >= 2,
        ensures
            req is Some <==> (first is Some && second is Some),
            req matches Some(r) ==> {
                &&& r.stages matches ShaderStages::Simple { vertex, pixel }
                &&& vertex@ == second->0.bytes()
                &&& pixel@ == first->0.bytes()
                &&& r.prim == Primitive::TriangleList
                &&& r.rast == crate::state::default_rasterizer()
                &&& r.init@ == init@
            },
    {
        match (first, second) {
            (Some(ps), Some(vs)) => Some(
                PipelineRequest {
                    stages: ShaderStages::Simple { vertex: vs.as_slice(), pixel: ps.as_slice() },
                    prim: Primitive::TriangleList,
                    rast: Rasterizer::new_fill().with_cull_back(),
                    init,
                },
            ),
            _ => None,
        }
    }

    /// What to recreate the pipeline from on a reload, as
    /// [`Effect::reload_request_with`] with a description that binds nothing.
    pub fn reload_request<'s>(&self, first: Option<&'s Program>, second: Option<&'s Program>) -> (req: Option<PipelineRequest<'s>>)
        requires
            self@.prog.len() >= 2,
        ensures
            req is Some <==> (first is Some && second is Some),
            req matches Some(r) ==> {
                &&& r.stages matches ShaderStages::Simple { vertex, pixel }
                &&& vertex@ == second->0.bytes()
                &&& pixel@ == first->0.bytes()
                &&& r.prim == Primitive::TriangleList
                &&& r.rast == crate::state::default_rasterizer()
                &&& r.init@ == crate::builder::empty_init::<'s>()
            },
    {
        self.reload_request_with(first, second, EffectInit::new())
    }

    /// Draws into the outputs of `target` from now on.
    pub fn new_target(&mut self, target: &Target<R>)
        ensures
            retargeted(old(self)@, final(self)@, target),
    {
        self.data.set_outputs(target);
    }
}

/// Setting a global that the effect has writes the value at the position
/// that the name stands for and nowhere else; the names, and so the position
/// the name stands for, stay as they were, and the effect stays well formed.
pub proof fn law_global_read_after_write<R: EffectResources>(e: EffectView<R>, name: Seq<char>, value: R::Uniform)
    requires
        e.wf(),
        e.globals.dom().contains(name),
    ensures
        ({
            let i = e.globals[name] as int;
            let after = with_global(e, name, value);
            &&& 0 <= i < after.data.globals.len()
            &&& after.data.globals[i] == value
            &&& forall|j: int| 0 <= j < e.data.globals.len() && j != i ==> after.data.globals[j] == e.data.globals[j]
            &&& after.globals == e.globals
            &&& after.wf()
            &&& after == (EffectView { data: EffectDataView { globals: after.data.globals, ..e.data }, ..e })
        }),
{
}

/// Of two settings of the same global, the later one is what stays.
pub proof fn law_global_last_write_wins<R: EffectResources>(
    e: EffectView<R>,
    name: Seq<char>,
    first: R::Uniform,
    second: R::Uniform,
)
    requires
        e.wf(),
    ensures
        with_global(with_global(e, name, first), name, second) == with_global(e, name, second),
{
    if e.globals.dom().contains(name) {
        assert(with_global(with_global(e, name, first), name, second).data.globals =~= with_global(
            e,
            name,
            second,
        ).data.globals);
    }
}

/// Settings of globals with different names do not depend on their order.
pub proof fn law_global_writes_commute<R: EffectResources>(
    e: EffectView<R>,
    a: Seq<char>,
    va: R::Uniform,
    b: Seq<char>,
    vb: R::Uniform,
)
    requires
        e.wf(),
        a != b,
    ensures
        with_global(with_global(e, a, va), b, vb) == with_global(with_global(e, b, vb), a, va),
{
    assert(with_global(with_global(e, a, va), b, vb).data.globals =~= with_global(
        with_global(e, b, vb),
        a,
        va,
    ).data.globals);
}

/// Setting a global that the effect does not have changes nothing.
pub proof fn law_unknown_global_unchanged<R: EffectResources>(e: EffectView<R>, name: Seq<char>, value: R::Uniform)
    requires
        !e.globals.dom().contains(name),
    ensures
        with_global(e, name, value) == e,
{
    assert(with_global(e, name, value).data =~= e.data);
}

/// After unbinding, no texture, sampler or vertex buffer is bound, however
/// many were bound before; everything else stays as it was.
pub proof fn law_clear_unbinds_all<R: EffectResources>(e: EffectView<R>)
    ensures
        cleared(e).data.textures.len() == 0,
        cleared(e).data.samplers.len() == 0,
        cleared(e).data.vertex_bufs.len() == 0,
        cleared(e) == (EffectView {
            data: EffectDataView {
                textures: Seq::empty(),
                samplers: Seq::empty(),
                vertex_bufs: Seq::empty(),
                ..e.data
            },
            ..e
        }),
{
}

/// Unbinding textures, samplers and vertex buffers keeps the effect well
/// formed, leaves its globals, constant buffers and outputs alone, and
/// doing it twice is doing it once.
pub proof fn law_clear<R: EffectResources>(e: EffectView<R>)
    ensures
        e.wf() ==> cleared(e).wf(),
        cleared(cleared(e)) == cleared(e),
        cleared(e).data.globals == e.data.globals,
        cleared(e).data.const_bufs == e.data.const_bufs,
        cleared(e).data.out_colors == e.data.out_colors,
        cleared(e).data.out_blends == e.data.out_blends,
        cleared(e).data.out_depth == e.data.out_depth,
        cleared(e).pso == e.pso,
        cleared(e).globals == e.globals,
        cleared(e).const_bufs == e.const_bufs,
{
}

/// One change made to a built effect: a global set, the textures, samplers
/// and vertex buffers unbound, the outputs replaced (by retargeting), or the
/// pipeline replaced (by reloading).
#[verifier::reject_recursive_types(R)]
pub enum EffectStep<R: EffectResources> {
    SetGlobal(Seq<char>, R::Uniform),
    Clear,
    Retarget(Seq<R::ColorView>, Seq<R::ColorView>, Option<(R::DepthView, (u8, u8))>),
    Reload(Option<R::Pipeline>),
}

/// `e` after the change `step`.
pub open spec fn effect_step<R: EffectResources>(e: EffectView<R>, step: EffectStep<R>) -> EffectView<R> {
    match step {
        EffectStep::SetGlobal(name, value) => with_global(e, name, value),
        EffectStep::Clear => cleared(e),
        EffectStep::Retarget(colors, blends, depth) => EffectView {
            data: EffectDataView { out_colors: colors, out_blends: blends, out_depth: depth, ..e.data },
            ..e
        },
        EffectStep::Reload(pso) => EffectView { pso, ..e },
    }
}

/// `e` after the changes `steps`, in order.
pub open spec fn effect_steps<R: EffectResources>(e: EffectView<R>, steps: Seq<EffectStep<R>>) -> EffectView<R>
    decreases steps.len(),
{
    if steps.len() == 0 {
        e
    } else {
        effect_step(effect_steps(e, steps.drop_last()), steps.last())
    }
}

/// Retargeting is the change that replaces the outputs by the clones it made.
pub proof fn lemma_retarget_is_step<R: EffectResources>(before: EffectView<R>, after: EffectView<R>, target: &Target<R>)
    requires
        retargeted(before, after, target),
    ensures
        after == effect_step(
            before,
            EffectStep::Retarget(after.data.out_colors, after.data.out_blends, after.data.out_depth),
        ),
{
    assert(after.data =~= effect_step(
        before,
        EffectStep::Retarget(after.data.out_colors, after.data.out_blends, after.data.out_depth),
    ).data);
}

/// A built effect stays well formed through any sequence of changes: every
/// name of a constant buffer or a global keeps standing for a position of
/// the bound data, so looking one up never goes out of bounds.
pub proof fn law_effect_stays_wf<R: EffectResources>(e: EffectView<R>, steps: Seq<EffectStep<R>>)
    requires
        e.wf(),
    ensures
        effect_steps(e, steps).wf(),
        effect_steps(e, steps).const_bufs == e.const_bufs,
        effect_steps(e, steps).globals == e.globals,
        effect_steps(e, steps).data.const_bufs == e.data.const_bufs,
        effect_steps(e, steps).data.globals.len() == e.data.globals.len(),
    decreases steps.len(),
{
    if steps.len() > 0 {
        law_effect_stays_wf(e, steps.drop_last());
    }
}

/// Whether cloning the views of `target` gives them back unchanged.
pub open spec fn clones_exactly<R: EffectResources>(target: &Target<R>) -> bool {
    &&& forall|k: int, c: R::ColorView|
        0 <= k < target.color_bufs@.len() && #[trigger] cloned::<R::ColorView>(target.color_bufs@[k], c) ==> c
            == target.color_bufs@[k]
    &&& forall|d: R::DepthView, c: R::DepthView|
        target.depth_buf == Some(d) && #[trigger] cloned::<R::DepthView>(d, c) ==> c == d
}

/// Of two retargetings, the later one is what stays: an effect retargeted
/// at `first` and then at `second` differs from the same effect retargeted
/// at `second` alone in nothing but which clones of `second`'s outputs it
/// holds, and in nothing at all where cloning those outputs gives them back
/// unchanged.
pub proof fn law_last_target_wins<R: EffectResources>(
    before: EffectView<R>,
    mid: EffectView<R>,
    twice: EffectView<R>,
    once: EffectView<R>,
    first: &Target<R>,
    second: &Target<R>,
)
    requires
        retargeted(before, mid, first),
        retargeted(mid, twice, second),
        retargeted(before, once, second),
    ensures
        retargeted(before, twice, second),
        twice == (EffectView {
            data: EffectDataView {
                out_colors: twice.data.out_colors,
                out_blends: twice.data.out_blends,
                out_depth: twice.data.out_depth,
                ..once.data
            },
            ..once
        }),
        clones_exactly(second) ==> twice == once,
{
    assert(twice.data =~= (EffectDataView {
        out_colors: twice.data.out_colors,
        out_blends: twice.data.out_blends,
        out_depth: twice.data.out_depth,
        ..once.data
    }));
    if clones_exactly(second) {
        assert(twice.data.out_colors =~= once.data.out_colors) by {
            assert forall|k: int| 0 <= k < twice.data.out_colors.len() implies twice.data.out_colors[k]
                == once.data.out_colors[k] by {
                assert(cloned::<R::ColorView>(second.color_bufs@[k], twice.data.out_colors[k]));
                assert(cloned::<R::ColorView>(second.color_bufs@[k], once.data.out_colors[k]));
            }
        }
        assert(twice.data.out_blends =~= once.data.out_blends) by {
            assert forall|k: int| 0 <= k < twice.data.out_blends.len() implies twice.data.out_blends[k]
                == once.data.out_blends[k] by {
                assert(cloned::<R::ColorView>(second.color_bufs@[k], twice.data.out_blends[k]));
                assert(cloned::<R::ColorView>(second.color_bufs@[k], once.data.out_blends[k]));
            }
        }
        assert(twice.data =~= once.data);
    }
}

/// Retargeting an effect at the target it already draws into changes
/// nothing but which clones of the target's outputs it holds, and nothing
/// at all where cloning those outputs gives them back unchanged.
pub proof fn law_same_target_unchanged<R: EffectResources>(before: EffectView<R>, after: EffectView<R>, target: &Target<R>)
    requires
        outputs_of(before.data, target),
        retargeted(before, after, target),
    ensures
        after == (EffectView {
            data: EffectDataView {
                out_colors: after.data.out_colors,
                out_blends: after.data.out_blends,
                out_depth: after.data.out_depth,
                ..before.data
            },
            ..before
        }),
        clones_exactly(target) ==> after == before,
{
    assert(after.data =~= (EffectDataView {
        out_colors: after.data.out_colors,
        out_blends: after.data.out_blends,
        out_depth: after.data.out_depth,
        ..before.data
    }));
    if clones_exactly(target) {
        assert(after.data.out_colors =~= before.data.out_colors) by {
            assert forall|k: int| 0 <= k < after.data.out_colors.len() implies after.data.out_colors[k]
                == before.data.out_colors[k] by {
                assert(cloned::<R::ColorView>(target.color_bufs@[k], after.data.out_colors[k]));
                assert(cloned::<R::ColorView>(target.color_bufs@[k], before.data.out_colors[k]));
            }
        }
        assert(after.data.out_blends =~= before.data.out_blends) by {
            assert forall|k: int| 0 <= k < after.data.out_blends.len() implies after.data.out_blends[k]
                == before.data.out_blends[k] by {
                assert(cloned::<R::ColorView>(target.color_bufs@[k], after.data.out_blends[k]));
                assert(cloned::<R::ColorView>(target.color_bufs@[k], before.data.out_blends[k]));
            }
        }
        assert(after.data =~= before.data);
    }
}

} // verus!
