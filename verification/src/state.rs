//! Fixed-function pipeline state that an effect is built with.
//!
//! These are the values the effect builder reads and writes: the depth test,
//! the rasterizer, the primitive topology and the description of constant
//! buffers. They mirror the plain data of the graphics backend one for one;
//! the backend's own types are produced from them where the GPU is driven.
use vstd::prelude::*;

verus! {

/// How the depth buffer of an output target is used.
#[derive(Clone, Copy, Debug, PartialEq, Eq, Hash, Structural)]
pub enum DepthMode {
    /// Test against the depth buffer, do not write to it.
    LessEqualTest,
    /// Test against the depth buffer and write passing fragments' depth.
    LessEqualWrite,
}

/// A pixel-wise comparison function.
#[derive(Clone, Copy, Debug, PartialEq, Eq, Hash, Structural)]
pub enum Comparison {
    Never,
    Less,
    LessEqual,
    Equal,
    GreaterEqual,
    Greater,
    NotEqual,
    Always,
}

/// Depth test state of an output; the stencil state that goes with it is
/// always the backend's default stencil state.
#[derive(Clone, Copy, Debug, PartialEq, Eq, Hash, Structural)]
pub struct Depth {
    pub fun: Comparison,
    pub write: bool,
}

/// `<=` comparison with a read-only depth buffer.
pub open spec fn less_equal_test() -> Depth {
    Depth { fun: Comparison::LessEqual, write: false }
}

/// `<=` comparison, writing the depth of fragments that pass.
pub open spec fn less_equal_write() -> Depth {
    Depth { fun: Comparison::LessEqual, write: true }
}

/// Always pass, and write the depth buffer.
pub open spec fn pass_write() -> Depth {
    Depth { fun: Comparison::Always, write: true }
}

/// The depth state that a depth mode selects.
pub open spec fn depth_of_mode(mode: DepthMode) -> Depth {
    match mode {
        DepthMode::LessEqualTest => less_equal_test(),
        DepthMode::LessEqualWrite => less_equal_write(),
    }
}

impl DepthMode {
    /// The depth test state this mode stands for.
    pub fn depth(self) -> (d: Depth)
        ensures
            d == depth_of_mode(self),
    {
        match self {
            DepthMode::LessEqualTest => Depth { fun: Comparison::LessEqual, write: false },
            DepthMode::LessEqualWrite => Depth { fun: Comparison::LessEqual, write: true },
        }
    }
}

/// Winding order of the front face.
#[derive(Clone, Copy, Debug, PartialEq, Eq, Hash, Structural)]
pub enum FrontFace {
    Clockwise,
    CounterClockwise,
}

/// Which face, if any, to cull.
#[derive(Clone, Copy, Debug, PartialEq, Eq, Hash, Structural)]
pub enum CullFace {
    Nothing,
    Front,
    Back,
}

/// Rasterizer state of a pipeline: primitives are always filled and never
/// offset; `multisample` stands for the presence of the multi-sampling mode.
#[derive(Clone, Copy, Debug, PartialEq, Eq, Hash, Structural)]
pub struct Rasterizer {
    pub front_face: FrontFace,
    pub cull_face: CullFace,
    pub multisample: bool,
}

impl Rasterizer {
    /// A filling rasterizer: counter-clockwise front faces, no culling,
    /// no multi-sampling.
    pub fn new_fill() -> (r: Rasterizer)
        ensures
            r == (Rasterizer {
                front_face: FrontFace::CounterClockwise,
                cull_face: CullFace::Nothing,
                multisample: false,
            }),
    {
        Rasterizer { front_face: FrontFace::CounterClockwise, cull_face: CullFace::Nothing, multisample: false }
    }

    /// The same rasterizer with back faces culled.
    pub fn with_cull_back(self) -> (r: Rasterizer)
        ensures
            r == (Rasterizer { cull_face: CullFace::Back, ..self }),
    {
        Rasterizer { cull_face: CullFace::Back, ..self }
    }
}

/// The rasterizer every effect starts from: filled, back faces culled.
pub open spec fn default_rasterizer() -> Rasterizer {
    Rasterizer {
        front_face: FrontFace::CounterClockwise,
        cull_face: CullFace::Back,
        multisample: false,
    }
}

/// Primitive topology of the vertices that are drawn.
#[derive(Clone, Copy, Debug, PartialEq, Eq, Hash, Structural)]
pub enum Primitive {
    PointList,
    LineList,
    LineStrip,
    TriangleList,
    TriangleStrip,
    LineListAdjacency,
    LineStripAdjacency,
    TriangleListAdjacency,
    TriangleStripAdjacency,
    PatchList(u8),
}

/// What a buffer is used for.
#[derive(Clone, Copy, Debug, PartialEq, Eq, Hash, Structural)]
pub enum BufferRole {
    Vertex,
    Index,
    Constant,
    Staging,
}

/// How the CPU and the GPU access a buffer's memory.
#[derive(Clone, Copy, Debug, PartialEq, Eq, Hash, Structural)]
pub enum BufferUsage {
    Data,
    Dynamic,
    Upload,
    Download,
}

/// Description of a buffer to create. `bind` holds the backend's bind flags
/// as bits.
#[derive(Clone, Copy, Debug, PartialEq, Eq, Hash, Structural)]
pub struct BufferInfo {
    pub role: BufferRole,
    pub usage: BufferUsage,
    pub bind: u8,
    pub size: usize,
    pub stride: usize,
}

/// The description of a dynamic constant buffer of `num` elements of `size`
/// bytes each.
pub open spec fn constant_buffer_info(size: usize, num: usize) -> BufferInfo {
    BufferInfo {
        role: BufferRole::Constant,
        usage: BufferUsage::Dynamic,
        bind: 0,
        size: (num * size) as usize,
        stride: size,
    }
}

} // verus!
