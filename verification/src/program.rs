//! Shader programs: loaded program assets, the sources an effect is compiled
//! from, and the decision of what is handed to the backend for compilation.
use vstd::prelude::*;

verus! {

/// The shader stage a program is written for.
#[derive(Clone, Copy, Debug, PartialEq, Eq, Hash, Structural)]
pub enum ProgramType {
    VertexShader,
    PixelShader,
    GeometryShader,
    DomainShader,
    HullShader,
}

/// The raw bytes of a loaded shader program.
pub type ProgramData = Box<Vec<u8>>;

/// A loaded shader program asset.
#[derive(Clone, Debug, PartialEq, Eq, Hash)]
pub struct Program {
    program_type: ProgramType,
    pub data: ProgramData,
}

impl Program {
    /// The stage this program is for.
    pub closed spec fn kind(&self) -> ProgramType {
        self.program_type
    }

    /// The bytes of this program.
    pub closed spec fn bytes(&self) -> Seq<u8> {
        self.data@
    }

    /// The bytes of this program.
    pub fn as_slice(&self) -> (b: &[u8])
        ensures
            b@ == self.bytes(),
    {
        self.data.as_slice()
    }

    /// A program holding `data`; every program starts out as a vertex
    /// shader.
    pub fn new(data: ProgramData) -> (p: Program)
        ensures
            p.kind() == ProgramType::VertexShader,
            p.bytes() == data@,
    {
        Program { program_type: ProgramType::VertexShader, data }
    }
}

/// The format that loads GLSL shader sources as program assets.
#[derive(Clone, Copy, Debug)]
pub struct GlslProgram;

impl GlslProgram {
    /// Imports the bytes of a GLSL source file as they are.
    pub fn import(&self, bytes: Vec<u8>) -> (data: ProgramData)
        ensures
            *data == bytes,
    {
        Box::new(bytes)
    }
}

/// A handle to a program asset in the asset storage, by its id.
#[derive(Clone, Copy, Debug, PartialEq, Eq, Hash, Structural)]
pub struct ProgramHandle {
    pub id: u32,
}

/// Where the shader programs of an effect come from.
#[derive(Clone, Copy, Debug, PartialEq, Eq, Hash)]
pub enum ProgramSource<'a> {
    /// A vertex and a pixel program, loaded as assets.
    SimpleHandle(ProgramHandle, ProgramHandle),
    /// Vertex and pixel shader sources.
    Simple(&'a [u8], &'a [u8]),
    /// Vertex, geometry and pixel shader sources.
    Geometry(&'a [u8], &'a [u8], &'a [u8]),
    /// Vertex, hull, domain and pixel shader sources.
    Tessellated(&'a [u8], &'a [u8], &'a [u8], &'a [u8]),
}

/// The shader sources that the backend compiles into a shader set, stage by
/// stage.
#[derive(Clone, Copy, Debug, PartialEq, Eq)]
pub enum ShaderStages<'s> {
    Simple { vertex: &'s [u8], pixel: &'s [u8] },
    Geometry { vertex: &'s [u8], geometry: &'s [u8], pixel: &'s [u8] },
    Tessellated { vertex: &'s [u8], hull: &'s [u8], domain: &'s [u8], pixel: &'s [u8] },
}

/// Errors of assembling an effect.
#[derive(Clone, Debug, PartialEq, Eq)]
pub enum EffectError {
    /// A program or target that was asked for does not exist.
    NoSuchTarget(String),
}

/// The message of the error for a vertex program that is not loaded.
pub open spec fn missing_vertex_message() -> Seq<char> {
    "vertex shader retrieval failed"@
}

/// The message of the error for a pixel program that is not loaded.
pub open spec fn missing_pixel_message() -> Seq<char> {
    "pixel shader retrieval failed"@
}

/// Whether `e` is the "no such target" error with message `msg`.
pub open spec fn is_no_such_target(e: EffectError, msg: Seq<char>) -> bool {
    match e {
        EffectError::NoSuchTarget(s) => s@ == msg,
    }
}

/// Whether `st` holds the stages to compile for `src`, given the programs
/// that its asset handles resolved to (ignored unless `src` names its
/// programs by handle): each stage is the source it names, and for programs
/// by handle the vertex and pixel stages are the bytes of the two programs.
pub open spec fn stages_for(
    st: ShaderStages,
    src: ProgramSource,
    vs: Option<&Program>,
    ps: Option<&Program>,
) -> bool {
    match src {
        ProgramSource::SimpleHandle(_, _) => {
            &&& vs is Some
            &&& ps is Some
            &&& st matches ShaderStages::Simple { vertex, pixel }
            &&& vertex@ == vs->0.bytes()
            &&& pixel@ == ps->0.bytes()
        },
        ProgramSource::Simple(v, p) => st == ShaderStages::Simple { vertex: v, pixel: p },
        ProgramSource::Geometry(v, g, p) => st == ShaderStages::Geometry {
            vertex: v,
            geometry: g,
            pixel: p,
        },
        ProgramSource::Tessellated(v, h, d, p) => st == ShaderStages::Tessellated {
            vertex: v,
            hull: h,
            domain: d,
            pixel: p,
        },
    }
}

impl<'a> ProgramSource<'a> {
    /// The asset handles of the vertex and pixel programs, for a source that
    /// names its programs by handle.
    pub open spec fn spec_handles(self) -> Option<(ProgramHandle, ProgramHandle)> {
        match self {
            ProgramSource::SimpleHandle(vs, ps) => Some((vs, ps)),
            _ => None,
        }
    }

    /// The asset handles that have to be looked up in the asset storage
    /// before this source can be compiled.
    pub fn handles(&self) -> (h: Option<(ProgramHandle, ProgramHandle)>)
        ensures
            h == self.spec_handles(),
    {
        match *self {
            ProgramSource::SimpleHandle(vs, ps) => Some((vs, ps)),
            _ => None,
        }
    }
}

impl<'a> ProgramSource<'a> {
    /// Records the asset handles of this source in `handles` (vertex first,
    /// then pixel) and decides which shader sources the backend compiles.
    ///
    /// `vs` and `ps` are what the asset storage holds for the two handles of
    /// a source that names its programs by handle; they are not looked at
    /// for the other sources. A missing vertex program is reported before a
    /// missing pixel program; the handles are recorded either way.
    pub fn compile<'s>(
        &'s self,
        vs: Option<&'s Program>,
        ps: Option<&'s Program>,
        handles: &mut Vec<ProgramHandle>,
    ) -> (res: Result<ShaderStages<'s>, EffectError>)
        ensures
            final(handles)@ == (match self.spec_handles() {
                Some((v, p)) => old(handles)@.push(v).push(p),
                None => old(handles)@,
            }),
            res is Ok <==> (self.spec_handles() is None || (vs is Some && ps is Some)),
            res matches Ok(st) ==> stages_for(st, *self, vs, ps),
            self.spec_handles() is Some && vs is None ==> (res matches Err(e) && is_no_such_target(
                e,
                missing_vertex_message(),
            )),
            self.spec_handles() is Some && vs is Some && ps is None ==> (res matches Err(e)
                && is_no_such_target(e, missing_pixel_message())),
    {
        match *self {
            ProgramSource::SimpleHandle(vh, ph) => {
                handles.push(vh);
                handles.push(ph);
                match vs {
                    None => Err(EffectError::NoSuchTarget("vertex shader retrieval failed".to_owned())),
                    Some(v) => match ps {
                        None => Err(
                            EffectError::NoSuchTarget("pixel shader retrieval failed".to_owned()),
                        ),
                        Some(p) => Ok(
                            ShaderStages::Simple { vertex: v.data.as_slice(), pixel: p.data.as_slice() },
                        ),
                    },
                }
            },
            ProgramSource::Simple(v, p) => Ok(ShaderStages::Simple { vertex: v, pixel: p }),
            ProgramSource::Geometry(v, g, p) => Ok(
                ShaderStages::Geometry { vertex: v, geometry: g, pixel: p },
            ),
            ProgramSource::Tessellated(v, h, d, p) => Ok(
                ShaderStages::Tessellated { vertex: v, hull: h, domain: d, pixel: p },
            ),
        }
    }
}

} // verus!
