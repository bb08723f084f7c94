use amethyst_renderer::program::{
    EffectError, GlslProgram, Program, ProgramHandle, ProgramSource, ShaderStages,
};

fn program(bytes: &[u8]) -> Program {
    Program::new(Box::new(bytes.to_vec()))
}

#[test]
fn new_program_holds_its_bytes() {
    let p = Program::new(Box::new(vec![1u8, 2, 3]));
    assert_eq!(*p.data, vec![1u8, 2, 3]);
    assert_eq!(p.as_slice(), &[1u8, 2, 3][..]);
    assert_eq!(p, program(&[1, 2, 3]));
    assert_ne!(p, program(&[1, 2]));
}

#[test]
fn glsl_import_keeps_the_file_bytes() {
    let data = GlslProgram.import(b"void main() {}".to_vec());
    assert_eq!(*data, b"void main() {}".to_vec());
    let p = Program::new(data);
    assert_eq!(p.as_slice(), b"void main() {}");
}

#[test]
fn handles_of_a_source() {
    let vs = ProgramHandle { id: 3 };
    let ps = ProgramHandle { id: 9 };
    assert_eq!(ProgramSource::SimpleHandle(vs, ps).handles(), Some((vs, ps)));
    assert_eq!(ProgramSource::Simple(b"v", b"p").handles(), None);
    assert_eq!(ProgramSource::Geometry(b"v", b"g", b"p").handles(), None);
    assert_eq!(ProgramSource::Tessellated(b"v", b"h", b"d", b"p").handles(), None);
}

#[test]
fn compile_by_handle_reports_a_missing_vertex_program() {
    let vs = ProgramHandle { id: 1 };
    let ps = ProgramHandle { id: 2 };
    let src = ProgramSource::SimpleHandle(vs, ps);
    let pixel = program(b"pixel");
    let mut handles = vec![ProgramHandle { id: 7 }];
    let res = src.compile(None, Some(&pixel), &mut handles);
    assert_eq!(
        res,
        Err(EffectError::NoSuchTarget("vertex shader retrieval failed".to_string()))
    );
    assert_eq!(handles, vec![ProgramHandle { id: 7 }, vs, ps]);

    let mut handles = Vec::new();
    let res = src.compile(None, None, &mut handles);
    assert_eq!(
        res,
        Err(EffectError::NoSuchTarget("vertex shader retrieval failed".to_string()))
    );
    assert_eq!(handles, vec![vs, ps]);
}

#[test]
fn compile_by_handle_reports_a_missing_pixel_program() {
    let vs = ProgramHandle { id: 1 };
    let ps = ProgramHandle { id: 2 };
    let src = ProgramSource::SimpleHandle(vs, ps);
    let vertex = program(b"vertex");
    let mut handles = Vec::new();
    let res = src.compile(Some(&vertex), None, &mut handles);
    assert_eq!(
        res,
        Err(EffectError::NoSuchTarget("pixel shader retrieval failed".to_string()))
    );
    assert_eq!(handles, vec![vs, ps]);
}

#[test]
fn compile_by_handle_uses_the_loaded_programs() {
    let vs = ProgramHandle { id: 1 };
    let ps = ProgramHandle { id: 2 };
    let src = ProgramSource::SimpleHandle(vs, ps);
    let vertex = program(b"vertex");
    let pixel = program(b"pixel");
    let mut handles = Vec::new();
    let res = src.compile(Some(&vertex), Some(&pixel), &mut handles);
    assert_eq!(
        res,
        Ok(ShaderStages::Simple { vertex: &b"vertex"[..], pixel: &b"pixel"[..] })
    );
    assert_eq!(handles, vec![vs, ps]);
}

#[test]
fn compile_of_sources_records_no_handles() {
    let unused = program(b"unused");
    let mut handles = Vec::new();

    let res = ProgramSource::Simple(b"v", b"p").compile(None, None, &mut handles);
    assert_eq!(res, Ok(ShaderStages::Simple { vertex: &b"v"[..], pixel: &b"p"[..] }));

    let res = ProgramSource::Geometry(b"v", b"g", b"p").compile(Some(&unused), None, &mut handles);
    assert_eq!(
        res,
        Ok(ShaderStages::Geometry { vertex: &b"v"[..], geometry: &b"g"[..], pixel: &b"p"[..] })
    );

    let res = ProgramSource::Tessellated(b"v", b"h", b"d", b"p").compile(None, Some(&unused), &mut handles);
    assert_eq!(
        res,
        Ok(ShaderStages::Tessellated {
            vertex: &b"v"[..],
            hull: &b"h"[..],
            domain: &b"d"[..],
            pixel: &b"p"[..],
        })
    );
    assert!(handles.is_empty());
}
