use kinc::g4::ShaderType;
use kinc::krafix::{compiled_blob, CompileError, ShaderKind, OUTPUT_CAPACITY, SHADER_VERSION};

#[test]
fn shader_kinds_are_read_from_their_names() {
    assert_eq!(ShaderKind::parse("vertex"), Some(ShaderKind::Vertex));
    assert_eq!(ShaderKind::parse("fragment"), Some(ShaderKind::Fragment));
}

#[test]
fn other_names_are_no_shader_kind() {
    for name in ["", "Vertex", "vert", "frag", "geometry", "vertex ", "fragments", "compute"] {
        assert_eq!(ShaderKind::parse(name), None, "{:?}", name);
    }
}

#[test]
fn shader_kinds_have_short_names_for_the_compiler() {
    assert_eq!(ShaderKind::Vertex.stage_name(), "vert");
    assert_eq!(ShaderKind::Fragment.stage_name(), "frag");
}

#[test]
fn shader_kinds_have_a_stage() {
    assert_eq!(ShaderKind::Vertex.shader_type(), ShaderType::Vertex);
    assert_eq!(ShaderKind::Fragment.shader_type(), ShaderType::Fragment);
}

#[test]
fn compiler_constants() {
    assert_eq!(SHADER_VERSION, 300);
    assert_eq!(OUTPUT_CAPACITY, 1_048_576);
}

#[test]
fn a_blob_is_the_reported_prefix_of_the_output() {
    let output = [1u8, 2, 3, 4, 5];
    assert_eq!(compiled_blob(&output, 0, 3), Ok(vec![1, 2, 3]));
    assert_eq!(compiled_blob(&output, 0, 5), Ok(vec![1, 2, 3, 4, 5]));
    assert_eq!(compiled_blob(&output, 0, 0), Ok(vec![]));
    assert_eq!(compiled_blob(&[], 0, 0), Ok(vec![]));
}

#[test]
fn a_failure_status_gives_no_blob() {
    let output = [1u8, 2, 3];
    assert_eq!(compiled_blob(&output, 1, 3), Err(CompileError::Failed { status: 1 }));
    assert_eq!(compiled_blob(&output, -1, 3), Err(CompileError::Failed { status: -1 }));
    assert_eq!(compiled_blob(&output, 2, 99), Err(CompileError::Failed { status: 2 }));
}

#[test]
fn a_length_outside_the_output_gives_no_blob() {
    let output = [1u8, 2, 3];
    assert_eq!(compiled_blob(&output, 0, 4), Err(CompileError::BadLength { length: 4 }));
    assert_eq!(compiled_blob(&output, 0, -1), Err(CompileError::BadLength { length: -1 }));
    assert_eq!(
        compiled_blob(&output, 0, i32::MAX),
        Err(CompileError::BadLength { length: i32::MAX })
    );
}
