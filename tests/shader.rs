use rugl::{compile_report, contains_nul, decode_log, link_report, Shader, ShaderType};

#[test]
fn stage_constants_follow_the_graphics_api() {
    assert_eq!(ShaderType::VertexShader.stage_constant(), 0x8B31);
    assert_eq!(ShaderType::FragmentShader.stage_constant(), 0x8B30);
    assert_eq!(ShaderType::GeometryShader.stage_constant(), 0x8DD9);
    assert_eq!(ShaderType::TesselationControlShader.stage_constant(), 0x8E88);
    assert_eq!(ShaderType::TesselationEvaluationShader.stage_constant(), 0x8E87);
    assert_eq!(ShaderType::ComputeShader.stage_constant(), 0x91B9);
}

#[test]
fn shader_keeps_its_path_stage_and_object() {
    let sh = Shader::new(&"a/vert.glsl".to_string(), ShaderType::VertexShader, 7);
    assert_eq!(sh.path, "a/vert.glsl");
    assert_eq!(sh.kind, ShaderType::VertexShader);
    assert_eq!(sh.id, 7);
}

#[test]
fn nul_is_found_anywhere() {
    assert!(!contains_nul(&vec![]));
    assert!(!contains_nul(&b"void main() {}".to_vec()));
    assert!(contains_nul(&vec![0]));
    assert!(contains_nul(&vec![1, 2, 0]));
}

#[test]
fn log_padding_is_trimmed_on_both_sides() {
    let mut buf = vec![0u8; 1024];
    buf[3..8].copy_from_slice(b"error");
    assert_eq!(decode_log(&buf), "error");
    assert_eq!(decode_log(&vec![0u8; 1024]), "");
    assert_eq!(decode_log(&vec![]), "");
    assert_eq!(decode_log(&b"a\0b".to_vec()), "a\0b");
}

#[test]
fn log_decoding_replaces_invalid_utf8() {
    assert_eq!(decode_log(&vec![0xE2, 0x9C, 0x93, 0, 0]), "\u{2713}");
    assert_eq!(decode_log(&vec![b'x', 0xFF, 0]), "x\u{FFFD}");
}

#[test]
fn reports_have_their_fixed_shape() {
    assert_eq!(
        compile_report(&"s/v.glsl".to_string(), &"bad".to_string()),
        "Failed to compile shader s/v.glsl:\n\tbad\n"
    );
    assert_eq!(link_report(&"".to_string()), "Failed to link the program:\n\t\n");
}
