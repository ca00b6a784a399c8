use hobby::error::HobbyError;
use hobby::path::{extension, file_stem};
use hobby::renderer::pipelines::shader::{
    get_shader_sources, shader_file_names, shader_kind_for_file, shader_kind_from_extension,
    ShaderKind, ShaderSet,
};
use hobby::renderer::shaders::{decode_spirv, get_shader_file_names, ShaderSet as SpirvSet};

#[test]
fn file_extensions() {
    assert_eq!(extension("basic.vert"), Some("vert".to_string()));
    assert_eq!(extension("archive.tar.gz"), Some("gz".to_string()));
    assert_eq!(extension("noext"), None);
    assert_eq!(extension(".hidden"), None);
    assert_eq!(extension(".."), None);
    assert_eq!(extension("trailing."), Some("".to_string()));
    assert_eq!(extension(""), None);
}

#[test]
fn shader_kinds() {
    assert_eq!(shader_kind_from_extension("vert"), Some(ShaderKind::Vertex));
    assert_eq!(shader_kind_from_extension("frag"), Some(ShaderKind::Fragment));
    assert_eq!(shader_kind_from_extension("comp"), None);
    assert_eq!(shader_kind_for_file("a.frag").unwrap(), ShaderKind::Fragment);
    match shader_kind_for_file("light.comp") {
        Err(HobbyError::UnknownShaderType { shader_type, file_name }) => {
            assert_eq!(shader_type, "comp");
            assert_eq!(file_name, "light.comp");
        }
        _ => panic!("expected an unknown shader type"),
    }
}

#[test]
fn basic_shader_sources() {
    assert_eq!(shader_file_names(ShaderSet::Basic), vec!["basic.vert", "basic.frag"]);
    let sources = get_shader_sources(ShaderSet::Basic).unwrap();
    assert_eq!(sources.len(), 2);
    assert_eq!(sources[0].file_name, "basic.vert");
    assert_eq!(sources[0].kind, ShaderKind::Vertex);
    assert_eq!(sources[1].file_name, "basic.frag");
    assert_eq!(sources[1].kind, ShaderKind::Fragment);
}

#[test]
fn compiled_shader_names() {
    let (vert, frag) = get_shader_file_names(SpirvSet::Basic);
    assert_eq!(vert, "basic.vert.spv");
    assert_eq!(frag, "basic.frag.spv");
}

#[test]
fn decode_little_endian_spirv() {
    let bytes = vec![0x03, 0x02, 0x23, 0x07, 0x00, 0x00, 0x01, 0x00, 0x0d, 0x00, 0x00, 0x00];
    assert_eq!(decode_spirv(&bytes).unwrap(), vec![0x07230203, 0x00010000, 13]);
}

#[test]
fn decode_big_endian_spirv() {
    let bytes = vec![0x07, 0x23, 0x02, 0x03, 0x00, 0x01, 0x00, 0x00, 0x00, 0x00, 0x00, 0x0d];
    assert_eq!(decode_spirv(&bytes).unwrap(), vec![0x07230203, 0x00010000, 13]);
}

#[test]
fn decode_rejects_bad_spirv() {
    assert!(matches!(decode_spirv(&vec![0x03, 0x02, 0x23]), Err(HobbyError::InvalidSpirv)));
    assert!(matches!(decode_spirv(&vec![]), Err(HobbyError::InvalidSpirv)));
    assert!(matches!(decode_spirv(&vec![1, 2, 3, 4]), Err(HobbyError::InvalidSpirv)));
}

#[test]
fn file_stems() {
    assert_eq!(file_stem("basic.vert"), Some("basic".to_string()));
    assert_eq!(file_stem("archive.tar.gz"), Some("archive.tar".to_string()));
    assert_eq!(file_stem("noext"), Some("noext".to_string()));
    assert_eq!(file_stem(".hidden"), Some(".hidden".to_string()));
    assert_eq!(file_stem("trailing."), Some("trailing".to_string()));
    assert_eq!(file_stem(""), None);
    assert_eq!(file_stem("."), None);
    assert_eq!(file_stem(".."), None);
}

#[test]
fn stem_dot_extension_rebuilds_the_name() {
    for name in ["basic.frag", "archive.tar.gz", "trailing.", "a.b"] {
        let stem = file_stem(name).unwrap();
        let ext = extension(name).unwrap();
        assert_eq!(format!("{}.{}", stem, ext), name);
    }
    for name in ["noext", ".hidden"] {
        assert_eq!(extension(name), None);
        assert_eq!(file_stem(name), Some(name.to_string()));
    }
}
