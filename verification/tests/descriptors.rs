use frame_lifecycle::shader_manager::{ShaderId, ShaderKind};
use frame_lifecycle::vertex::{VertexAttribute, VertexFormat};

#[test]
fn shader_paths() {
    assert_eq!(ShaderId::BasicVertex.path(), "shaders/basic.vert");
    assert_eq!(ShaderId::BasicFragment.path(), "shaders/basic.frag");
}

#[test]
fn compiled_paths_append_spv() {
    assert_eq!(
        ShaderId::BasicVertex.compiled_path_str(),
        "shaders/basic.vert.spv"
    );
    assert_eq!(
        ShaderId::BasicFragment.compiled_path_str(),
        "shaders/basic.frag.spv"
    );
}

#[test]
fn shader_kinds_and_enumeration() {
    assert_eq!(ShaderId::BasicVertex.kind(), ShaderKind::Vertex);
    assert_eq!(ShaderId::BasicFragment.kind(), ShaderKind::Fragment);
    assert_eq!(
        ShaderId::all(),
        vec![ShaderId::BasicVertex, ShaderId::BasicFragment]
    );
}

#[test]
fn vertex_strides() {
    assert_eq!(VertexFormat::ColorVertex2D.stride(), 20);
    assert_eq!(VertexFormat::TexturedVertex2D.stride(), 16);
    assert_eq!(VertexFormat::ModelVertex3D.stride(), 32);
}

#[test]
fn vertex_attributes_fit_stride() {
    let formats = [
        VertexFormat::ColorVertex2D,
        VertexFormat::TexturedVertex2D,
        VertexFormat::ModelVertex3D,
    ];
    for format in formats {
        let attrs = format.attributes();
        for (k, a) in attrs.iter().enumerate() {
            assert_eq!(a.location as usize, k);
            assert!(a.offset + 4 * a.components <= format.stride());
        }
    }
}

#[test]
fn color_vertex_attributes() {
    assert_eq!(
        VertexFormat::ColorVertex2D.attributes(),
        vec![
            VertexAttribute { location: 0, offset: 0, components: 2 },
            VertexAttribute { location: 1, offset: 8, components: 3 },
        ]
    );
}
