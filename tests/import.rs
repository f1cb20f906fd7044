use modelo::gltf::{
    AccessorType, AlphaMode as DocAlphaMode, BufferTarget, ComponentType, EnumConvert, Gltf,
    PrimitiveTopology, TextureFilter, TextureWrapMode,
};
use modelo::load_flags;
use modelo::math::Mat4;
use modelo::postprocess::{generate_indices, post_process, triangles, weld};
use modelo::resolve::decode_indices;
use modelo::scene::{AlphaMode, Mesh, Scene, Vertex};
use modelo::text::{is_data_uri, percent_decode};
use modelo::utils::cast_slice_to_type;
use modelo::{ImportError, ImportErrorType, Vec2, Vec3, Vec4};

fn bits(v: f64) -> u64 {
    v.to_bits()
}

fn f32_bytes(values: &[f32]) -> Vec<u8> {
    let mut out = Vec::new();
    for v in values {
        out.extend_from_slice(&v.to_le_bytes());
    }
    out
}

fn vertex(px: f32, py: f32, pz: f32) -> Vertex {
    Vertex {
        position: Vec3::new(px.to_bits(), py.to_bits(), pz.to_bits()),
        tex_coord: Vec2::new(0, 0),
        color: Vec4::new(0x3F80_0000, 0x3F80_0000, 0x3F80_0000, 0x3F80_0000),
        normal: Vec3::new(0, 0, 0),
        tangent: Vec3::new(0, 0, 0),
    }
}

fn err_type(r: &Result<Gltf, ImportError>) -> ImportErrorType {
    match r {
        Ok(_) => panic!("expected an error"),
        Err(e) => e.e_type,
    }
}

#[test]
fn unsigned_byte_indices_widen() {
    let r = decode_indices(&vec![1, 2, 255], 0, ComponentType::UnsignedByte, 3).unwrap();
    assert_eq!(r, vec![1u32, 2, 255]);
}

#[test]
fn unsigned_int_indices_pass_through() {
    let bytes = vec![1, 0, 0, 0, 0x78, 0x56, 0x34, 0x12, 0xff, 0xff, 0xff, 0xff];
    let r = decode_indices(&bytes, 0, ComponentType::UnsignedInt, 3).unwrap();
    assert_eq!(r, vec![1u32, 0x1234_5678, u32::MAX]);
}

#[test]
fn short_indices_widen_in_order() {
    let bytes = vec![9, 9, 0x34, 0x12, 0xff, 0x7f, 2, 0];
    let r = decode_indices(&bytes, 2, ComponentType::UnsignedShort, 3).unwrap();
    assert_eq!(r, vec![0x1234u32, 0x7fff, 2]);
    let r = decode_indices(&bytes, 2, ComponentType::Short, 3).unwrap();
    assert_eq!(r, vec![0x1234u32, 0x7fff, 2]);
}

#[test]
fn signed_byte_indices_widen() {
    let r = decode_indices(&vec![0, 5, 127], 0, ComponentType::Byte, 3).unwrap();
    assert_eq!(r, vec![0u32, 5, 127]);
}

#[test]
fn negative_indices_are_format_errors() {
    let r = decode_indices(&vec![0, 0xff], 0, ComponentType::Byte, 2);
    assert_eq!(r.unwrap_err().e_type, ImportErrorType::Format);
    let r = decode_indices(&vec![0, 0x80], 0, ComponentType::Short, 1);
    assert_eq!(r.unwrap_err().e_type, ImportErrorType::Format);
}

#[test]
fn float_indices_are_unsupported() {
    let r = decode_indices(&vec![0, 0, 0, 0], 0, ComponentType::Float, 1);
    assert_eq!(r.unwrap_err().e_type, ImportErrorType::Unsupported);
}

#[test]
fn index_run_past_the_buffer_is_a_format_error() {
    let r = decode_indices(&vec![0, 0, 0], 0, ComponentType::UnsignedShort, 2);
    assert_eq!(r.unwrap_err().e_type, ImportErrorType::Format);
    let r = decode_indices(&vec![0, 0, 0], 4, ComponentType::UnsignedByte, 0);
    assert_eq!(r.unwrap_err().e_type, ImportErrorType::Format);
}

fn entry(m: &Mat4, i: usize, j: usize) -> u64 {
    let row = match i {
        0 => m.row0,
        1 => m.row1,
        2 => m.row2,
        _ => m.row3,
    };
    row[j]
}

#[test]
fn identity_matrix_decodes_to_identity() {
    let m: Vec<u64> = [1.0, 0.0, 0.0, 0.0, 0.0, 1.0, 0.0, 0.0, 0.0, 0.0, 1.0, 0.0, 0.0, 0.0, 0.0, 1.0]
        .iter()
        .map(|v: &f64| v.to_bits())
        .collect();
    let r = Mat4::from_column_major(&m);
    let id = Mat4::identity();
    for i in 0..4 {
        for j in 0..4 {
            assert_eq!(entry(&r, i, j), entry(&id, i, j));
        }
    }
}

#[test]
fn column_major_matrix_is_transposed() {
    let m: Vec<u64> = [0.0, 1.0, 0.0, 0.0, -1.0, 0.0, 0.0, 0.0, 0.0, 0.0, 1.0, 0.0, 5.0, 6.0, 7.0, 1.0]
        .iter()
        .map(|v: &f64| v.to_bits())
        .collect();
    let r = Mat4::from_column_major(&m);
    assert_eq!(r.row0, [bits(0.0), bits(-1.0), bits(0.0), bits(5.0)]);
    assert_eq!(r.row1, [bits(1.0), bits(0.0), bits(0.0), bits(6.0)]);
    assert_eq!(r.row2, [bits(0.0), bits(0.0), bits(1.0), bits(7.0)]);
    assert_eq!(r.row3, [bits(0.0), bits(0.0), bits(0.0), bits(1.0)]);
}

#[test]
fn node_matrix_is_read_column_major() {
    let text = r#"{"asset":{"version":"2.0"},"nodes":[{"matrix":[0,1,0,0,-1,0,0,0,0,0,1,0,5,6,7,1]},{}]}"#;
    let g = Gltf::from_text(text).unwrap();
    let nodes = g.nodes.unwrap();
    assert_eq!(nodes[0].matrix.row0, [bits(0.0), bits(-1.0), bits(0.0), bits(5.0)]);
    assert_eq!(nodes[0].matrix.row3, [bits(0.0), bits(0.0), bits(0.0), bits(1.0)]);
    assert_eq!(nodes[1].matrix.row1, [bits(0.0), bits(1.0), bits(0.0), bits(0.0)]);
    assert_eq!(nodes[1].rotation, [bits(0.0), bits(0.0), bits(0.0), bits(1.0)]);
    assert_eq!(nodes[1].scale, [bits(1.0), bits(1.0), bits(1.0)]);
    assert_eq!(nodes[1].translation, [bits(0.0), bits(0.0), bits(0.0)]);
}

#[test]
fn missing_version_names_version() {
    let r = Gltf::from_text(r#"{"asset":{"generator":"x"}}"#);
    match r {
        Err(e) => {
            assert_eq!(e.e_type, ImportErrorType::Format);
            assert_eq!(e.message, "version");
        },
        Ok(_) => panic!("expected an error"),
    }
}

#[test]
fn missing_asset_names_asset() {
    match Gltf::from_text(r#"{"meshes":[]}"#) {
        Err(e) => assert_eq!(e.message, "asset"),
        Ok(_) => panic!("expected an error"),
    }
}

#[test]
fn minimal_document_parses() {
    let g = Gltf::from_text(r#"{"asset":{"version":"2.0"}}"#).unwrap();
    assert_eq!(g.asset.version, "2.0");
    assert!(g.asset.copyright.is_none());
    assert!(g.asset.generator.is_none());
    assert!(g.asset.min_version.is_none());
    assert!(g.accessors.is_none());
    assert!(g.meshes.is_none());
    assert!(g.scene.is_none());
    assert!(g.glb_data.is_none());
}

#[test]
fn malformed_json_is_a_parse_error() {
    assert_eq!(err_type(&Gltf::from_text("{\"asset\":")), ImportErrorType::Format);
}

#[test]
fn unknown_codes_are_format_errors() {
    let text = r#"{"asset":{"version":"2.0"},"accessors":[{"componentType":5126,"count":1,"type":"VEC3"},{"componentType":1234,"count":1,"type":"VEC3"}]}"#;
    match Gltf::from_text(text) {
        Err(e) => {
            assert_eq!(e.e_type, ImportErrorType::Format);
            assert_eq!(e.message, "componentType");
            assert_eq!(e.index, Some(1));
            assert_eq!(e.code, Some(1234));
        },
        Ok(_) => panic!("expected an error"),
    }
    let text = r#"{"asset":{"version":"2.0"},"materials":[{"alphaMode":"SOMETIMES"}]}"#;
    assert_eq!(err_type(&Gltf::from_text(text)), ImportErrorType::Format);
    let text = r#"{"asset":{"version":"2.0"},"samplers":[{"wrapS":1}]}"#;
    match Gltf::from_text(text) {
        Err(e) => {
            assert_eq!(e.e_type, ImportErrorType::Format);
            assert_eq!(e.message, "wrapS");
            assert_eq!(e.code, Some(1));
        },
        Ok(_) => panic!("expected an error"),
    }
}

#[test]
fn missing_required_fields_are_format_errors() {
    let text = r#"{"asset":{"version":"2.0"},"bufferViews":[{"buffer":0}]}"#;
    match Gltf::from_text(text) {
        Err(e) => {
            assert_eq!(e.message, "byteLength");
            assert_eq!(e.index, Some(0));
        },
        Ok(_) => panic!("expected an error"),
    }
    let text = r#"{"asset":{"version":"2.0"},"meshes":[{"primitives":[{"indices":0}]}]}"#;
    match Gltf::from_text(text) {
        Err(e) => assert_eq!(e.message, "attributes"),
        Ok(_) => panic!("expected an error"),
    }
}

#[test]
fn enum_codes_decode() {
    assert_eq!(ComponentType::from_u64(5121).unwrap(), ComponentType::UnsignedByte);
    assert_eq!(ComponentType::from_u64(5125).unwrap(), ComponentType::UnsignedInt);
    assert!(ComponentType::from_u64(5124).is_err());
    assert_eq!(BufferTarget::from_u64(34963).unwrap(), BufferTarget::ElementArrayBuffer);
    assert_eq!(PrimitiveTopology::from_u64(4).unwrap(), PrimitiveTopology::Triangles);
    assert!(PrimitiveTopology::from_u64(7).is_err());
    assert_eq!(TextureFilter::from_u64(9987).unwrap(), TextureFilter::LinearMipmapLinear);
    assert_eq!(TextureWrapMode::from_u64(33648).unwrap(), TextureWrapMode::MirroredRepeat);
    assert_eq!(TextureWrapMode::from_u64(0).unwrap_err().e_type, ImportErrorType::Format);
}

#[test]
fn defaults_follow_the_format() {
    let text = r#"{"asset":{"version":"2.0"},
        "accessors":[{"componentType":5123,"count":3,"type":"SCALAR"}],
        "buffers":[{"uri":"a.bin","byteLength":6}],
        "bufferViews":[{"buffer":0,"byteLength":6}],
        "textures":[{},{},{},{}],
        "materials":[{"normalTexture":{"index":2,"scale":0.5},"occlusionTexture":{"index":3,"strength":0.25}}],
        "meshes":[{"primitives":[{"attributes":{"POSITION":0}}]}],
        "samplers":[{}]}"#;
    let g = Gltf::from_text(text).unwrap();
    let a = &g.accessors.as_ref().unwrap()[0];
    assert_eq!(a.byte_offset, 0);
    assert!(!a.normalized);
    assert_eq!(a.a_type, AccessorType::Scalar);
    assert_eq!(g.buffer_views.as_ref().unwrap()[0].byte_offset, 0);
    let m = &g.materials.as_ref().unwrap()[0];
    assert_eq!(m.alpha_mode, DocAlphaMode::Opaque);
    assert_eq!(m.alpha_cutoff, bits(0.5));
    assert!(!m.double_sided);
    assert!(m.pbr_metallic_roughness.is_none());
    assert_eq!(m.emissive_factor, [0, 0, 0]);
    assert_eq!(m.normal_texture.unwrap().scale, Some(bits(0.5)));
    assert_eq!(m.occlusion_texture.unwrap().scale, Some(bits(0.25)));
    assert_eq!(m.occlusion_texture.unwrap().tex_coord, 0);
    let p = &g.meshes.as_ref().unwrap()[0].primitives[0];
    assert_eq!(p.mode, PrimitiveTopology::Triangles);
    let s = &g.samplers.as_ref().unwrap()[0];
    assert_eq!(s.wrap_s, TextureWrapMode::Repeat);
    assert_eq!(s.wrap_t, TextureWrapMode::Repeat);
    assert!(s.mag_filter.is_none());
}

/// A quad of two triangles sharing two vertices.
fn quad_document(extra_primitive: &str, images: &str) -> String {
    format!(
        r#"{{"asset":{{"version":"2.0"}},
        "buffers":[{{"uri":"quad%20data.bin","byteLength":92}}],
        "bufferViews":[{{"buffer":0,"byteLength":48}},{{"buffer":0,"byteOffset":48,"byteLength":32}},{{"buffer":0,"byteOffset":80,"byteLength":12}}],
        "accessors":[{{"bufferView":0,"componentType":5126,"count":4,"type":"VEC3"}},
                     {{"bufferView":1,"componentType":5126,"count":4,"type":"VEC2"}},
                     {{"bufferView":2,"componentType":5123,"count":6,"type":"SCALAR"}}],
        "materials":[{{"alphaMode":"MASK","pbrMetallicRoughness":{{"metallicFactor":0.25,"metallicRoughnessTexture":{{"index":0}}}}}}],
        "textures":[{{}}],
        "meshes":[{{"primitives":[{{"attributes":{{"POSITION":0,"TEXCOORD_0":1}},"indices":2,"material":0}}{extra_primitive}]}}]
        {images}}}"#
    )
}

fn quad_buffer() -> Vec<u8> {
    let mut b = f32_bytes(&[0.0, 0.0, 0.0, 1.0, 0.0, 0.0, 1.0, 1.0, 0.0, 0.0, 1.0, 0.0]);
    b.extend(f32_bytes(&[0.0, 0.0, 1.0, 0.0, 1.0, 1.0, 0.0, 1.0]));
    for i in [0u16, 1, 2, 0, 2, 3] {
        b.extend_from_slice(&i.to_le_bytes());
    }
    b
}

#[test]
fn quad_assembles() {
    let g = Gltf::from_text(&quad_document("", "")).unwrap();
    let paths = g.buffer_paths().unwrap();
    assert_eq!(paths, vec!["quad data.bin".to_string()]);
    let scene = g.to_scene(&vec![quad_buffer()]).unwrap();
    assert_eq!(scene.meshes.len(), 1);
    let mesh = &scene.meshes[0];
    assert_eq!(mesh.vertices.len(), 4);
    assert_eq!(mesh.vertices[2].position, Vec3::new(1.0f32.to_bits(), 1.0f32.to_bits(), 0));
    assert_eq!(mesh.vertices[3].tex_coord, Vec2::new(0, 1.0f32.to_bits()));
    assert_eq!(mesh.vertices[1].normal, Vec3::new(0, 0, 0));
    assert_eq!(mesh.vertices[0].color.w, 1.0f32.to_bits());
    assert_eq!(mesh.indices, Some(vec![0, 1, 2, 0, 2, 3]));
    assert_eq!(mesh.material, Some(0));
    let mat = &scene.materials.as_ref().unwrap()[0];
    assert_eq!(mat.alpha_mode, AlphaMode::Cutoff);
    assert_eq!(mat.metallic, bits(0.25));
    assert_eq!(mat.roughness, bits(1.0));
    assert_eq!(mat.metallic_texture, Some(0));
    assert_eq!(mat.roughness_texture, Some(0));
    assert_eq!(mat.albedo_color, [bits(1.0); 4]);
    assert!(scene.images.is_none());
}

#[test]
fn missing_position_is_a_format_error() {
    let g = Gltf::from_text(&quad_document(r#",{"attributes":{"TEXCOORD_0":1}}"#, "")).unwrap();
    let e = g.to_scene(&vec![quad_buffer()]).unwrap_err();
    assert_eq!(e.e_type, ImportErrorType::Format);
}

#[test]
fn attribute_count_mismatch_is_a_format_error() {
    let text = quad_document("", "").replace(
        r#"{"bufferView":1,"componentType":5126,"count":4,"type":"VEC2"}"#,
        r#"{"bufferView":1,"componentType":5126,"count":3,"type":"VEC2"}"#,
    );
    let g = Gltf::from_text(&text).unwrap();
    assert_eq!(g.to_scene(&vec![quad_buffer()]).unwrap_err().e_type, ImportErrorType::Format);
}

#[test]
fn interleaved_stride_is_unsupported() {
    let text = quad_document("", "").replace(
        r#"{"buffer":0,"byteLength":48}"#,
        r#"{"buffer":0,"byteLength":48,"byteStride":20}"#,
    );
    let g = Gltf::from_text(&text).unwrap();
    assert_eq!(g.to_scene(&vec![quad_buffer()]).unwrap_err().e_type, ImportErrorType::Unsupported);
}

#[test]
fn short_buffer_is_a_format_error() {
    let g = Gltf::from_text(&quad_document("", "")).unwrap();
    let mut b = quad_buffer();
    b.truncate(60);
    assert_eq!(g.to_scene(&vec![b]).unwrap_err().e_type, ImportErrorType::Format);
    assert_eq!(g.to_scene(&vec![]).unwrap_err().e_type, ImportErrorType::Format);
}

#[test]
fn index_past_last_vertex_is_a_format_error() {
    let g = Gltf::from_text(&quad_document("", "")).unwrap();
    let mut b = quad_buffer();
    let n = b.len();
    b[n - 2] = 4;
    assert_eq!(g.to_scene(&vec![b]).unwrap_err().e_type, ImportErrorType::Format);
}

#[test]
fn images_keep_decoded_paths() {
    let g = Gltf::from_text(&quad_document("", r#","images":[{"uri":"tex%20one.png"}]"#)).unwrap();
    let scene = g.to_scene(&vec![quad_buffer()]).unwrap();
    let images = scene.images.unwrap();
    assert_eq!(images[0].path.as_deref(), Some("tex one.png"));
    assert!(images[0].data.is_none());
}

#[test]
fn data_uri_image_is_unsupported() {
    let g = Gltf::from_text(&quad_document("", r#","images":[{"uri":"data:image/png;base64,AAAA"}]"#))
        .unwrap();
    assert_eq!(g.to_scene(&vec![quad_buffer()]).unwrap_err().e_type, ImportErrorType::Unsupported);
}

#[test]
fn embedded_buffer_is_unsupported() {
    let g = Gltf::from_text(r#"{"asset":{"version":"2.0"},"buffers":[{"byteLength":4}]}"#).unwrap();
    assert_eq!(g.buffer_paths().unwrap_err().e_type, ImportErrorType::Unsupported);
}

#[test]
fn percent_escapes_decode() {
    assert_eq!(percent_decode("a%20b%2Fc"), "a b/c");
    assert_eq!(percent_decode("100%"), "100%");
    assert_eq!(percent_decode("%zz%C3%A9"), "%zz%C3%A9");
    assert!(is_data_uri("data:x"));
    assert!(!is_data_uri("dat"));
}

#[test]
fn weld_collapses_identical_vertices() {
    let a = vertex(1.0, 2.0, 3.0);
    let b = vertex(4.0, 5.0, 6.0);
    let (out, ix) = weld(&vec![a, b, a, b, a]);
    assert_eq!(out, vec![a, b]);
    assert_eq!(ix, vec![0, 1, 0, 1, 0]);
}

#[test]
fn weld_keeps_vertices_one_bit_apart() {
    let a = vertex(1.0, 2.0, 3.0);
    let mut c = a;
    c.normal.z ^= 1;
    let (out, ix) = weld(&vec![a, c, a]);
    assert_eq!(out, vec![a, c]);
    assert_eq!(ix, vec![0, 1, 0]);
}

#[test]
fn indexed_meshes_are_left_alone() {
    let a = vertex(1.0, 2.0, 3.0);
    let mut scene = Scene {
        meshes: vec![
            Mesh { vertices: vec![a, a, a], indices: Some(vec![0, 1, 2]), material: Some(0) },
            Mesh { vertices: vec![a, a, a], indices: None, material: None },
        ],
        materials: None,
        images: None,
    };
    generate_indices(&mut scene);
    assert_eq!(scene.meshes[0].vertices.len(), 3);
    assert_eq!(scene.meshes[0].indices, Some(vec![0, 1, 2]));
    assert_eq!(scene.meshes[1].vertices, vec![a]);
    assert_eq!(scene.meshes[1].indices, Some(vec![0, 0, 0]));
}

#[test]
fn post_process_without_flags_changes_nothing() {
    let a = vertex(1.0, 2.0, 3.0);
    let mut scene = Scene {
        meshes: vec![Mesh { vertices: vec![a, a, a], indices: None, material: None }],
        materials: None,
        images: None,
    };
    post_process(&mut scene, load_flags::NONE);
    assert_eq!(scene.meshes[0].vertices.len(), 3);
    assert!(scene.meshes[0].indices.is_none());
    post_process(&mut scene, load_flags::GENERATE_INDICES | load_flags::GENERATE_NORMALS);
    assert_eq!(scene.meshes[0].indices, Some(vec![0, 0, 0]));
}

#[test]
fn triangles_of_unindexed_and_indexed_meshes() {
    let a = vertex(0.0, 0.0, 0.0);
    let flat = Mesh { vertices: vec![a; 7], indices: None, material: None };
    assert_eq!(triangles(&flat), vec![(0, 1, 2), (3, 4, 5)]);
    let quad = Mesh { vertices: vec![a; 4], indices: Some(vec![0, 1, 2, 0, 2, 3]), material: None };
    assert_eq!(triangles(&quad), vec![(0, 1, 2), (0, 2, 3)]);
}

#[test]
fn cast_slice_checks_every_element() {
    assert_eq!(cast_slice_to_type::<i8, u32>(&[1, 2, 127]), Some(vec![1u32, 2, 127]));
    assert_eq!(cast_slice_to_type::<i8, u32>(&[1, -1]), None);
    assert_eq!(cast_slice_to_type::<u16, u8>(&[255, 256]), None);
}

#[test]
fn import_error_new_keeps_its_parts() {
    let e = ImportError::new(ImportErrorType::FileNotFound, "missing.gltf");
    assert_eq!(e.e_type, ImportErrorType::FileNotFound);
    assert_eq!(e.message, "missing.gltf");
    assert!(e.index.is_none());
}

#[test]
fn glb_container_is_unsupported() {
    let e = Gltf::check_container(&b"glTF\x02\x00\x00\x00".to_vec()).unwrap_err();
    assert_eq!(e.e_type, ImportErrorType::Unsupported);
    assert!(Gltf::check_container(&b"{\"asset\":{}}".to_vec()).is_ok());
    assert!(Gltf::check_container(&b"glT".to_vec()).is_ok());
}

#[test]
fn validity_checks_find_stray_indices() {
    let a = vertex(0.0, 0.0, 0.0);
    let good = Mesh { vertices: vec![a; 3], indices: Some(vec![0, 1, 2]), material: None };
    let bad = Mesh { vertices: vec![a; 3], indices: Some(vec![0, 1, 3]), material: None };
    assert!(good.is_wf());
    assert!(!bad.is_wf());
    let scene = Scene { meshes: vec![good, bad], materials: None, images: None };
    assert!(!scene.is_wf());
}

fn format_error(text: &str) -> ImportError {
    match Gltf::from_text(text) {
        Err(e) => {
            assert_eq!(e.e_type, ImportErrorType::Format);
            e
        },
        Ok(_) => panic!("expected an error"),
    }
}

#[test]
fn out_of_range_references_are_format_errors() {
    let e = format_error(r#"{"asset":{"version":"2.0"},"nodes":[{},{"mesh":0}]}"#);
    assert_eq!(e.message, "mesh");
    assert_eq!(e.index, Some(1));
    let e = format_error(
        r#"{"asset":{"version":"2.0"},"accessors":[{"bufferView":0,"componentType":5126,"count":1,"type":"VEC3"}]}"#,
    );
    assert_eq!(e.message, "bufferView");
    assert_eq!(e.index, Some(0));
    let e = format_error(r#"{"asset":{"version":"2.0"},"nodes":[{"children":[0,2]},{}]}"#);
    assert_eq!(e.message, "children");
    let e = format_error(r#"{"asset":{"version":"2.0"},"scenes":[{"nodes":[]}],"scene":1}"#);
    assert_eq!(e.message, "scene");
    let e = format_error(r#"{"asset":{"version":"2.0"},"materials":[{"normalTexture":{"index":0}}]}"#);
    assert_eq!(e.message, "normalTexture");
    let e = format_error(
        r#"{"asset":{"version":"2.0"},"meshes":[{"primitives":[{"attributes":{"POSITION":0}}]}]}"#,
    );
    assert_eq!(e.message, "primitives");
    let g = Gltf::from_text(r#"{"asset":{"version":"2.0"},"nodes":[{"children":[1]},{}],"scenes":[{"nodes":[0]}],"scene":0}"#);
    assert!(g.is_ok());
}

#[test]
fn buffer_without_file_fails_assembly() {
    let text = quad_document("", "").replace(r#""uri":"quad%20data.bin","#, "");
    let g = Gltf::from_text(&text).unwrap();
    assert_eq!(g.to_scene(&vec![quad_buffer()]).unwrap_err().e_type, ImportErrorType::Unsupported);
}

#[test]
fn cast_slice_widens_bytes() {
    assert_eq!(cast_slice_to_type::<u8, u32>(&[1, 2, 255]), Some(vec![1u32, 2, 255]));
}

#[test]
fn unknown_code_carries_field_and_code() {
    let e = PrimitiveTopology::from_u64(7).unwrap_err();
    assert_eq!(e.message, "mode");
    assert_eq!(e.code, Some(7));
    let e = ComponentType::from_u64(5124).unwrap_err();
    assert_eq!(e.message, "componentType");
    assert_eq!(e.code, Some(5124));
}

#[test]
fn image_without_uri_is_unsupported() {
    let g = Gltf::from_text(&quad_document("", r#","images":[{"bufferView":0,"mimeType":"image/png"}]"#))
        .unwrap();
    assert_eq!(g.to_scene(&vec![quad_buffer()]).unwrap_err().e_type, ImportErrorType::Unsupported);
}
