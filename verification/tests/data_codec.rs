//! Buffers, container dispatch, data URIs, image sources and material
//! URIs.

use gltf_flatten::{GltfError, GltfOptions};
use gltf_flatten::data::{GltfBuffers, ImageFormat, ImageSourceDesc, ImageDataOutcome,
    is_binary_gltf, parse_data_uri, get_image_data, image_format_for_extension,
    validate_buffer_lengths};
use gltf_flatten::desc::{MaterialDesc, MaterialUrlDesc};
use gltf_flatten::material::GltfMaterial;
use gltf_flatten::math::{Vector3, Vector4};
use gltf_flatten::format::AlphaMode;

#[test]
fn buffer_and_view_slice_the_loaded_data() {
    let buffers = GltfBuffers(vec![vec![1, 2, 3, 4, 5], vec![9, 9]]);
    assert_eq!(buffers.buffer(0).unwrap(), &vec![1, 2, 3, 4, 5]);
    assert_eq!(buffers.buffer(1).unwrap(), &vec![9, 9]);
    assert!(buffers.buffer(2).is_none());
    assert_eq!(buffers.view(0, 1, 3).unwrap(), vec![2, 3, 4]);
    assert_eq!(buffers.view(0, 0, 5).unwrap(), vec![1, 2, 3, 4, 5]);
    assert!(buffers.view(0, 4, 3).is_none());
    assert!(buffers.view(5, 0, 0).is_none());
    let taken = buffers.take();
    assert_eq!(taken.len(), 2);
}

#[test]
fn buffer_length_validation() {
    let buffers = GltfBuffers(vec![vec![0; 10], vec![0; 4]]);
    assert_eq!(validate_buffer_lengths(&buffers, &vec![10, 4]), Ok(()));
    assert_eq!(validate_buffer_lengths(&buffers, &vec![10, 2]), Ok(()));
    assert_eq!(
        validate_buffer_lengths(&buffers, &vec![10, 5]),
        Err(GltfError::InvalidReference)
    );
    assert_eq!(
        validate_buffer_lengths(&buffers, &vec![1, 1, 1]),
        Err(GltfError::InvalidReference)
    );
}

#[test]
fn binary_container_magic() {
    assert!(is_binary_gltf(&b"glTF\x02\x00\x00\x00".to_vec()));
    assert!(!is_binary_gltf(&b"{\"asset\":{}}".to_vec()));
    assert!(!is_binary_gltf(&b"glT".to_vec()));
}

#[test]
fn data_uri_payload_is_decoded() {
    let uri = b"data:application/octet-stream;base64,AQID".to_vec();
    assert_eq!(parse_data_uri(&uri), Ok(vec![1, 2, 3]));
    // Round against the reference encoder.
    let encoded = base64::encode(&[7u8, 8, 9, 250]);
    let mut uri2 = b"data:application/octet-stream;base64,".to_vec();
    uri2.extend_from_slice(encoded.as_bytes());
    assert_eq!(parse_data_uri(&uri2), Ok(vec![7, 8, 9, 250]));
    // No comma, or a malformed payload, is a structural error.
    assert_eq!(parse_data_uri(&b"data:foo".to_vec()), Err(GltfError::InvalidReference));
    assert_eq!(parse_data_uri(&b"data:x;base64,!!".to_vec()), Err(GltfError::InvalidReference));
}

#[test]
fn mime_types_name_formats() {
    assert_eq!(ImageFormat::from_mime_type(&b"image/png".to_vec()), ImageFormat::Png);
    assert_eq!(ImageFormat::from_mime_type(&b"image/jpeg".to_vec()), ImageFormat::Jpeg);
}

#[test]
fn extensions_name_formats_case_insensitively() {
    assert_eq!(image_format_for_extension(&b"png".to_vec()), Ok(ImageFormat::Png));
    assert_eq!(image_format_for_extension(&b"JPG".to_vec()), Ok(ImageFormat::Jpeg));
    assert_eq!(image_format_for_extension(&b"Jpeg".to_vec()), Ok(ImageFormat::Jpeg));
    assert_eq!(image_format_for_extension(&b"bmp".to_vec()), Err(GltfError::InvalidReference));
}

#[test]
fn image_sources_resolve_in_memory_or_defer() {
    let view = ImageSourceDesc::View {
        data: vec![1, 2, 3],
        mime_type: b"image/png".to_vec(),
    };
    match get_image_data(&view).unwrap() {
        ImageDataOutcome::Loaded { data, format } => {
            assert_eq!(data, vec![1, 2, 3]);
            assert_eq!(format, ImageFormat::Png);
        },
        _ => panic!("view sources resolve in memory"),
    }
    let inline = ImageSourceDesc::Uri {
        uri: b"data:image/jpeg;base64,AQID".to_vec(),
        mime_type: None,
    };
    match get_image_data(&inline).unwrap() {
        ImageDataOutcome::Loaded { data, format } => {
            assert_eq!(data, vec![1, 2, 3]);
            assert_eq!(format, ImageFormat::Jpeg);
        },
        _ => panic!("data URIs resolve in memory"),
    }
    let file = ImageSourceDesc::Uri { uri: b"textures/wood.png".to_vec(), mime_type: None };
    match get_image_data(&file).unwrap() {
        ImageDataOutcome::NeedsFile { uri, mime_type } => {
            assert_eq!(uri, b"textures/wood.png".to_vec());
            assert!(mime_type.is_none());
        },
        _ => panic!("plain URIs defer to the file system"),
    }
    let unknown = ImageSourceDesc::View { data: vec![], mime_type: b"image/gif".to_vec() };
    assert!(get_image_data(&unknown).is_err());
}

fn material_desc(url: Option<MaterialUrlDesc>) -> MaterialDesc {
    MaterialDesc {
        index: Some(0),
        name: Some("steel".to_string()),
        url,
        base_color_factor: Vector4 {
            x: 1.0f32.to_bits(),
            y: 1.0f32.to_bits(),
            z: 1.0f32.to_bits(),
            w: 1.0f32.to_bits(),
        },
        base_color_texture: Some((2, 0)),
        metallic_factor: 1.0f32.to_bits(),
        roughness_factor: 0.5f32.to_bits(),
        metallic_roughness_texture: None,
        normal_scale: None,
        normal_texture: None,
        occlusion_strength: None,
        occlusion_texture: None,
        emissive_factor: Vector3 { x: 0, y: 0, z: 0 },
        emissive_texture: None,
        alpha_cutoff: 0.5f32.to_bits(),
        alpha_mode: AlphaMode::Opaque,
        double_sided: false,
    }
}

#[test]
fn material_uri_is_built_from_fbx_user_properties() {
    let with_url = material_desc(Some(MaterialUrlDesc {
        url_type: "eFbxString".to_string(),
        url_value: "Metals/Steel".to_string(),
    }));
    let m = GltfMaterial::from_gltf(&with_url).unwrap();
    assert_eq!(m.material_uri, "Content/Metals/Steel.hcy-material:Material");
    assert_eq!(m.roughness_factor, 0.5f32.to_bits());
    assert_eq!(m.base_color_texture, Some((2, 0)));

    let wrong_type = material_desc(Some(MaterialUrlDesc {
        url_type: "eFbxDouble".to_string(),
        url_value: "Metals/Steel".to_string(),
    }));
    assert_eq!(GltfMaterial::from_gltf(&wrong_type).unwrap().material_uri, "");

    let without = material_desc(None);
    assert_eq!(GltfMaterial::from_gltf(&without).unwrap().material_uri, "");
}

#[test]
fn options_carry_the_fallback_uv_pair() {
    let opts = GltfOptions {
        scene_index: None,
        load_animations: false,
        regenerate_tangents: true,
        generate_tex_coords: (0.5f32.to_bits(), 0.5f32.to_bits()),
        flip_v_coord: false,
    };
    assert!(opts.regenerate_tangents);
    assert_eq!(opts.generate_tex_coords.0, 0.5f32.to_bits());
}
