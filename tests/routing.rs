use bevy_editor_pls_default_windows::{AssetKind, extension_of, route_extension, route_path};

#[test]
fn extension_is_text_after_last_dot() {
    assert_eq!(extension_of("models/ship.v2.glb"), "glb");
    assert_eq!(extension_of("/tmp/a.b/c.PNG"), "PNG");
}

#[test]
fn extension_of_path_without_dot_is_whole_path() {
    assert_eq!(extension_of("README"), "README");
    assert_eq!(extension_of(""), "");
}

#[test]
fn extension_of_trailing_dot_is_empty() {
    assert_eq!(extension_of("file."), "");
}

#[test]
fn extension_keeps_non_ascii_text() {
    assert_eq!(extension_of("模型/飞船.gltf"), "gltf");
    assert_eq!(extension_of("图.纹理"), "纹理");
}

#[test]
fn scene_extensions() {
    assert_eq!(route_extension("glb"), Some(AssetKind::Scene));
    assert_eq!(route_extension("gltf"), Some(AssetKind::Scene));
}

#[test]
fn mesh_extensions() {
    assert_eq!(route_extension("stl"), Some(AssetKind::Mesh));
    assert_eq!(route_extension("obj"), Some(AssetKind::Mesh));
}

#[test]
fn sprite_extensions() {
    for ext in [
        "svg", "png", "jpg", "jpeg", "bmp", "gif", "tga", "hdr", "pic", "psd", "tiff", "webp",
        "ico",
    ] {
        assert_eq!(route_extension(ext), Some(AssetKind::Sprite), "{}", ext);
    }
}

#[test]
fn routing_ignores_ascii_case() {
    assert_eq!(route_extension("GLB"), Some(AssetKind::Scene));
    assert_eq!(route_extension("Obj"), Some(AssetKind::Mesh));
    assert_eq!(route_extension("JpEg"), Some(AssetKind::Sprite));
}

#[test]
fn unknown_extensions_are_unsupported() {
    assert_eq!(route_extension(""), None);
    assert_eq!(route_extension("fbx"), None);
    assert_eq!(route_extension("ktx"), None);
    assert_eq!(route_extension("pngg"), None);
    assert_eq!(route_extension("pn"), None);
    assert_eq!(route_extension(" png"), None);
}

#[test]
fn route_path_uses_last_extension() {
    assert_eq!(route_path("scenes/level.gltf"), Some(AssetKind::Scene));
    assert_eq!(route_path("textures/wall.png.stl"), Some(AssetKind::Mesh));
    assert_eq!(route_path("textures/wall.PNG"), Some(AssetKind::Sprite));
    assert_eq!(route_path("archive.png.zip"), None);
    assert_eq!(route_path("png"), Some(AssetKind::Sprite));
    assert_eq!(route_path("notes"), None);
}
