use bevy_editor_pls_default_windows::{AssetKind, DropEvent, handle_drops};

fn dropped(p: &str) -> DropEvent {
    DropEvent::DroppedFile { path: p.to_string() }
}

fn spawned(events: &Vec<DropEvent>) -> Vec<(String, AssetKind)> {
    handle_drops(events).spawns.into_iter().map(|s| (s.path, s.kind)).collect()
}

#[test]
fn no_events_spawn_nothing() {
    let out = handle_drops(&vec![]);
    assert!(out.spawns.is_empty());
    assert_eq!(out.unsupported, None);
}

#[test]
fn each_supported_drop_spawns_in_order() {
    let events = vec![dropped("a/ship.glb"), dropped("b/part.STL"), dropped("c/icon.png")];
    assert_eq!(
        spawned(&events),
        vec![
            ("a/ship.glb".to_string(), AssetKind::Scene),
            ("b/part.STL".to_string(), AssetKind::Mesh),
            ("c/icon.png".to_string(), AssetKind::Sprite),
        ]
    );
    assert_eq!(handle_drops(&events).unsupported, None);
}

#[test]
fn hover_events_are_ignored() {
    let events = vec![
        DropEvent::HoveredFile { path: "x.fbx".to_string() },
        DropEvent::HoveredFileCanceled,
        dropped("y.obj"),
    ];
    let out = handle_drops(&events);
    assert_eq!(out.unsupported, None);
    assert_eq!(out.spawns.len(), 1);
    assert_eq!(out.spawns[0].path, "y.obj");
    assert_eq!(out.spawns[0].kind, AssetKind::Mesh);
}

#[test]
fn unsupported_drop_stops_the_frame() {
    let events = vec![dropped("one.gltf"), dropped("two.fbx"), dropped("three.png")];
    let out = handle_drops(&events);
    assert_eq!(out.unsupported, Some("fbx".to_string()));
    assert_eq!(out.spawns.len(), 1);
    assert_eq!(out.spawns[0].path, "one.gltf");
    assert_eq!(out.spawns[0].kind, AssetKind::Scene);
}

#[test]
fn first_unsupported_drop_is_reported() {
    let events = vec![dropped("noext"), dropped("b.zip")];
    let out = handle_drops(&events);
    assert_eq!(out.unsupported, Some("noext".to_string()));
    assert!(out.spawns.is_empty());
}

#[test]
fn reported_extension_keeps_its_case() {
    let out = handle_drops(&vec![dropped("clip.MP4")]);
    assert_eq!(out.unsupported, Some("MP4".to_string()));
}
