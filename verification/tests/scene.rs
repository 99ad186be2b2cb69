use sprite_switch::scene::{
    setup, setup_artifacting_texture, setup_clean_texture, Placement, Spawn,
};
use sprite_switch::state::AppState;
use sprite_switch::status::WindowSize;

fn window(width: &str, height: &str) -> WindowSize {
    WindowSize::new(width.to_string(), height.to_string())
}

fn scope_of(entity: &Spawn) -> Option<AppState> {
    match entity {
        Spawn::Camera => None,
        Spawn::Label { scope, .. } => *scope,
        Spawn::Sprite { scope, .. } => *scope,
    }
}

fn is_window_status(entity: &Spawn) -> bool {
    matches!(entity, Spawn::Label { window_status: true, .. })
}

fn label_height(entity: &Spawn) -> Option<i32> {
    match entity {
        Spawn::Label { at, .. } => Some(at.y),
        _ => None,
    }
}

#[test]
fn startup_scene_is_camera_hint_and_status() {
    let scene = setup(&window("1280", "720"));
    let expected = vec![
        Spawn::Camera,
        Spawn::Label {
            text: "Press space to switch sprite".to_string(),
            at: Placement { x: 0, y: 330, z: 0 },
            window_status: false,
            scope: None,
        },
        Spawn::Label {
            text: "Window size: 1280x720".to_string(),
            at: Placement { x: 0, y: 250, z: 0 },
            window_status: true,
            scope: None,
        },
    ];
    assert_eq!(scene, expected);
}

#[test]
fn startup_status_follows_the_window() {
    let scene = setup(&window("640.5", "480"));
    assert_eq!(scene.len(), 3);
    match &scene[2] {
        Spawn::Label { text, .. } => assert_eq!(text, "Window size: 640.5x480"),
        other => panic!("expected a label, found {:?}", other),
    }
}

#[test]
fn artifacting_scene_is_caption_and_sprite() {
    let expected = vec![
        Spawn::Label {
            text: "Sprite dimension: 480x270".to_string(),
            at: Placement { x: 0, y: 200, z: 0 },
            window_status: false,
            scope: Some(AppState::Artifacting),
        },
        Spawn::Sprite {
            image: "grid_480x270.png".to_string(),
            scope: Some(AppState::Artifacting),
        },
    ];
    assert_eq!(setup_artifacting_texture(), expected);
}

#[test]
fn clean_scene_is_caption_and_sprite() {
    let expected = vec![
        Spawn::Label {
            text: "Sprite dimension: 512x256".to_string(),
            at: Placement { x: 0, y: 200, z: 0 },
            window_status: false,
            scope: Some(AppState::Clean),
        },
        Spawn::Sprite { image: "grid_512x256.png".to_string(), scope: Some(AppState::Clean) },
    ];
    assert_eq!(setup_clean_texture(), expected);
}

#[test]
fn startup_scene_outlives_every_state() {
    let scene = setup(&window("1", "1"));
    assert!(scene.iter().all(|entity| scope_of(entity).is_none()));
}

#[test]
fn state_scenes_are_bound_to_their_state() {
    assert!(setup_artifacting_texture()
        .iter()
        .all(|entity| scope_of(entity) == Some(AppState::Artifacting)));
    assert!(setup_clean_texture().iter().all(|entity| scope_of(entity) == Some(AppState::Clean)));
}

#[test]
fn exactly_one_window_status_is_on_screen() {
    for state_scene in [setup_artifacting_texture(), setup_clean_texture()] {
        let mut visible = setup(&window("1280", "720"));
        visible.extend(state_scene);
        let marked: Vec<usize> =
            (0..visible.len()).filter(|&i| is_window_status(&visible[i])).collect();
        assert_eq!(marked, vec![2]);
    }
}

#[test]
fn labels_on_screen_do_not_overlap() {
    for state_scene in [setup_artifacting_texture(), setup_clean_texture()] {
        let mut visible = setup(&window("1280", "720"));
        visible.extend(state_scene);
        let heights: Vec<i32> = visible.iter().filter_map(label_height).collect();
        assert_eq!(heights, vec![330, 250, 200]);
    }
}

#[test]
fn the_two_states_look_different() {
    let a = setup_artifacting_texture();
    let c = setup_clean_texture();
    assert_eq!(a.len(), c.len());
    for i in 0..a.len() {
        assert_ne!(a[i], c[i]);
    }
}
