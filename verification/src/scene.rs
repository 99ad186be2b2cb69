//! What the viewer puts on screen: at startup, and on entering each state.
//!
//! A scene is a list of entities for the host to spawn, in order. An entity
//! scoped to a state lives only while that state is in force; one without a
//! scope lives as long as the viewer runs.

use crate::state::AppState;
use crate::status::{window_status, window_status_text, WindowSize, WindowSizeView};
use vstd::prelude::*;
use vstd::string::*;

verus! {

/// Where an entity stands, in whole world units from the centre of the view.
#[derive(Clone, Copy, Debug, PartialEq, Eq, Hash, Structural)]
pub struct Placement {
    pub x: i32,
    pub y: i32,
    pub z: i32,
}

/// One entity for the host to spawn.
#[derive(Clone, Debug, PartialEq, Eq)]
pub enum Spawn {
    /// The two-dimensional camera.
    Camera,
    /// A line of text.
    Label {
        /// What it says.
        text: String,
        /// Where it stands.
        at: Placement,
        /// Whether this is the label that follows the window's size.
        window_status: bool,
        /// The state it lives in, if it is bound to one.
        scope: Option<AppState>,
    },
    /// An image, drawn at the centre of the view.
    Sprite {
        /// The asset path of the image.
        image: String,
        /// The state it lives in, if it is bound to one.
        scope: Option<AppState>,
    },
}

/// The mathematical content of a [`Spawn`].
pub enum SpawnView {
    Camera,
    Label { text: Seq<char>, at: Placement, window_status: bool, scope: Option<AppState> },
    Sprite { image: Seq<char>, scope: Option<AppState> },
}

impl View for Spawn {
    type V = SpawnView;

    open spec fn view(&self) -> SpawnView {
        match *self {
            Spawn::Camera => SpawnView::Camera,
            Spawn::Label { text, at, window_status, scope } => SpawnView::Label {
                text: text@,
                at,
                window_status,
                scope,
            },
            Spawn::Sprite { image, scope } => SpawnView::Sprite { image: image@, scope },
        }
    }
}

impl SpawnView {
    /// The state an entity is bound to; `None` for the camera and for
    /// whatever else outlives every state.
    pub open spec fn scope(self) -> Option<AppState> {
        match self {
            SpawnView::Camera => None,
            SpawnView::Label { scope, .. } => scope,
            SpawnView::Sprite { scope, .. } => scope,
        }
    }

    /// Whether the entity is the label that follows the window's size.
    pub open spec fn is_window_status(self) -> bool {
        self matches SpawnView::Label { window_status, .. } && window_status
    }
}

/// Whether a planned scene is the given one: as many entities, and each with
/// the content of the one in its place.
pub open spec fn depicts(scene: Seq<Spawn>, content: Seq<SpawnView>) -> bool {
    &&& scene.len() == content.len()
    &&& forall|i: int| 0 <= i < scene.len() ==> (#[trigger] scene[i])@ == content[i]
}

/// Where the hint stands.
pub open spec fn hint_placement() -> Placement {
    Placement { x: 0, y: 330, z: 0 }
}

/// Where the window-size label stands.
pub open spec fn status_placement() -> Placement {
    Placement { x: 0, y: 250, z: 0 }
}

/// Where the sprite's caption stands.
pub open spec fn caption_placement() -> Placement {
    Placement { x: 0, y: 200, z: 0 }
}

/// The hint shown for as long as the viewer runs.
pub open spec fn hint_text() -> Seq<char> {
    "Press space to switch sprite"@
}

/// The caption under which a state shows its sprite.
pub open spec fn caption_text(state: AppState) -> Seq<char> {
    match state {
        AppState::Artifacting => "Sprite dimension: 480x270"@,
        AppState::Clean => "Sprite dimension: 512x256"@,
    }
}

/// The asset path of a state's sprite.
pub open spec fn image_path(state: AppState) -> Seq<char> {
    match state {
        AppState::Artifacting => "grid_480x270.png"@,
        AppState::Clean => "grid_512x256.png"@,
    }
}

/// The scene spawned once, at startup, for a window of the given size: the
/// camera, the hint, and the window-size label.
pub open spec fn startup_scene(window: WindowSizeView) -> Seq<SpawnView> {
    seq![
        SpawnView::Camera,
        SpawnView::Label {
            text: hint_text(),
            at: hint_placement(),
            window_status: false,
            scope: None,
        },
        SpawnView::Label {
            text: window_status(window),
            at: status_placement(),
            window_status: true,
            scope: None,
        },
    ]
}

/// The scene spawned on entering a state: its caption, then its sprite, both
/// bound to the state.
pub open spec fn state_scene(state: AppState) -> Seq<SpawnView> {
    seq![
        SpawnView::Label {
            text: caption_text(state),
            at: caption_placement(),
            window_status: false,
            scope: Some(state),
        },
        SpawnView::Sprite { image: image_path(state), scope: Some(state) },
    ]
}

/// Everything on screen while a state is in force: the startup scene, then
/// the state's own.
pub open spec fn visible_scene(window: WindowSizeView, state: AppState) -> Seq<SpawnView> {
    startup_scene(window) + state_scene(state)
}

/// Plans the startup scene for a window of the given size.
pub fn setup(window: &WindowSize) -> (scene: Vec<Spawn>)
    ensures
        depicts(scene@, startup_scene(window@)),
{
    let mut scene: Vec<Spawn> = Vec::new();
    scene.push(Spawn::Camera);
    scene.push(
        Spawn::Label {
            text: String::from_str("Press space to switch sprite"),
            at: Placement { x: 0, y: 330, z: 0 },
            window_status: false,
            scope: None,
        },
    );
    scene.push(
        Spawn::Label {
            text: window_status_text(window),
            at: Placement { x: 0, y: 250, z: 0 },
            window_status: true,
            scope: None,
        },
    );
    scene
}

/// Plans the scene of a state, from its caption and the path of its image.
fn texture_scene(state: AppState, caption: &str, image: &str) -> (scene: Vec<Spawn>)
    requires
        caption@ == caption_text(state),
        image@ == image_path(state),
    ensures
        depicts(scene@, state_scene(state)),
{
    let mut scene: Vec<Spawn> = Vec::new();
    scene.push(
        Spawn::Label {
            text: String::from_str(caption),
            at: Placement { x: 0, y: 200, z: 0 },
            window_status: false,
            scope: Some(state),
        },
    );
    scene.push(Spawn::Sprite { image: String::from_str(image), scope: Some(state) });
    scene
}

/// Plans the scene spawned on entering [`AppState::Artifacting`].
pub fn setup_artifacting_texture() -> (scene: Vec<Spawn>)
    ensures
        depicts(scene@, state_scene(AppState::Artifacting)),
{
    texture_scene(AppState::Artifacting, "Sprite dimension: 480x270", "grid_480x270.png")
}

/// Plans the scene spawned on entering [`AppState::Clean`].
pub fn setup_clean_texture() -> (scene: Vec<Spawn>)
    ensures
        depicts(scene@, state_scene(AppState::Clean)),
{
    texture_scene(AppState::Clean, "Sprite dimension: 512x256", "grid_512x256.png")
}

/// Nothing of the startup scene is bound to a state, so all of it outlives
/// every state change; and exactly one of its entities, the last, is the
/// window-size label.
pub proof fn lemma_startup_scene_persists(window: WindowSizeView)
    ensures
        forall|i: int|
            0 <= i < startup_scene(window).len() ==> (#[trigger] startup_scene(window)[i]).scope()
                is None,
        forall|i: int|
            0 <= i < startup_scene(window).len() ==> ((#[trigger] startup_scene(
                window,
            )[i]).is_window_status() <==> i == 2),
{
}

/// Every entity of a state's scene is bound to that state, so none of it is
/// left once the state is exited; and none is the window-size label.
pub proof fn lemma_state_scene_is_scoped(state: AppState)
    ensures
        forall|i: int|
            0 <= i < state_scene(state).len() ==> (#[trigger] state_scene(state)[i]).scope()
                == Some(state),
        forall|i: int|
            0 <= i < state_scene(state).len() ==> !(#[trigger] state_scene(
                state,
            )[i]).is_window_status(),
{
}

/// In every state exactly one window-size label is on screen.
pub proof fn lemma_one_window_status(window: WindowSizeView, state: AppState)
    ensures
        forall|i: int|
            0 <= i < visible_scene(window, state).len() ==> ((#[trigger] visible_scene(
                window,
                state,
            )[i]).is_window_status() <==> i == 2),
{
}

/// The labels on screen at one time all stand at different heights.
pub proof fn lemma_labels_do_not_overlap(window: WindowSizeView, state: AppState, i: int, j: int)
    requires
        0 <= i < j < visible_scene(window, state).len(),
        visible_scene(window, state)[i] is Label,
        visible_scene(window, state)[j] is Label,
    ensures
        visible_scene(window, state)[i]->at.y != visible_scene(window, state)[j]->at.y,
{
}

/// The two states show different images under different captions.
pub proof fn lemma_states_look_different(state: AppState)
    ensures
        image_path(state) != image_path(state.spec_toggled()),
        caption_text(state) != caption_text(state.spec_toggled()),
{
    reveal_strlit("grid_480x270.png");
    reveal_strlit("grid_512x256.png");
    reveal_strlit("Sprite dimension: 480x270");
    reveal_strlit("Sprite dimension: 512x256");
    assert("grid_480x270.png"@[5] != "grid_512x256.png"@[5]);
    assert("Sprite dimension: 480x270"@[18] != "Sprite dimension: 512x256"@[18]);
}

} // verus!
