//! The global game flow: the single game-state value, the one-shot scene
//! setup/cleanup requests, and the transitions the menu and pause inputs
//! drive. State transitions are what queue the freeze and unfreeze of the
//! physics simulation.

use vstd::prelude::*;

use crate::movement::InputState;
use crate::physics::{pause_physics, unpause_physics, FreezePhysicsEvent, UnfreezePhysicsEvent};

verus! {

/// The single global game state.
#[derive(Clone, Copy, Debug, PartialEq, Eq, Hash, Structural)]
pub enum GameState {
    MainMenu,
    InGame,
    Pause,
}

/// One-shot request to set the scene up (load the map, spawn the player).
#[derive(Clone, Copy, Debug, PartialEq, Eq, Structural)]
pub struct SetupSceneEvent;

/// One-shot request to tear the scene down.
#[derive(Clone, Copy, Debug, PartialEq, Eq, Structural)]
pub struct CleanupSceneEvent;

/// The currently loaded map level, by the entity that owns it.
#[derive(Clone, Copy, Debug, PartialEq, Eq, Structural)]
pub struct MapLevel {
    pub entity: Option<u64>,
}

impl MapLevel {
    /// No level loaded.
    pub fn default() -> (m: MapLevel)
        ensures
            m.entity.is_none(),
    {
        MapLevel { entity: None }
    }
}

/// The top-level orchestrator state threaded through the transitions: the
/// game state, the pending one-shot scene requests, and whether quitting the
/// program was requested.
#[derive(Clone, Copy, Debug, PartialEq, Eq, Structural)]
pub struct GameFlow {
    pub state: GameState,
    pub setup_scene: Option<SetupSceneEvent>,
    pub cleanup_scene: Option<CleanupSceneEvent>,
    pub exit_requested: bool,
}

impl GameFlow {
    /// A fresh program start: in the main menu, nothing pending.
    pub fn new() -> (flow: GameFlow)
        ensures
            flow == (GameFlow {
                state: GameState::MainMenu,
                setup_scene: None,
                cleanup_scene: None,
                exit_requested: false,
            }),
    {
        GameFlow {
            state: GameState::MainMenu,
            setup_scene: None,
            cleanup_scene: None,
            exit_requested: false,
        }
    }
}

/// Drain the scene-setup slot: reports whether a request was pending and
/// clears it, so one request is observed exactly once.
pub fn setup_requested(ev_setup: &mut Option<SetupSceneEvent>) -> (requested: bool)
    ensures
        requested == old(ev_setup).is_some(),
        final(ev_setup).is_none(),
{
    let requested = ev_setup.is_some();
    *ev_setup = None;
    requested
}

/// Drain the scene-cleanup slot.
pub fn cleanup_requested(ev_cleanup: &mut Option<CleanupSceneEvent>) -> (requested: bool)
    ensures
        requested == old(ev_cleanup).is_some(),
        final(ev_cleanup).is_none(),
{
    let requested = ev_cleanup.is_some();
    *ev_cleanup = None;
    requested
}

/// Start a play session from the menu: enter the in-game state and queue a
/// scene setup.
pub fn start_game(flow: &mut GameFlow)
    ensures
        *final(flow) == (GameFlow {
            state: GameState::InGame,
            setup_scene: Some(SetupSceneEvent),
            ..*old(flow)
        }),
{
    flow.state = GameState::InGame;
    flow.setup_scene = Some(SetupSceneEvent);
}

/// Pause the session: enter the pause state and queue a physics freeze.
pub fn pause_game(flow: &mut GameFlow, ev_freeze: &mut Option<FreezePhysicsEvent>)
    ensures
        *final(flow) == (GameFlow { state: GameState::Pause, ..*old(flow) }),
        *final(ev_freeze) == Some(FreezePhysicsEvent),
{
    flow.state = GameState::Pause;
    pause_physics(ev_freeze);
}

/// Resume the paused session: re-enter the in-game state and queue a
/// physics unfreeze.
pub fn resume_game(flow: &mut GameFlow, ev_unfreeze: &mut Option<UnfreezePhysicsEvent>)
    ensures
        *final(flow) == (GameFlow { state: GameState::InGame, ..*old(flow) }),
        *final(ev_unfreeze) == Some(UnfreezePhysicsEvent),
{
    flow.state = GameState::InGame;
    unpause_physics(ev_unfreeze);
}

/// Leave the session for the main menu and queue a scene cleanup.
pub fn quit_to_main_menu(flow: &mut GameFlow)
    ensures
        *final(flow) == (GameFlow {
            state: GameState::MainMenu,
            cleanup_scene: Some(CleanupSceneEvent),
            ..*old(flow)
        }),
{
    flow.state = GameState::MainMenu;
    flow.cleanup_scene = Some(CleanupSceneEvent);
}

/// Ask the program to exit.
pub fn quit_game(flow: &mut GameFlow)
    ensures
        *final(flow) == (GameFlow { exit_requested: true, ..*old(flow) }),
{
    flow.exit_requested = true;
}

/// While in game, a just-pressed pause key pauses the session; anything
/// else changes nothing.
pub fn handle_pause_game_input(
    kb: &InputState,
    flow: &mut GameFlow,
    ev_freeze: &mut Option<FreezePhysicsEvent>,
)
    ensures
        kb.pause_just_pressed && old(flow).state == GameState::InGame ==> {
            &&& *final(flow) == (GameFlow { state: GameState::Pause, ..*old(flow) })
            &&& *final(ev_freeze) == Some(FreezePhysicsEvent)
        },
        !(kb.pause_just_pressed && old(flow).state == GameState::InGame) ==> {
            &&& *final(flow) == *old(flow)
            &&& *final(ev_freeze) == *old(ev_freeze)
        },
{
    if kb.pause_just_pressed && matches!(flow.state, GameState::InGame) {
        pause_game(flow, ev_freeze);
    }
}

/// While paused, a just-pressed pause key resumes the session; anything
/// else changes nothing.
pub fn handle_resume_game_input(
    kb: &InputState,
    flow: &mut GameFlow,
    ev_unfreeze: &mut Option<UnfreezePhysicsEvent>,
)
    ensures
        kb.pause_just_pressed && old(flow).state == GameState::Pause ==> {
            &&& *final(flow) == (GameFlow { state: GameState::InGame, ..*old(flow) })
            &&& *final(ev_unfreeze) == Some(UnfreezePhysicsEvent)
        },
        !(kb.pause_just_pressed && old(flow).state == GameState::Pause) ==> {
            &&& *final(flow) == *old(flow)
            &&& *final(ev_unfreeze) == *old(ev_unfreeze)
        },
{
    if kb.pause_just_pressed && matches!(flow.state, GameState::Pause) {
        resume_game(flow, ev_unfreeze);
    }
}

} // verus!
