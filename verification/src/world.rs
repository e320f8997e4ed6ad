//! The world: the entities (player, camera, menu presentation) as explicitly
//! tagged slots, the enter/exit side effects of state transitions, and the
//! tick driver — an explicit ordered pipeline in place of ambient scheduler
//! registration, gated on the game-flow state.

use vstd::prelude::*;
use crate::config::GameConfig;
use crate::game_flow::{
    ButtonVisual,
    GameState,
    Interaction,
    button_visual_spec,
    handle_start_button,
    loading_next,
    loading_next_spec,
    start_requested_spec,
};
use crate::player::{
    AnimationTimer,
    Player,
    PlayerSheet,
    Position,
    Velocity,
    anim_stepped,
    clamp_dt_spec,
    clamp_i,
    pos_in_bounds,
    pos_stepped,
    timer_wf,
    vel_bounded,
    vel_stepped,
    animate_player,
    move_camera,
    move_player,
};

verus! {

/// The player entity's components: the `Player` tag, position, velocity,
/// animation timer and the current sprite frame.
#[derive(Clone, Copy, PartialEq, Eq, Structural, Debug)]
pub struct PlayerEntity {
    pub tag: Player,
    pub pos: Position,
    pub vel: Velocity,
    pub timer: AnimationTimer,
    pub frame: usize,
}

/// The external signals one tick consumes: the directional-key snapshot, the
/// start-control interaction, and the asset-readiness signal.
#[derive(Clone, Copy, PartialEq, Eq, Structural, Debug)]
pub struct TickInput {
    pub left: bool,
    pub right: bool,
    pub button: Interaction,
    pub assets_loaded: bool,
}

/// The whole simulation state: configuration, sprite-sheet descriptor, the
/// game-flow state, and the entities as tagged slots — a slot's `alive` flag
/// plays the role of the entity's marker component.
#[derive(Clone, Copy, PartialEq, Eq, Structural, Debug)]
pub struct GameWorld {
    pub config: GameConfig,
    pub sheet: PlayerSheet,
    pub state: GameState,
    /// Whether the player entity exists; set on entering `Playing`.
    pub player_alive: bool,
    pub player: PlayerEntity,
    /// Whether the menu presentation exists; set while in `MainMenu`.
    pub menu_alive: bool,
    pub button_visual: ButtonVisual,
    pub camera: Position,
}

/// The player entity as it is spawned on entering `Playing`: at the fixed
/// spawn point, at rest, with a fresh timer and frame zero.
pub open spec fn spawned_player(c: GameConfig, p: PlayerEntity) -> bool {
    &&& p.pos.x == 0 && p.pos.y == c.y_min()
    &&& p.vel.x == 0 && p.vel.y == 0
    &&& p.timer.period_ms == c.anim_period_ms && p.timer.elapsed_ms == 0
    &&& p.frame == 0
}

impl GameWorld {
    /// How many player entities exist.
    pub open spec fn player_count(self) -> nat {
        if self.player_alive {
            1
        } else {
            0
        }
    }

    /// The live player's components are valid for this configuration.
    pub open spec fn player_wf(self) -> bool {
        &&& pos_in_bounds(self.config, self.player.pos)
        &&& vel_bounded(self.config, self.player.vel)
        &&& self.player.vel.y == 0
        &&& timer_wf(self.player.timer)
        &&& self.player.timer.period_ms == self.config.anim_period_ms
        &&& self.player.frame < self.sheet.frame_count
    }

    /// The world invariant: the configuration and sheet are valid, exactly
    /// one player entity exists while Playing and none otherwise, the menu
    /// presentation exists exactly while in the menu, the live player's
    /// components are valid, and the camera never shows area outside the
    /// level.
    pub open spec fn wf(self) -> bool {
        &&& self.config.wf()
        &&& 1 <= self.sheet.frame_count
        &&& (self.state == GameState::Playing) <==> self.player_alive
        &&& (self.state == GameState::MainMenu) <==> self.menu_alive
        &&& self.player_alive ==> self.player_wf()
        &&& 0 <= self.camera.x <= self.config.cam_max()
    }

    /// A fresh world at startup: in `Loading`, with no entities but the
    /// camera at the level's start.
    pub fn new(config: GameConfig, sheet: PlayerSheet) -> (w: GameWorld)
        requires
            config.wf(),
            1 <= sheet.frame_count,
        ensures
            w.wf(),
            w.config == config,
            w.sheet == sheet,
            w.state == GameState::Loading,
            !w.player_alive,
            !w.menu_alive,
            w.camera == (Position { x: 0, y: 0 }),
    {
        let spawn_y: i64 = 3 * config.half_tile - config.half_win_h;
        GameWorld {
            config,
            sheet,
            state: GameState::Loading,
            player_alive: false,
            player: PlayerEntity {
                tag: Player,
                pos: Position { x: 0, y: spawn_y },
                vel: Velocity { x: 0, y: 0 },
                timer: AnimationTimer { period_ms: config.anim_period_ms, elapsed_ms: 0 },
                frame: 0,
            },
            menu_alive: false,
            button_visual: ButtonVisual::Normal,
            camera: Position { x: 0, y: 0 },
        }
    }

    /// Enter side effect of `Playing`: spawn exactly one player entity at
    /// the fixed spawn point with zero velocity, a fresh animation timer
    /// and frame index zero. Everything else is left untouched.
    pub fn spawn_player(&mut self)
        requires
            old(self).config.wf(),
            1 <= old(self).sheet.frame_count,
        ensures
            final(self).player_alive,
            final(self).player_count() == 1,
            spawned_player(final(self).config, final(self).player),
            final(self).player_wf(),
            *final(self) == (GameWorld {
                player_alive: true,
                player: final(self).player,
                ..*old(self)
            }),
    {
        let spawn_y: i64 = 3 * self.config.half_tile - self.config.half_win_h;
        self.player = PlayerEntity {
            tag: Player,
            pos: Position { x: 0, y: spawn_y },
            vel: Velocity { x: 0, y: 0 },
            timer: AnimationTimer { period_ms: self.config.anim_period_ms, elapsed_ms: 0 },
            frame: 0,
        };
        self.player_alive = true;
    }

    /// Enter side effect of `MainMenu`: the menu presentation comes into
    /// being, its start control showing the normal image.
    pub fn setup_menu(&mut self)
        ensures
            *final(self) == (GameWorld {
                menu_alive: true,
                button_visual: ButtonVisual::Normal,
                ..*old(self)
            }),
    {
        self.menu_alive = true;
        self.button_visual = ButtonVisual::Normal;
    }

    /// Enter side effect of `Playing`: every menu presentation entity is
    /// despawned.
    pub fn despawn_menu(&mut self)
        ensures
            *final(self) == (GameWorld { menu_alive: false, ..*old(self) }),
    {
        self.menu_alive = false;
    }
}

/// The player plugin: the systems it contributes to the pipeline, run with
/// the ordering its registration declared.
pub struct PlayerPlugin;

impl PlayerPlugin {
    /// The per-tick player systems, gated on `Playing`: the movement
    /// controller runs first, then the animation driver (reading the
    /// updated velocity) and the camera tracker (reading the updated
    /// position), both strictly after it.
    pub fn run_tick(w: &mut GameWorld, dt_ms: i64, left: bool, right: bool)
        requires
            old(w).wf(),
            old(w).state == GameState::Playing,
        ensures
            final(w).wf(),
            final(w).state == GameState::Playing,
            final(w).player_alive,
            final(w).config == old(w).config,
            final(w).sheet == old(w).sheet,
            final(w).menu_alive == old(w).menu_alive,
            final(w).button_visual == old(w).button_visual,
            vel_stepped(
                old(w).config,
                clamp_dt_spec(dt_ms as int),
                left,
                right,
                old(w).player.vel,
                final(w).player.vel,
            ),
            pos_stepped(
                old(w).config,
                clamp_dt_spec(dt_ms as int),
                final(w).player.vel,
                old(w).player.pos,
                final(w).player.pos,
            ),
            anim_stepped(
                old(w).sheet.frame_count as int,
                clamp_dt_spec(dt_ms as int),
                final(w).player.vel,
                old(w).player.timer,
                final(w).player.timer,
                old(w).player.frame as int,
                final(w).player.frame as int,
            ),
            final(w).camera.x as int == clamp_i(
                final(w).player.pos.x as int,
                0,
                old(w).config.cam_max(),
            ),
            final(w).camera.y == old(w).camera.y,
    {
        move_player(
            &w.config,
            dt_ms,
            left,
            right,
            &mut w.player.pos,
            &mut w.player.vel,
        );
        animate_player(
            w.sheet.frame_count,
            dt_ms,
            &w.player.vel,
            &mut w.player.timer,
            &mut w.player.frame,
        );
        move_camera(&w.config, &w.player.pos, &mut w.camera);
    }
}

/// The main-menu plugin: the start-control system and the transition's
/// enter side effects.
pub struct MainMenuPlugin;

impl MainMenuPlugin {
    /// The per-tick menu system, gated on `MainMenu`: react to the start
    /// control. A click triggers the transition to `Playing`, whose enter
    /// side effects run at once: the menu presentation is despawned and the
    /// player entity is spawned. Otherwise the control's image follows the
    /// interaction and the state is unchanged.
    pub fn run_tick(w: &mut GameWorld, button: Interaction)
        requires
            old(w).wf(),
            old(w).state == GameState::MainMenu,
        ensures
            final(w).wf(),
            final(w).config == old(w).config,
            final(w).sheet == old(w).sheet,
            final(w).camera == old(w).camera,
            start_requested_spec(button) ==> {
                &&& final(w).state == GameState::Playing
                &&& !final(w).menu_alive
                &&& final(w).player_count() == 1
                &&& spawned_player(final(w).config, final(w).player)
            },
            !start_requested_spec(button) ==> {
                &&& final(w).state == GameState::MainMenu
                &&& final(w).menu_alive
                &&& final(w).button_visual == button_visual_spec(button)
                &&& final(w).player_alive == old(w).player_alive
                &&& final(w).player == old(w).player
            },
    {
        let (visual, start) = handle_start_button(button);
        if start {
            w.despawn_menu();
            w.state = GameState::Playing;
            w.spawn_player();
        } else {
            w.button_visual = visual;
        }
    }
}

impl GameWorld {
    /// One tick of the explicit pipeline. In `Loading` the asset-readiness
    /// signal is consumed and, once true, the world enters `MainMenu` and
    /// the menu is set up. In `MainMenu` the start control is handled; a
    /// click enters `Playing`, despawning the menu and spawning the player.
    /// In `Playing` the player systems run — movement strictly before
    /// animation and camera — and they run in no other state.
    pub fn tick(&mut self, dt_ms: i64, input: &TickInput)
        requires
            old(self).wf(),
        ensures
            final(self).wf(),
            final(self).config == old(self).config,
            final(self).sheet == old(self).sheet,
            old(self).state == GameState::Loading ==> {
                &&& final(self).state == loading_next_spec(input.assets_loaded)
                &&& final(self).player_alive == old(self).player_alive
                &&& final(self).player == old(self).player
                &&& final(self).camera == old(self).camera
                &&& final(self).menu_alive == input.assets_loaded
            },
            old(self).state == GameState::MainMenu ==> {
                &&& final(self).camera == old(self).camera
                &&& start_requested_spec(input.button) ==> {
                    &&& final(self).state == GameState::Playing
                    &&& !final(self).menu_alive
                    &&& final(self).player_count() == 1
                    &&& spawned_player(final(self).config, final(self).player)
                }
                &&& !start_requested_spec(input.button) ==> {
                    &&& final(self).state == GameState::MainMenu
                    &&& final(self).button_visual == button_visual_spec(input.button)
                    &&& final(self).player == old(self).player
                }
            },
            old(self).state == GameState::Playing ==> {
                &&& final(self).state == GameState::Playing
                &&& final(self).menu_alive == old(self).menu_alive
                &&& vel_stepped(
                    old(self).config,
                    clamp_dt_spec(dt_ms as int),
                    input.left,
                    input.right,
                    old(self).player.vel,
                    final(self).player.vel,
                )
                &&& pos_stepped(
                    old(self).config,
                    clamp_dt_spec(dt_ms as int),
                    final(self).player.vel,
                    old(self).player.pos,
                    final(self).player.pos,
                )
                &&& anim_stepped(
                    old(self).sheet.frame_count as int,
                    clamp_dt_spec(dt_ms as int),
                    final(self).player.vel,
                    old(self).player.timer,
                    final(self).player.timer,
                    old(self).player.frame as int,
                    final(self).player.frame as int,
                )
                &&& final(self).camera.x as int == clamp_i(
                    final(self).player.pos.x as int,
                    0,
                    old(self).config.cam_max(),
                )
                &&& final(self).camera.y == old(self).camera.y
            },
    {
        match self.state {
            GameState::Loading => {
                let next = loading_next(input.assets_loaded);
                if next == GameState::MainMenu {
                    self.state = GameState::MainMenu;
                    self.setup_menu();
                }
            },
            GameState::MainMenu => {
                MainMenuPlugin::run_tick(self, input.button);
            },
            GameState::Playing => {
                PlayerPlugin::run_tick(self, dt_ms, input.left, input.right);
            },
        }
    }
}

} // verus!
