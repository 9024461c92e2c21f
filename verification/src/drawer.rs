//! The drawer window controller: a two-state visibility machine.
//!
//! Transitions are computed here as pure plans; the host carries a plan out
//! (reposition, show or hide the real window, emit the `drawer-visibility`
//! event) and owns the platform calls. Positioning is monitor-aware: when no
//! monitor can be resolved the position is left unchanged — a no-op, not an
//! error.

use vstd::prelude::*;

use crate::json::str_field;
use crate::json::Json;
use crate::json::JsonValue;

verus! {

broadcast use vstd::string::group_string_axioms;

/// Which screen edge the drawer docks to.
#[derive(Clone, Copy, Debug, PartialEq, Eq, Structural)]
pub enum DrawerSide {
    Left,
    Right,
}

/// A position in physical pixels.
#[derive(Clone, Copy, Debug, PartialEq, Eq, Structural)]
pub struct PhysicalPos {
    pub x: i32,
    pub y: i32,
}

/// An extent in physical pixels: a monitor's or a window's outer size.
#[derive(Clone, Copy, Debug, PartialEq, Eq, Structural)]
pub struct Extent {
    pub width: u32,
    pub height: u32,
}

/// What the controller knows of its surroundings when it computes a
/// transition into `Visible`.
#[derive(Clone, Copy, Debug)]
pub struct DrawerEnv {
    /// The side the settings call for.
    pub side: DrawerSide,
    /// The screen size of the window's current monitor, when resolvable.
    pub monitor: Option<Extent>,
    /// The window's own outer size, when the platform reports one.
    pub window_size: Option<Extent>,
}

/// The three commands the frontend can issue against the drawer.
#[derive(Clone, Copy, Debug, PartialEq, Eq, Structural)]
pub enum DrawerCommand {
    Toggle,
    Show,
    Hide,
}

/// The effects of one transition, for the host to carry out: optionally
/// reposition, then show-and-focus or hide, then emit `drawer-visibility`
/// with `emitted`.
#[derive(Debug, PartialEq, Eq)]
pub struct DrawerPlan {
    pub set_position: Option<PhysicalPos>,
    pub show: bool,
    pub emitted: bool,
}

/// The size used for positioning: the reported outer size, else 450x800.
pub open spec fn effective_window(window_size: Option<Extent>) -> Extent {
    match window_size {
        Some(e) => e,
        None => Extent { width: 450, height: 800 },
    }
}

/// The horizontal coordinate: 20 pixels in from the chosen edge.
pub open spec fn spec_pos_x(side: DrawerSide, screen_w: int, win_w: int) -> int {
    if side is Right {
        screen_w - win_w - 20
    } else {
        20
    }
}

/// The vertical coordinate: vertically centered, halving toward zero as the
/// machine's signed division does.
pub open spec fn spec_pos_y(screen_h: int, win_h: int) -> int {
    if screen_h >= win_h {
        (screen_h - win_h) / 2
    } else {
        -((win_h - screen_h) / 2)
    }
}

/// The geometry stays within the signed pixel range the platform uses.
pub open spec fn geometry_fits(monitor: Option<Extent>, window_size: Option<Extent>) -> bool {
    match monitor {
        Some(screen) => {
            &&& screen.width <= i32::MAX
            &&& screen.height <= i32::MAX
            &&& effective_window(window_size).width + 20 <= i32::MAX
            &&& effective_window(window_size).height <= i32::MAX
        },
        None => true,
    }
}

/// The position computed on a transition into `Visible`: exactly the
/// formula when a monitor is resolvable, no repositioning otherwise.
pub open spec fn planned_position(env: DrawerEnv, pos: Option<PhysicalPos>) -> bool {
    match env.monitor {
        Some(screen) => pos matches Some(p) && p.x == spec_pos_x(
            env.side,
            screen.width as int,
            effective_window(env.window_size).width as int,
        ) && p.y == spec_pos_y(
            screen.height as int,
            effective_window(env.window_size).height as int,
        ),
        None => pos is None,
    }
}

/// One transition of the visibility machine as a pure function of the
/// current state: the new visibility paired with the emitted event value.
pub open spec fn spec_step(visible: bool, cmd: DrawerCommand) -> (bool, bool) {
    match cmd {
        DrawerCommand::Toggle => (!visible, !visible),
        DrawerCommand::Show => (true, true),
        DrawerCommand::Hide => (false, false),
    }
}

/// The drawer's docking position on a given screen.
pub fn compute_position(side: DrawerSide, screen: Extent, window: Extent) -> (p: PhysicalPos)
    requires
        screen.width <= i32::MAX,
        screen.height <= i32::MAX,
        window.width + 20 <= i32::MAX,
        window.height <= i32::MAX,
    ensures
        p.x == spec_pos_x(side, screen.width as int, window.width as int),
        p.y == spec_pos_y(screen.height as int, window.height as int),
{
    let x: i32 = if side == DrawerSide::Right {
        screen.width as i32 - window.width as i32 - 20
    } else {
        20
    };
    let y: i32 = if screen.height >= window.height {
        ((screen.height - window.height) / 2) as i32
    } else {
        let d: u32 = (window.height - screen.height) / 2;
        -(d as i32)
    };
    PhysicalPos { x, y }
}

/// The reposition performed on entering `Visible`: `None` exactly when no
/// monitor is resolvable.
pub fn position_for(env: &DrawerEnv) -> (pos: Option<PhysicalPos>)
    requires
        geometry_fits(env.monitor, env.window_size),
    ensures
        planned_position(*env, pos),
{
    match env.monitor {
        Some(screen) => {
            let window = match env.window_size {
                Some(e) => e,
                None => Extent { width: 450, height: 800 },
            };
            Some(compute_position(env.side, screen, window))
        },
        None => None,
    }
}

/// The visibility state of the one drawer window. Starts `Hidden`; mutated
/// only through the three commands; never persisted.
pub struct DrawerState {
    pub visible: bool,
}

impl DrawerState {
    /// The initial state: hidden.
    pub fn new() -> (s: DrawerState)
        ensures
            !s.visible,
    {
        DrawerState { visible: false }
    }

    /// `toggle`: flip the state; on entering `Visible` compute a position,
    /// show and focus; on leaving, hide. Every transition emits the new
    /// state.
    pub fn toggle(&mut self, env: &DrawerEnv) -> (p: DrawerPlan)
        requires
            geometry_fits(env.monitor, env.window_size),
        ensures
            (final(self).visible, p.emitted) == spec_step(old(self).visible, DrawerCommand::Toggle),
            p.show == final(self).visible,
            old(self).visible ==> p.set_position is None,
            !old(self).visible ==> planned_position(*env, p.set_position),
    {
        if self.visible {
            self.hide_drawer()
        } else {
            self.show(env)
        }
    }

    /// `show`: force `Visible` regardless of the current state; even when
    /// already visible it repositions, refocuses and re-emits `true`.
    pub fn show(&mut self, env: &DrawerEnv) -> (p: DrawerPlan)
        requires
            geometry_fits(env.monitor, env.window_size),
        ensures
            (final(self).visible, p.emitted) == spec_step(old(self).visible, DrawerCommand::Show),
            p.show,
            planned_position(*env, p.set_position),
    {
        self.visible = true;
        DrawerPlan { set_position: position_for(env), show: true, emitted: true }
    }

    /// `hide`: force `Hidden` regardless of the current state; idempotent.
    pub fn hide_drawer(&mut self) -> (p: DrawerPlan)
        ensures
            (final(self).visible, p.emitted) == spec_step(old(self).visible, DrawerCommand::Hide),
            !p.show,
            p.set_position is None,
    {
        self.visible = false;
        DrawerPlan { set_position: None, show: false, emitted: false }
    }
}

/// The `drawerSide` the settings call for: `Right` exactly when the field
/// is missing, not a string, or the string "right"; `Left` for any other
/// string.
pub open spec fn spec_side_of(settings: Json) -> DrawerSide {
    match str_field(settings, "drawerSide"@) {
        Some(s) => if s == "right"@ {
            DrawerSide::Right
        } else {
            DrawerSide::Left
        },
        None => DrawerSide::Right,
    }
}

/// The side to dock to, read from a settings document.
pub fn side_of_settings(settings: &JsonValue) -> (r: DrawerSide)
    ensures
        r == spec_side_of(settings@),
{
    let key = "drawerSide".to_string();
    let right = "right".to_string();
    match settings.get_field(&key) {
        Some(v) => match v.as_str() {
            Some(s) => {
                if *s == right {
                    DrawerSide::Right
                } else {
                    DrawerSide::Left
                }
            },
            None => DrawerSide::Right,
        },
        None => DrawerSide::Right,
    }
}

/// The hotkey the settings call for, defaulting like the stored default.
pub open spec fn spec_hotkey_of(settings: Json) -> Seq<char> {
    match str_field(settings, "hotkey"@) {
        Some(s) => s,
        None => "CommandOrControl+Space"@,
    }
}

/// The activation hotkey, read from a settings document.
pub fn hotkey_of_settings(settings: &JsonValue) -> (r: String)
    ensures
        r@ == spec_hotkey_of(settings@),
{
    let key = "hotkey".to_string();
    match settings.get_field(&key) {
        Some(v) => match v.as_str() {
            Some(s) => s.clone(),
            None => "CommandOrControl+Space".to_string(),
        },
        None => "CommandOrControl+Space".to_string(),
    }
}

/// The theme the settings call for, defaulting like the stored default.
pub open spec fn spec_theme_of(settings: Json) -> Seq<char> {
    match str_field(settings, "theme"@) {
        Some(s) => s,
        None => "dark"@,
    }
}

/// The UI theme, read from a settings document.
pub fn theme_of_settings(settings: &JsonValue) -> (r: String)
    ensures
        r@ == spec_theme_of(settings@),
{
    let key = "theme".to_string();
    match settings.get_field(&key) {
        Some(v) => match v.as_str() {
            Some(s) => s.clone(),
            None => "dark".to_string(),
        },
        None => "dark".to_string(),
    }
}

/// The settings document handed out when none is stored.
pub open spec fn spec_default_settings() -> Json {
    Json::Obj(
        seq![
            ("theme"@, Json::Str("dark"@)),
            ("drawerSide"@, Json::Str("right"@)),
            ("hotkey"@, Json::Str("CommandOrControl+Space"@)),
        ],
    )
}

/// The default settings: dark theme, right side, CommandOrControl+Space.
pub fn default_settings() -> (r: JsonValue)
    ensures
        r@ == spec_default_settings(),
{
    let mut fields: Vec<(String, JsonValue)> = Vec::new();
    fields.push(("theme".to_string(), JsonValue::Str("dark".to_string())));
    fields.push(("drawerSide".to_string(), JsonValue::Str("right".to_string())));
    fields.push((
        "hotkey".to_string(),
        JsonValue::Str("CommandOrControl+Space".to_string()),
    ));
    let r = JsonValue::Obj(fields);
    proof {
        crate::json::lemma_field_views_index(fields@);
        let fv = crate::json::field_views(fields@);
        assert(fv.len() == 3);
        assert(fv[0] == ("theme"@, Json::Str("dark"@)));
        assert(fv[1] == ("drawerSide"@, Json::Str("right"@)));
        assert(fv[2] == ("hotkey"@, Json::Str("CommandOrControl+Space"@)));
        assert(fv =~= spec_default_settings()->Obj_0);
        assert(r@ =~= spec_default_settings());
    }
    r
}

/// The reposition `save_settings` performs: only when the saved document
/// names a drawer side as a string and a monitor is resolvable; the side
/// string decides the edge exactly as `spec_side_of` does for "right".
pub open spec fn settings_reposition_spec(
    settings: Json,
    monitor: Option<Extent>,
    window_size: Option<Extent>,
    pos: Option<PhysicalPos>,
) -> bool {
    match (str_field(settings, "drawerSide"@), monitor) {
        (Some(side), Some(screen)) => pos matches Some(p) && p.x == spec_pos_x(
            if side == "right"@ {
                DrawerSide::Right
            } else {
                DrawerSide::Left
            },
            screen.width as int,
            effective_window(window_size).width as int,
        ) && p.y == spec_pos_y(
            screen.height as int,
            effective_window(window_size).height as int,
        ),
        _ => pos is None,
    }
}

/// The reposition that saving a settings document triggers, if any.
pub fn settings_reposition(
    settings: &JsonValue,
    monitor: Option<Extent>,
    window_size: Option<Extent>,
) -> (pos: Option<PhysicalPos>)
    requires
        geometry_fits(monitor, window_size),
    ensures
        settings_reposition_spec(settings@, monitor, window_size, pos),
{
    let key = "drawerSide".to_string();
    let right = "right".to_string();
    let side_str = match settings.get_field(&key) {
        Some(v) => match v.as_str() {
            Some(s) => Some(s),
            None => None,
        },
        None => None,
    };
    match (side_str, monitor) {
        (Some(s), Some(screen)) => {
            let side = if *s == right {
                DrawerSide::Right
            } else {
                DrawerSide::Left
            };
            let window = match window_size {
                Some(e) => e,
                None => Extent { width: 450, height: 800 },
            };
            Some(compute_position(side, screen, window))
        },
        _ => None,
    }
}

/// Law: every transition emits exactly the visibility it moves to, for
/// every starting state and every command.
pub proof fn lemma_emit_matches_state(visible: bool, cmd: DrawerCommand)
    ensures
        spec_step(visible, cmd).1 == spec_step(visible, cmd).0,
{
}

/// Law: from `Hidden`, `toggle` shows and emits `true`; a second `toggle`
/// hides and emits `false`; `show` while already `Visible` still emits
/// `true`.
pub proof fn lemma_drawer_toggle_cycle()
    ensures
        spec_step(false, DrawerCommand::Toggle) == (true, true),
        spec_step(spec_step(false, DrawerCommand::Toggle).0, DrawerCommand::Toggle) == (
            false,
            false,
        ),
        spec_step(true, DrawerCommand::Show) == (true, true),
{
}

} // verus!
