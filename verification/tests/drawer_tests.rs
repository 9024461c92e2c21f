use drawer_core::drawer::compute_position;
use drawer_core::drawer::default_settings;
use drawer_core::drawer::hotkey_of_settings;
use drawer_core::drawer::settings_reposition;
use drawer_core::drawer::side_of_settings;
use drawer_core::drawer::theme_of_settings;
use drawer_core::drawer::DrawerEnv;
use drawer_core::drawer::DrawerSide;
use drawer_core::drawer::DrawerState;
use drawer_core::drawer::Extent;
use drawer_core::drawer::PhysicalPos;
use drawer_core::json::JsonValue;

fn s(text: &str) -> String {
    text.to_string()
}

fn settings_with_side(side: &str) -> JsonValue {
    JsonValue::Obj(vec![(s("drawerSide"), JsonValue::Str(s(side)))])
}

fn full_env(side: DrawerSide) -> DrawerEnv {
    DrawerEnv {
        side,
        monitor: Some(Extent { width: 1920, height: 1080 }),
        window_size: Some(Extent { width: 450, height: 800 }),
    }
}

#[test]
fn test_position_right() {
    let p = compute_position(
        DrawerSide::Right,
        Extent { width: 1920, height: 1080 },
        Extent { width: 450, height: 800 },
    );
    assert_eq!(p, PhysicalPos { x: 1450, y: 140 });
}

#[test]
fn test_position_left() {
    let p = compute_position(
        DrawerSide::Left,
        Extent { width: 1920, height: 1080 },
        Extent { width: 450, height: 800 },
    );
    assert_eq!(p, PhysicalPos { x: 20, y: 140 });
}

#[test]
fn test_toggle_cycle() {
    let mut state = DrawerState::new();
    assert!(!state.visible);
    let env = full_env(DrawerSide::Right);

    let first = state.toggle(&env);
    assert!(state.visible);
    assert!(first.emitted);
    assert!(first.show);
    assert_eq!(first.set_position, Some(PhysicalPos { x: 1450, y: 140 }));

    let second = state.toggle(&env);
    assert!(!state.visible);
    assert!(!second.emitted);
    assert!(!second.show);
    assert_eq!(second.set_position, None);
}

#[test]
fn test_show_re_emits_when_already_visible() {
    let mut state = DrawerState::new();
    let env = full_env(DrawerSide::Left);
    state.show(&env);
    assert!(state.visible);
    let again = state.show(&env);
    assert!(state.visible);
    assert!(again.emitted);
    assert_eq!(again.set_position, Some(PhysicalPos { x: 20, y: 140 }));
}

#[test]
fn test_hide_is_idempotent() {
    let mut state = DrawerState::new();
    let plan = state.hide_drawer();
    assert!(!state.visible);
    assert!(!plan.emitted);
    let plan2 = state.hide_drawer();
    assert!(!state.visible);
    assert_eq!(plan, plan2);
}

#[test]
fn test_no_monitor_leaves_position_unchanged() {
    let mut state = DrawerState::new();
    let env = DrawerEnv {
        side: DrawerSide::Right,
        monitor: None,
        window_size: Some(Extent { width: 450, height: 800 }),
    };
    let plan = state.toggle(&env);
    assert!(plan.emitted);
    assert_eq!(plan.set_position, None);
}

#[test]
fn test_default_window_size_is_450_by_800() {
    let mut state = DrawerState::new();
    let env = DrawerEnv {
        side: DrawerSide::Right,
        monitor: Some(Extent { width: 1920, height: 1080 }),
        window_size: None,
    };
    let plan = state.toggle(&env);
    assert_eq!(plan.set_position, Some(PhysicalPos { x: 1450, y: 140 }));
}

#[test]
fn test_side_of_settings() {
    assert_eq!(side_of_settings(&settings_with_side("right")), DrawerSide::Right);
    assert_eq!(side_of_settings(&settings_with_side("left")), DrawerSide::Left);
    // Any other string docks left, as the position formula treats only
    // "right" specially.
    assert_eq!(side_of_settings(&settings_with_side("banana")), DrawerSide::Left);
    // Missing or non-string fields fall back to the default side.
    assert_eq!(side_of_settings(&JsonValue::Obj(vec![])), DrawerSide::Right);
    assert_eq!(
        side_of_settings(&JsonValue::Obj(vec![(s("drawerSide"), JsonValue::Int(1))])),
        DrawerSide::Right
    );
}

#[test]
fn test_settings_defaults_fall_back_independently() {
    let partial = JsonValue::Obj(vec![(s("theme"), JsonValue::Str(s("light")))]);
    assert_eq!(theme_of_settings(&partial), s("light"));
    assert_eq!(hotkey_of_settings(&partial), s("CommandOrControl+Space"));
    assert_eq!(side_of_settings(&partial), DrawerSide::Right);
}

#[test]
fn test_default_settings_document() {
    let d = default_settings();
    assert_eq!(theme_of_settings(&d), s("dark"));
    assert_eq!(side_of_settings(&d), DrawerSide::Right);
    assert_eq!(hotkey_of_settings(&d), s("CommandOrControl+Space"));
}

#[test]
fn test_save_settings_repositions_only_with_side_and_monitor() {
    let monitor = Some(Extent { width: 1920, height: 1080 });
    let window = Some(Extent { width: 450, height: 800 });
    assert_eq!(
        settings_reposition(&settings_with_side("right"), monitor, window),
        Some(PhysicalPos { x: 1450, y: 140 })
    );
    assert_eq!(
        settings_reposition(&settings_with_side("left"), monitor, window),
        Some(PhysicalPos { x: 20, y: 140 })
    );
    // No drawerSide saved: no reposition.
    assert_eq!(settings_reposition(&JsonValue::Obj(vec![]), monitor, window), None);
    // No monitor resolvable: no reposition.
    assert_eq!(settings_reposition(&settings_with_side("right"), None, window), None);
}
