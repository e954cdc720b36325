use cadence_desktop::bridge::TrayBridge;
use cadence_desktop::effect::EffectPlan;
use cadence_desktop::menu::{MenuAction, TrayOutcome};
use cadence_desktop::platform::OsFamily;

fn active_bridge() -> TrayBridge {
    let mut b = TrayBridge::new();
    assert!(!b.is_active());
    b.activate();
    assert!(b.is_active());
    b
}

#[test]
fn tooltip_last_write_wins() {
    let mut b = active_bridge();
    assert_eq!(b.tooltip(), None);
    assert_eq!(b.set_tray_tooltip("Focus 25:00".to_string(), Ok(())), Ok(()));
    assert_eq!(b.tooltip(), Some("Focus 25:00".to_string()));
    assert_eq!(b.set_tray_tooltip("Break 5:00".to_string(), Ok(())), Ok(()));
    assert_eq!(b.tooltip(), Some("Break 5:00".to_string()));
}

#[test]
fn tooltip_failure_is_reported_and_kept_out() {
    let mut b = active_bridge();
    assert_eq!(b.set_tray_tooltip("one".to_string(), Ok(())), Ok(()));
    assert_eq!(
        b.set_tray_tooltip("two".to_string(), Err("icon gone".to_string())),
        Err("icon gone".to_string())
    );
    assert_eq!(b.tooltip(), Some("one".to_string()));
}

#[test]
fn active_bridge_handles_events_and_effects() {
    let b = active_bridge();
    assert_eq!(b.on_menu_event("skip"), TrayOutcome::Emit(MenuAction::Skip));
    assert_eq!(b.on_menu_event("quit"), TrayOutcome::Exit(0));
    assert_eq!(b.on_menu_event("later"), TrayOutcome::Ignore);
    assert_eq!(b.window_effect(OsFamily::MacOs, "acrylic"), EffectPlan::ApplyVibrancy);
    assert_eq!(b.window_effect(OsFamily::Windows, "glow"), EffectPlan::ClearNative);
}
