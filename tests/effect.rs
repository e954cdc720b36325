use cadence_desktop::effect::{effect_result, resolve_effect, EffectPlan};
use cadence_desktop::platform::OsFamily;

#[test]
fn windows_always_clears_and_succeeds() {
    for name in ["", "vibrancy", "mica", "acrylic", "glow", "anything"] {
        let plan = resolve_effect(OsFamily::Windows, name);
        assert_eq!(plan, EffectPlan::ClearNative);
        assert_eq!(effect_result(plan, Ok(())), Ok(()));
        assert_eq!(effect_result(plan, Err("no window".to_string())), Ok(()));
    }
}

#[test]
fn macos_translucency_names_apply_vibrancy() {
    for name in ["vibrancy", "mica", "acrylic"] {
        let plan = resolve_effect(OsFamily::MacOs, name);
        assert_eq!(plan, EffectPlan::ApplyVibrancy);
        assert_eq!(effect_result(plan, Ok(())), Ok(()));
    }
}

#[test]
fn macos_glow_is_a_no_op() {
    let plan = resolve_effect(OsFamily::MacOs, "glow");
    assert_eq!(plan, EffectPlan::Nothing);
    assert_eq!(effect_result(plan, Err("unused".to_string())), Ok(()));
    assert_eq!(resolve_effect(OsFamily::MacOs, ""), EffectPlan::Nothing);
    assert_eq!(resolve_effect(OsFamily::MacOs, "Mica"), EffectPlan::Nothing);
}

#[test]
fn macos_apply_failure_reaches_caller() {
    let plan = resolve_effect(OsFamily::MacOs, "mica");
    assert_eq!(
        effect_result(plan, Err("effect unsupported".to_string())),
        Err("effect unsupported".to_string())
    );
}

#[test]
fn other_os_does_nothing() {
    for name in ["", "vibrancy", "glow"] {
        let plan = resolve_effect(OsFamily::Other, name);
        assert_eq!(plan, EffectPlan::Nothing);
        assert_eq!(effect_result(plan, Err("x".to_string())), Ok(()));
    }
}
