use vstd::prelude::*;
use crate::platform::OsFamily;
use crate::text::str_equals;

verus! {

/// What to do to the window's native compositing for one request.
#[derive(Clone, Copy, Debug, PartialEq, Eq, Structural)]
pub enum EffectPlan {
    /// Clear any native acrylic and mica effect; failures are dropped.
    ClearNative,
    /// Apply the native vibrancy material (the HUD window material).
    ApplyVibrancy,
    /// Leave the window as it is.
    Nothing,
}

/// The effect names that ask for native translucency.
pub open spec fn is_translucency_name(name: Seq<char>) -> bool {
    name == "vibrancy"@ || name == "mica"@ || name == "acrylic"@
}

/// What a request for the effect `name` does on `os`.
pub open spec fn plan_of(os: OsFamily, name: Seq<char>) -> EffectPlan {
    match os {
        OsFamily::Windows => EffectPlan::ClearNative,
        OsFamily::MacOs => if is_translucency_name(name) {
            EffectPlan::ApplyVibrancy
        } else {
            EffectPlan::Nothing
        },
        OsFamily::Other => EffectPlan::Nothing,
    }
}

/// What the caller is told once `plan` was carried out with the native
/// call's result `applied` (the result of clearing, for `ClearNative`).
pub open spec fn effect_result_of(plan: EffectPlan, applied: Result<(), String>) -> Result<
    (),
    String,
> {
    match plan {
        EffectPlan::ApplyVibrancy => applied,
        _ => Ok(()),
    }
}

/// Decides what a request for the window effect `name` does on `os`.
pub fn resolve_effect(os: OsFamily, name: &str) -> (r: EffectPlan)
    ensures
        r == plan_of(os, name@),
{
    match os {
        OsFamily::Windows => EffectPlan::ClearNative,
        OsFamily::MacOs => {
            if str_equals(name, "vibrancy") || str_equals(name, "mica") || str_equals(
                name,
                "acrylic",
            ) {
                EffectPlan::ApplyVibrancy
            } else {
                EffectPlan::Nothing
            }
        },
        OsFamily::Other => EffectPlan::Nothing,
    }
}

/// The result of an effect request, given what the native call returned:
/// only a failure to apply vibrancy reaches the caller.
pub fn effect_result(plan: EffectPlan, applied: Result<(), String>) -> (r: Result<(), String>)
    ensures
        r == effect_result_of(plan, applied),
{
    match plan {
        EffectPlan::ApplyVibrancy => applied,
        _ => Ok(()),
    }
}

/// Where native effects are kept off, every request succeeds, whatever the
/// name (the empty one too) and whatever clearing returned.
pub proof fn lemma_css_glass_always_succeeds(name: Seq<char>, applied: Result<(), String>)
    ensures
        plan_of(OsFamily::Windows, name) == EffectPlan::ClearNative,
        effect_result_of(plan_of(OsFamily::Windows, name), applied) == Ok::<(), String>(()),
{
}

/// Where the compositor offers vibrancy, "vibrancy", "mica" and "acrylic"
/// all apply the one same material, and any other name leaves the window
/// alone and succeeds.
pub proof fn lemma_vibrancy_names(name: Seq<char>, applied: Result<(), String>)
    ensures
        (name == "vibrancy"@ || name == "mica"@ || name == "acrylic"@) ==> plan_of(
            OsFamily::MacOs,
            name,
        ) == EffectPlan::ApplyVibrancy,
        !(name == "vibrancy"@ || name == "mica"@ || name == "acrylic"@) ==> plan_of(
            OsFamily::MacOs,
            name,
        ) == EffectPlan::Nothing && effect_result_of(plan_of(OsFamily::MacOs, name), applied)
            == Ok::<(), String>(()),
{
}

/// On any other system a request does nothing and succeeds.
pub proof fn lemma_other_os_no_op(name: Seq<char>, applied: Result<(), String>)
    ensures
        plan_of(OsFamily::Other, name) == EffectPlan::Nothing,
        effect_result_of(plan_of(OsFamily::Other, name), applied) == Ok::<(), String>(()),
{
}

} // verus!
