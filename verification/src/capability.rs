//! The fixed derivation policy from the capability-string set to features
//! and LEDs.
//!
//! Each feature is gated on one specific `"<interface>;<method>"` entry.  The
//! base (unspecified) LED is asserted when ANY of several distinct lighting
//! interfaces or methods is present — vendors expose the same logical LED
//! through different interface generations — while every other LED follows
//! from exactly one interface's presence.  This many-to-one OR for the base
//! LED and one-to-one mapping for all others is a fixed vendor-quirk table,
//! written out literally on purpose.

use vstd::prelude::*;

use crate::constants::{label_backlight, label_blue_led, label_charging, label_chroma,
    label_fast_charging, label_fully_charged, label_green_led, label_left, label_logo,
    label_red_led, label_right, label_scroll, spec_cap_available_dpi, spec_cap_chroma_set_none,
    spec_cap_chroma_set_static, spec_cap_get_battery, spec_cap_get_idle_time,
    spec_cap_get_low_battery_threshold, spec_cap_keyboard_layout, spec_cap_lighting_backlight,
    spec_cap_lighting_brightness, spec_cap_lighting_bw2013, spec_cap_lighting_charging,
    spec_cap_lighting_fast_charging, spec_cap_lighting_fully_charged, spec_cap_lighting_left,
    spec_cap_lighting_logo, spec_cap_lighting_right, spec_cap_lighting_scroll,
    spec_cap_profile_blue, spec_cap_profile_green, spec_cap_profile_red, spec_cap_set_custom,
    spec_cap_set_dpi, spec_cap_set_dpi_stages, spec_cap_set_poll_rate, spec_label_backlight,
    spec_label_blue_led, spec_label_charging, spec_label_chroma, spec_label_fast_charging,
    spec_label_fully_charged, spec_label_green_led, spec_label_left, spec_label_logo,
    spec_label_red_led, spec_label_right, spec_label_scroll};
use crate::types::{Feature, LedId};

verus! {

/// The one capability entry whose presence asserts the feature.
pub open spec fn feature_trigger(f: Feature) -> Seq<u8> {
    match f {
        Feature::KeyboardLayout => spec_cap_keyboard_layout(),
        Feature::Dpi => spec_cap_set_dpi(),
        Feature::RestrictedDpi => spec_cap_available_dpi(),
        Feature::DpiStages => spec_cap_set_dpi_stages(),
        Feature::PollRate => spec_cap_set_poll_rate(),
        Feature::CustomFrame => spec_cap_set_custom(),
        Feature::Battery => spec_cap_get_battery(),
        Feature::LowBatteryThreshold => spec_cap_get_low_battery_threshold(),
        Feature::IdleTime => spec_cap_get_idle_time(),
    }
}

/// Whether the capability set asserts the feature.
pub open spec fn feature_present(entries: Seq<Seq<u8>>, f: Feature) -> bool {
    entries.contains(feature_trigger(f))
}

/// Whether the capability set asserts the LED.
pub open spec fn led_triggered(entries: Seq<Seq<u8>>, led: LedId) -> bool {
    match led {
        LedId::Unspecified => entries.contains(spec_cap_chroma_set_none()) || entries.contains(
            spec_cap_chroma_set_static(),
        ) || entries.contains(spec_cap_lighting_bw2013()) || entries.contains(
            spec_cap_lighting_brightness(),
        ),
        LedId::LogoLED => entries.contains(spec_cap_lighting_logo()),
        LedId::ScrollWheelLED => entries.contains(spec_cap_lighting_scroll()),
        LedId::BacklightLED => entries.contains(spec_cap_lighting_backlight()),
        LedId::LeftSideLED => entries.contains(spec_cap_lighting_left()),
        LedId::RightSideLED => entries.contains(spec_cap_lighting_right()),
        LedId::KeymapRedLED => entries.contains(spec_cap_profile_red()),
        LedId::KeymapGreenLED => entries.contains(spec_cap_profile_green()),
        LedId::KeymapBlueLED => entries.contains(spec_cap_profile_blue()),
        LedId::ChargingLED => entries.contains(spec_cap_lighting_charging()),
        LedId::FastChargingLED => entries.contains(spec_cap_lighting_fast_charging()),
        LedId::FullyChargedLED => entries.contains(spec_cap_lighting_fully_charged()),
    }
}

/// The display label of a LED.
pub open spec fn spec_led_label(led: LedId) -> Seq<u8> {
    match led {
        LedId::Unspecified => spec_label_chroma(),
        LedId::LogoLED => spec_label_logo(),
        LedId::ScrollWheelLED => spec_label_scroll(),
        LedId::BacklightLED => spec_label_backlight(),
        LedId::LeftSideLED => spec_label_left(),
        LedId::RightSideLED => spec_label_right(),
        LedId::KeymapRedLED => spec_label_red_led(),
        LedId::KeymapGreenLED => spec_label_green_led(),
        LedId::KeymapBlueLED => spec_label_blue_led(),
        LedId::ChargingLED => spec_label_charging(),
        LedId::FastChargingLED => spec_label_fast_charging(),
        LedId::FullyChargedLED => spec_label_fully_charged(),
    }
}

/// A fixed enumeration order on the LEDs, used to state that the derived
/// LED list holds each LED at most once.
pub open spec fn led_order(led: LedId) -> int {
    match led {
        LedId::Unspecified => 0,
        LedId::LogoLED => 1,
        LedId::ScrollWheelLED => 2,
        LedId::BacklightLED => 3,
        LedId::LeftSideLED => 4,
        LedId::RightSideLED => 5,
        LedId::KeymapRedLED => 6,
        LedId::KeymapGreenLED => 7,
        LedId::KeymapBlueLED => 8,
        LedId::ChargingLED => 9,
        LedId::FastChargingLED => 10,
        LedId::FullyChargedLED => 11,
    }
}

/// The display label of a LED, as bytes.
pub fn led_label(led: LedId) -> (r: Vec<u8>)
    ensures
        r@ == spec_led_label(led),
{
    match led {
        LedId::Unspecified => label_chroma(),
        LedId::LogoLED => label_logo(),
        LedId::ScrollWheelLED => label_scroll(),
        LedId::BacklightLED => label_backlight(),
        LedId::LeftSideLED => label_left(),
        LedId::RightSideLED => label_right(),
        LedId::KeymapRedLED => label_red_led(),
        LedId::KeymapGreenLED => label_green_led(),
        LedId::KeymapBlueLED => label_blue_led(),
        LedId::ChargingLED => label_charging(),
        LedId::FastChargingLED => label_fast_charging(),
        LedId::FullyChargedLED => label_fully_charged(),
    }
}

/// The feature gate is exactly one entry: the DPI feature holds if and only
/// if the capability set holds `"razer.device.dpi;setDPI"`, and likewise for
/// every other feature and its trigger.
pub proof fn lemma_feature_gate(entries: Seq<Seq<u8>>, f: Feature)
    ensures
        feature_present(entries, f) <==> entries.contains(feature_trigger(f)),
        feature_present(entries, Feature::Dpi) <==> entries.contains(spec_cap_set_dpi()),
{
}

/// The base LED is an OR across the legacy and current lighting interfaces:
/// it is present if ANY of `setNone`, `setStatic`, the legacy monochrome
/// interface or the brightness interface is present, and absent otherwise.
pub proof fn lemma_unspecified_led_gate(entries: Seq<Seq<u8>>)
    ensures
        led_triggered(entries, LedId::Unspecified) <==> (entries.contains(
            spec_cap_chroma_set_none(),
        ) || entries.contains(spec_cap_chroma_set_static()) || entries.contains(
            spec_cap_lighting_bw2013(),
        ) || entries.contains(spec_cap_lighting_brightness())),
{
}

/// The derivation reads the capability strings only as a set: two entry
/// lists with the same members, in any order and multiplicity, assert
/// exactly the same features and LEDs.
pub proof fn lemma_derivation_set_determined(e1: Seq<Seq<u8>>, e2: Seq<Seq<u8>>)
    requires
        forall|x: Seq<u8>| e1.contains(x) <==> e2.contains(x),
    ensures
        forall|f: Feature| feature_present(e1, f) == feature_present(e2, f),
        forall|led: LedId| led_triggered(e1, led) == led_triggered(e2, led),
{
    assert forall|f: Feature| feature_present(e1, f) == feature_present(e2, f) by {
        assert(e1.contains(feature_trigger(f)) <==> e2.contains(feature_trigger(f)));
    }
    assert forall|led: LedId| led_triggered(e1, led) == led_triggered(e2, led) by {
        assert(e1.contains(spec_cap_chroma_set_none()) <==> e2.contains(
            spec_cap_chroma_set_none(),
        ));
        assert(e1.contains(spec_cap_chroma_set_static()) <==> e2.contains(
            spec_cap_chroma_set_static(),
        ));
        assert(e1.contains(spec_cap_lighting_bw2013()) <==> e2.contains(
            spec_cap_lighting_bw2013(),
        ));
        assert(e1.contains(spec_cap_lighting_brightness()) <==> e2.contains(
            spec_cap_lighting_brightness(),
        ));
        assert(e1.contains(spec_cap_lighting_logo()) <==> e2.contains(spec_cap_lighting_logo()));
        assert(e1.contains(spec_cap_lighting_scroll()) <==> e2.contains(
            spec_cap_lighting_scroll(),
        ));
        assert(e1.contains(spec_cap_lighting_backlight()) <==> e2.contains(
            spec_cap_lighting_backlight(),
        ));
        assert(e1.contains(spec_cap_lighting_left()) <==> e2.contains(spec_cap_lighting_left()));
        assert(e1.contains(spec_cap_lighting_right()) <==> e2.contains(spec_cap_lighting_right()));
        assert(e1.contains(spec_cap_profile_red()) <==> e2.contains(spec_cap_profile_red()));
        assert(e1.contains(spec_cap_profile_green()) <==> e2.contains(spec_cap_profile_green()));
        assert(e1.contains(spec_cap_profile_blue()) <==> e2.contains(spec_cap_profile_blue()));
        assert(e1.contains(spec_cap_lighting_charging()) <==> e2.contains(
            spec_cap_lighting_charging(),
        ));
        assert(e1.contains(spec_cap_lighting_fast_charging()) <==> e2.contains(
            spec_cap_lighting_fast_charging(),
        ));
        assert(e1.contains(spec_cap_lighting_fully_charged()) <==> e2.contains(
            spec_cap_lighting_fully_charged(),
        ));
    }
}

} // verus!
