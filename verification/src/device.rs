//! The per-peripheral capability model.
//!
//! A `Device` is built once from the introspection document its remote object
//! reports: the capability-string set is parsed out of the document, and the
//! feature set and LED set are derived from it by the fixed policy tables.
//! Both derived sets are pure functions of the introspection set and never
//! change afterwards; no device exists without a successfully parsed
//! document.

use vstd::prelude::*;

use crate::bytestr::{concat_bytes, contains_bytes, views};
use crate::capability::{feature_present, led_label, led_order, led_triggered, spec_led_label};
use crate::constants::{cap_available_dpi, cap_chroma_set_none, cap_chroma_set_static,
    cap_get_battery, cap_get_idle_time, cap_get_low_battery_threshold, cap_keyboard_layout,
    cap_lighting_backlight, cap_lighting_brightness, cap_lighting_bw2013, cap_lighting_charging,
    cap_lighting_fast_charging, cap_lighting_fully_charged, cap_lighting_left, cap_lighting_logo,
    cap_lighting_right, cap_lighting_scroll, cap_profile_blue, cap_profile_green, cap_profile_red,
    cap_set_custom, cap_set_dpi, cap_set_dpi_stages, cap_set_poll_rate};
use crate::error::Error;
use crate::introspect::{parse_introspection, spec_introspect};
use crate::types::{Feature, LedId};

verus! {

/// The derived feature flags, one per `Feature` variant.
#[derive(Clone, Copy, Debug, PartialEq, Eq, Structural)]
pub struct FeatureSet {
    pub keyboard_layout: bool,
    pub dpi: bool,
    pub restricted_dpi: bool,
    pub dpi_stages: bool,
    pub poll_rate: bool,
    pub custom_frame: bool,
    pub battery: bool,
    pub low_battery_threshold: bool,
    pub idle_time: bool,
}

/// The derived LED flags, one per `LedId` variant.
#[derive(Clone, Copy, Debug, PartialEq, Eq, Structural)]
pub struct LedSet {
    pub unspecified: bool,
    pub logo: bool,
    pub scroll_wheel: bool,
    pub backlight: bool,
    pub left_side: bool,
    pub right_side: bool,
    pub keymap_red: bool,
    pub keymap_green: bool,
    pub keymap_blue: bool,
    pub charging: bool,
    pub fast_charging: bool,
    pub fully_charged: bool,
}

/// The flag of `fs` for the feature `f`.
pub open spec fn feature_flag(fs: FeatureSet, f: Feature) -> bool {
    match f {
        Feature::KeyboardLayout => fs.keyboard_layout,
        Feature::Dpi => fs.dpi,
        Feature::RestrictedDpi => fs.restricted_dpi,
        Feature::DpiStages => fs.dpi_stages,
        Feature::PollRate => fs.poll_rate,
        Feature::CustomFrame => fs.custom_frame,
        Feature::Battery => fs.battery,
        Feature::LowBatteryThreshold => fs.low_battery_threshold,
        Feature::IdleTime => fs.idle_time,
    }
}

/// The flag of `ls` for the LED `led`.
pub open spec fn led_flag(ls: LedSet, led: LedId) -> bool {
    match led {
        LedId::Unspecified => ls.unspecified,
        LedId::LogoLED => ls.logo,
        LedId::ScrollWheelLED => ls.scroll_wheel,
        LedId::BacklightLED => ls.backlight,
        LedId::LeftSideLED => ls.left_side,
        LedId::RightSideLED => ls.right_side,
        LedId::KeymapRedLED => ls.keymap_red,
        LedId::KeymapGreenLED => ls.keymap_green,
        LedId::KeymapBlueLED => ls.keymap_blue,
        LedId::ChargingLED => ls.charging,
        LedId::FastChargingLED => ls.fast_charging,
        LedId::FullyChargedLED => ls.fully_charged,
    }
}

/// One remote peripheral object's capability model.
pub struct Device {
    pub object_path: Vec<u8>,
    pub introspection: Vec<Vec<u8>>,
    pub features: FeatureSet,
    pub leds: LedSet,
}

impl Device {
    /// The capability-string set, as sequences.
    pub open spec fn entries(self) -> Seq<Seq<u8>> {
        views(self.introspection@)
    }

    /// Well-formed: the feature and LED flags are exactly what the policy
    /// tables derive from the introspection set.
    pub open spec fn wf(self) -> bool {
        &&& forall|f: Feature| feature_flag(self.features, f) == feature_present(self.entries(), f)
        &&& forall|led: LedId| led_flag(self.leds, led) == led_triggered(self.entries(), led)
    }

    /// Builds the capability model for one remote object from the
    /// introspection document it reported.  Fails exactly when the document
    /// does not parse; the derived sets are pure functions of the document.
    pub fn new(object_path: Vec<u8>, introspection_xml: &[u8]) -> (r: Result<Device, Error>)
        ensures
            match r {
                Result::Ok(d) => {
                    &&& spec_introspect(introspection_xml@) == Option::Some(d.entries())
                    &&& d.wf()
                    &&& d.object_path@ == object_path@
                },
                Result::Err(e) => {
                    &&& spec_introspect(introspection_xml@) is None
                    &&& e == Error::IntrospectionParse
                },
            },
    {
        let entries = match parse_introspection(introspection_xml) {
            Result::Ok(es) => es,
            Result::Err(e) => {
                return Result::Err(e);
            },
        };
        let features = derive_features(&entries);
        let leds = derive_leds(&entries);
        Result::Ok(Device { object_path, introspection: entries, features, leds })
    }

    /// The object path this model was built for.
    pub fn object_path(&self) -> (r: &Vec<u8>)
        ensures
            r@ == self.object_path@,
    {
        &self.object_path
    }

    /// Whether the device supports `feature`: a pure lookup, no remote call.
    pub fn has_feature(&self, feature: Feature) -> (r: bool)
        requires
            self.wf(),
        ensures
            r == feature_present(self.entries(), feature),
    {
        match feature {
            Feature::KeyboardLayout => self.features.keyboard_layout,
            Feature::Dpi => self.features.dpi,
            Feature::RestrictedDpi => self.features.restricted_dpi,
            Feature::DpiStages => self.features.dpi_stages,
            Feature::PollRate => self.features.poll_rate,
            Feature::CustomFrame => self.features.custom_frame,
            Feature::Battery => self.features.battery,
            Feature::LowBatteryThreshold => self.features.low_battery_threshold,
            Feature::IdleTime => self.features.idle_time,
        }
    }

    /// Whether the device has the LED `led`: a pure lookup, no remote call.
    pub fn has_led(&self, led: LedId) -> (r: bool)
        requires
            self.wf(),
        ensures
            r == led_triggered(self.entries(), led),
    {
        match led {
            LedId::Unspecified => self.leds.unspecified,
            LedId::LogoLED => self.leds.logo,
            LedId::ScrollWheelLED => self.leds.scroll_wheel,
            LedId::BacklightLED => self.leds.backlight,
            LedId::LeftSideLED => self.leds.left_side,
            LedId::RightSideLED => self.leds.right_side,
            LedId::KeymapRedLED => self.leds.keymap_red,
            LedId::KeymapGreenLED => self.leds.keymap_green,
            LedId::KeymapBlueLED => self.leds.keymap_blue,
            LedId::ChargingLED => self.leds.charging,
            LedId::FastChargingLED => self.leds.fast_charging,
            LedId::FullyChargedLED => self.leds.fully_charged,
        }
    }

    /// Whether the introspection set holds the interface, or the
    /// `"<interface>;<method>"` pair when a method is named.
    pub fn has_capability(&self, interface: &[u8], method: Option<&[u8]>) -> (r: bool)
        ensures
            r == match method {
                Option::Some(m) => self.entries().contains(
                    interface@ + seq![59u8] + m@,
                ),
                Option::None => self.entries().contains(interface@),
            },
    {
        match method {
            Option::Some(m) => {
                let mut key = concat_bytes(interface, &[59u8]);
                proof {
                    assert((&[59u8])@ =~= seq![59u8]);
                }
                key = concat_bytes(key.as_slice(), m);
                contains_bytes(&self.introspection, key.as_slice())
            },
            Option::None => contains_bytes(&self.introspection, interface),
        }
    }

    /// The supported LEDs with their display labels, in the fixed enumeration
    /// order: exactly the LEDs the policy table asserts, each at most once,
    /// each with its label.
    pub fn supported_leds(&self) -> (r: Vec<(LedId, Vec<u8>)>)
        requires
            self.wf(),
        ensures
            forall|i: int|
                0 <= i < r@.len() ==> led_triggered(self.entries(), #[trigger] r@[i].0)
                    && r@[i].1@ == spec_led_label(r@[i].0),
            forall|led: LedId|
                led_triggered(self.entries(), led) ==> exists|i: int|
                    0 <= i < r@.len() && #[trigger] r@[i].0 == led,
            forall|i: int, j: int|
                0 <= i < j < r@.len() ==> led_order(#[trigger] r@[i].0) < led_order(
                    #[trigger] r@[j].0,
                ),
    {
        let leds = all_leds();
        let ghost canon = leds@;
        proof {
            assert(forall|led: LedId| 0 <= #[trigger] led_order(led) < 12);
            assert(forall|led: LedId| canon[#[trigger] led_order(led)] == led);
            assert(forall|i: int| 0 <= i < 12 ==> led_order(#[trigger] canon[i]) == i);
        }
        let mut out: Vec<(LedId, Vec<u8>)> = Vec::new();
        let mut k: usize = 0;
        while k < leds.len()
            invariant
                leds@ == canon,
                canon.len() == 12,
                k <= 12,
                self.wf(),
                forall|led: LedId| 0 <= #[trigger] led_order(led) < 12,
                forall|led: LedId| canon[#[trigger] led_order(led)] == led,
                forall|i: int| 0 <= i < 12 ==> led_order(#[trigger] canon[i]) == i,
                forall|i: int|
                    0 <= i < out@.len() ==> led_triggered(self.entries(), #[trigger] out@[i].0)
                        && out@[i].1@ == spec_led_label(out@[i].0) && led_order(out@[i].0) < k,
                forall|i: int, j: int|
                    0 <= i < j < out@.len() ==> led_order(#[trigger] out@[i].0) < led_order(
                        #[trigger] out@[j].0,
                    ),
                forall|led: LedId|
                    led_order(led) < k && led_triggered(self.entries(), led) ==> exists|i: int|
                        0 <= i < out@.len() && (#[trigger] out@[i]).0 == led,
            decreases 12 - k,
        {
            let led = leds[k];
            proof {
                assert(canon[led_order(led)] == led);
                assert(led_order(led) == k as int);
            }
            let ghost old_out = out@;
            if self.has_led(led) {
                out.push((led, led_label(led)));
            }
            proof {
                assert forall|led2: LedId|
                    led_order(led2) < k + 1 && led_triggered(self.entries(), led2) implies exists|
                    i: int,
                |
                    0 <= i < out@.len() && (#[trigger] out@[i]).0 == led2 by {
                    if led_order(led2) < k {
                        let i = choose|i: int|
                            0 <= i < old_out.len() && (#[trigger] old_out[i]).0 == led2;
                        assert(out@[i].0 == led2);
                    } else {
                        assert(canon[led_order(led2)] == led2);
                        assert(led2 == led);
                        assert(out@[out@.len() - 1].0 == led);
                    }
                }
            }
            k = k + 1;
        }
        out
    }
}

/// Every LED, in the fixed enumeration order.
pub fn all_leds() -> (r: Vec<LedId>)
    ensures
        r@ =~= seq![
            LedId::Unspecified,
            LedId::LogoLED,
            LedId::ScrollWheelLED,
            LedId::BacklightLED,
            LedId::LeftSideLED,
            LedId::RightSideLED,
            LedId::KeymapRedLED,
            LedId::KeymapGreenLED,
            LedId::KeymapBlueLED,
            LedId::ChargingLED,
            LedId::FastChargingLED,
            LedId::FullyChargedLED,
        ],
{
    let mut v: Vec<LedId> = Vec::new();
    v.push(LedId::Unspecified);
    v.push(LedId::LogoLED);
    v.push(LedId::ScrollWheelLED);
    v.push(LedId::BacklightLED);
    v.push(LedId::LeftSideLED);
    v.push(LedId::RightSideLED);
    v.push(LedId::KeymapRedLED);
    v.push(LedId::KeymapGreenLED);
    v.push(LedId::KeymapBlueLED);
    v.push(LedId::ChargingLED);
    v.push(LedId::FastChargingLED);
    v.push(LedId::FullyChargedLED);
    v
}

/// Derives the feature flags from the capability-string set, one fixed
/// lookup per feature.
pub fn derive_features(entries: &Vec<Vec<u8>>) -> (r: FeatureSet)
    ensures
        forall|f: Feature| feature_flag(r, f) == feature_present(views(entries@), f),
{
    FeatureSet {
        keyboard_layout: contains_bytes(entries, cap_keyboard_layout().as_slice()),
        dpi: contains_bytes(entries, cap_set_dpi().as_slice()),
        restricted_dpi: contains_bytes(entries, cap_available_dpi().as_slice()),
        dpi_stages: contains_bytes(entries, cap_set_dpi_stages().as_slice()),
        poll_rate: contains_bytes(entries, cap_set_poll_rate().as_slice()),
        custom_frame: contains_bytes(entries, cap_set_custom().as_slice()),
        battery: contains_bytes(entries, cap_get_battery().as_slice()),
        low_battery_threshold: contains_bytes(
            entries,
            cap_get_low_battery_threshold().as_slice(),
        ),
        idle_time: contains_bytes(entries, cap_get_idle_time().as_slice()),
    }
}

/// Derives the LED flags from the capability-string set: the OR group for
/// the base LED, one fixed lookup for every other LED.
pub fn derive_leds(entries: &Vec<Vec<u8>>) -> (r: LedSet)
    ensures
        forall|led: LedId| led_flag(r, led) == led_triggered(views(entries@), led),
{
    let unspecified = contains_bytes(entries, cap_chroma_set_none().as_slice()) || contains_bytes(
        entries,
        cap_chroma_set_static().as_slice(),
    ) || contains_bytes(entries, cap_lighting_bw2013().as_slice()) || contains_bytes(
        entries,
        cap_lighting_brightness().as_slice(),
    );
    LedSet {
        unspecified,
        logo: contains_bytes(entries, cap_lighting_logo().as_slice()),
        scroll_wheel: contains_bytes(entries, cap_lighting_scroll().as_slice()),
        backlight: contains_bytes(entries, cap_lighting_backlight().as_slice()),
        left_side: contains_bytes(entries, cap_lighting_left().as_slice()),
        right_side: contains_bytes(entries, cap_lighting_right().as_slice()),
        keymap_red: contains_bytes(entries, cap_profile_red().as_slice()),
        keymap_green: contains_bytes(entries, cap_profile_green().as_slice()),
        keymap_blue: contains_bytes(entries, cap_profile_blue().as_slice()),
        charging: contains_bytes(entries, cap_lighting_charging().as_slice()),
        fast_charging: contains_bytes(entries, cap_lighting_fast_charging().as_slice()),
        fully_charged: contains_bytes(entries, cap_lighting_fully_charged().as_slice()),
    }
}

} // verus!
