use vstd::prelude::*;

verus! {

/// A DPI setting.  `dpi_y == 0` is a sentinel meaning the device reports only
/// one DPI axis.
#[derive(Clone, Copy, Debug, PartialEq, Eq, Structural)]
pub struct Dpi {
    pub dpi_x: u16,
    pub dpi_y: u16,
}

/// One pixel of a custom lighting frame.
#[derive(Clone, Copy, Debug, PartialEq, Eq, Structural)]
pub struct Rgb {
    pub r: u8,
    pub g: u8,
    pub b: u8,
}

/// The size of a device's addressable lighting matrix.
#[derive(Clone, Copy, Debug, PartialEq, Eq, Structural)]
pub struct MatrixDimensions {
    pub rows: u8,
    pub columns: u8,
}

/// The closed set of physical light zones a peripheral can report.
#[derive(Clone, Copy, Debug, PartialEq, Eq, Hash, Structural)]
pub enum LedId {
    Unspecified,
    LogoLED,
    ScrollWheelLED,
    BacklightLED,
    LeftSideLED,
    RightSideLED,
    KeymapRedLED,
    KeymapGreenLED,
    KeymapBlueLED,
    ChargingLED,
    FastChargingLED,
    FullyChargedLED,
}

/// The closed set of boolean device features derived from introspection.
#[derive(Clone, Copy, Debug, PartialEq, Eq, Hash, Structural)]
pub enum Feature {
    KeyboardLayout,
    Dpi,
    RestrictedDpi,
    DpiStages,
    PollRate,
    CustomFrame,
    Battery,
    LowBatteryThreshold,
    IdleTime,
}

} // verus!
