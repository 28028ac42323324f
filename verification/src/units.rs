//! Measurement units reported alongside the weather fields. The `units`
//! sub-tree of a report names the unit for each measured quantity; absent or
//! unrecognised entries fall back to the metric-leaning defaults.

use vstd::prelude::*;

use crate::report::{spec_get, spec_text_at, ReportValue};
use crate::text::{eq_ignore_ascii_case, str_chars, chars_eq_ignore_case};

verus! {

/// Unit of a pressure value.
#[derive(Debug, Clone, Copy, PartialEq, Eq, Structural)]
pub enum PressureUnit {
    Hpa,
    Inhg,
}

/// Unit of an altitude value.
#[derive(Debug, Clone, Copy, PartialEq, Eq, Structural)]
pub enum AltitudeUnit {
    Ft,
    M,
}

/// Unit of a speed value.
#[derive(Debug, Clone, Copy, PartialEq, Eq, Structural)]
pub enum SpeedUnit {
    Kt,
    Kph,
    Mph,
}

/// Unit of a temperature value.
#[derive(Debug, Clone, Copy, PartialEq, Eq, Structural)]
pub enum TemperatureUnit {
    C,
    F,
}

/// Unit of a visibility distance.
#[derive(Debug, Clone, Copy, PartialEq, Eq, Structural)]
pub enum DistanceUnit {
    M,
    Nm,
    Mi,
    Km,
}

/// The pressure unit a report names, hectopascals when unrecognised.
pub open spec fn pressure_unit_from(s: Seq<char>) -> PressureUnit {
    if eq_ignore_ascii_case(s, "hpa"@) {
        PressureUnit::Hpa
    } else if eq_ignore_ascii_case(s, "inhg"@) {
        PressureUnit::Inhg
    } else {
        PressureUnit::Hpa
    }
}

/// The altitude unit a report names, feet when unrecognised.
pub open spec fn altitude_unit_from(s: Seq<char>) -> AltitudeUnit {
    if eq_ignore_ascii_case(s, "ft"@) {
        AltitudeUnit::Ft
    } else if eq_ignore_ascii_case(s, "m"@) {
        AltitudeUnit::M
    } else {
        AltitudeUnit::Ft
    }
}

/// The speed unit a report names, knots when unrecognised.
pub open spec fn speed_unit_from(s: Seq<char>) -> SpeedUnit {
    if eq_ignore_ascii_case(s, "kt"@) {
        SpeedUnit::Kt
    } else if eq_ignore_ascii_case(s, "kph"@) {
        SpeedUnit::Kph
    } else if eq_ignore_ascii_case(s, "mph"@) {
        SpeedUnit::Mph
    } else {
        SpeedUnit::Kt
    }
}

/// The temperature unit a report names, Celsius when unrecognised.
pub open spec fn temperature_unit_from(s: Seq<char>) -> TemperatureUnit {
    if eq_ignore_ascii_case(s, "c"@) {
        TemperatureUnit::C
    } else if eq_ignore_ascii_case(s, "f"@) {
        TemperatureUnit::F
    } else {
        TemperatureUnit::C
    }
}

/// The distance unit a report names, metres when unrecognised.
pub open spec fn distance_unit_from(s: Seq<char>) -> DistanceUnit {
    if eq_ignore_ascii_case(s, "m"@) {
        DistanceUnit::M
    } else if eq_ignore_ascii_case(s, "nm"@) {
        DistanceUnit::Nm
    } else if eq_ignore_ascii_case(s, "mi"@) {
        DistanceUnit::Mi
    } else if eq_ignore_ascii_case(s, "km"@) {
        DistanceUnit::Km
    } else {
        DistanceUnit::M
    }
}

impl PressureUnit {
    /// Parse a unit name, case-insensitively, defaulting to hectopascals.
    pub fn from_str(value: &str) -> (r: Self)
        ensures
            r == pressure_unit_from(value@),
    {
        let v = str_chars(value);
        if chars_eq_ignore_case(&v, &str_chars("hpa")) {
            PressureUnit::Hpa
        } else if chars_eq_ignore_case(&v, &str_chars("inhg")) {
            PressureUnit::Inhg
        } else {
            PressureUnit::Hpa
        }
    }
}

impl Default for PressureUnit {
    fn default() -> (r: Self)
        ensures
            r == PressureUnit::Hpa,
    {
        PressureUnit::Hpa
    }
}

impl AltitudeUnit {
    /// Parse a unit name, case-insensitively, defaulting to feet.
    pub fn from_str(value: &str) -> (r: Self)
        ensures
            r == altitude_unit_from(value@),
    {
        let v = str_chars(value);
        if chars_eq_ignore_case(&v, &str_chars("ft")) {
            AltitudeUnit::Ft
        } else if chars_eq_ignore_case(&v, &str_chars("m")) {
            AltitudeUnit::M
        } else {
            AltitudeUnit::Ft
        }
    }
}

impl Default for AltitudeUnit {
    fn default() -> (r: Self)
        ensures
            r == AltitudeUnit::Ft,
    {
        AltitudeUnit::Ft
    }
}

impl SpeedUnit {
    /// Parse a unit name, case-insensitively, defaulting to knots.
    pub fn from_str(value: &str) -> (r: Self)
        ensures
            r == speed_unit_from(value@),
    {
        let v = str_chars(value);
        if chars_eq_ignore_case(&v, &str_chars("kt")) {
            SpeedUnit::Kt
        } else if chars_eq_ignore_case(&v, &str_chars("kph")) {
            SpeedUnit::Kph
        } else if chars_eq_ignore_case(&v, &str_chars("mph")) {
            SpeedUnit::Mph
        } else {
            SpeedUnit::Kt
        }
    }
}

impl Default for SpeedUnit {
    fn default() -> (r: Self)
        ensures
            r == SpeedUnit::Kt,
    {
        SpeedUnit::Kt
    }
}

impl TemperatureUnit {
    /// Parse a unit name, case-insensitively, defaulting to Celsius.
    pub fn from_str(value: &str) -> (r: Self)
        ensures
            r == temperature_unit_from(value@),
    {
        let v = str_chars(value);
        if chars_eq_ignore_case(&v, &str_chars("c")) {
            TemperatureUnit::C
        } else if chars_eq_ignore_case(&v, &str_chars("f")) {
            TemperatureUnit::F
        } else {
            TemperatureUnit::C
        }
    }
}

impl Default for TemperatureUnit {
    fn default() -> (r: Self)
        ensures
            r == TemperatureUnit::C,
    {
        TemperatureUnit::C
    }
}

impl DistanceUnit {
    /// Parse a unit name, case-insensitively, defaulting to metres.
    pub fn from_str(value: &str) -> (r: Self)
        ensures
            r == distance_unit_from(value@),
    {
        let v = str_chars(value);
        if chars_eq_ignore_case(&v, &str_chars("m")) {
            DistanceUnit::M
        } else if chars_eq_ignore_case(&v, &str_chars("nm")) {
            DistanceUnit::Nm
        } else if chars_eq_ignore_case(&v, &str_chars("mi")) {
            DistanceUnit::Mi
        } else if chars_eq_ignore_case(&v, &str_chars("km")) {
            DistanceUnit::Km
        } else {
            DistanceUnit::M
        }
    }
}

impl Default for DistanceUnit {
    fn default() -> (r: Self)
        ensures
            r == DistanceUnit::M,
    {
        DistanceUnit::M
    }
}

/// The resolved unit for each measured quantity of a report.
#[derive(Debug, Clone, Copy, PartialEq, Eq, Structural)]
pub struct Units {
    pub pressure: PressureUnit,
    pub altitude: AltitudeUnit,
    pub wind_speed: SpeedUnit,
    pub temperature: TemperatureUnit,
    pub distance: DistanceUnit,
}

impl Default for Units {
    fn default() -> (r: Self)
        ensures
            r == spec_default_units(),
    {
        Units {
            pressure: PressureUnit::Hpa,
            altitude: AltitudeUnit::Ft,
            wind_speed: SpeedUnit::Kt,
            temperature: TemperatureUnit::C,
            distance: DistanceUnit::M,
        }
    }
}

/// The default unit set: hectopascals, feet, knots, Celsius, metres.
pub open spec fn spec_default_units() -> Units {
    Units {
        pressure: PressureUnit::Hpa,
        altitude: AltitudeUnit::Ft,
        wind_speed: SpeedUnit::Kt,
        temperature: TemperatureUnit::C,
        distance: DistanceUnit::M,
    }
}

/// The units a report resolves to: each named and recognised entry of its
/// `units` sub-tree, the default for the rest.
pub open spec fn spec_units_from(json: ReportValue) -> Units {
    if spec_get(json, "units"@) is Some {
        Units {
            pressure: (match spec_text_at(json, "units"@, "altimeter"@) {
                Option::Some(s) => pressure_unit_from(s),
                Option::None => PressureUnit::Hpa,
            }),
            altitude: (match spec_text_at(json, "units"@, "altitude"@) {
                Option::Some(s) => altitude_unit_from(s),
                Option::None => AltitudeUnit::Ft,
            }),
            wind_speed: (match spec_text_at(json, "units"@, "wind_speed"@) {
                Option::Some(s) => speed_unit_from(s),
                Option::None => SpeedUnit::Kt,
            }),
            temperature: (match spec_text_at(json, "units"@, "temperature"@) {
                Option::Some(s) => temperature_unit_from(s),
                Option::None => TemperatureUnit::C,
            }),
            distance: (match spec_text_at(json, "units"@, "visibility"@) {
                Option::Some(s) => distance_unit_from(s),
                Option::None => DistanceUnit::M,
            }),
        }
    } else {
        spec_default_units()
    }
}

impl Units {
    /// Resolve the unit set of a report from its `units` sub-tree.
    pub fn from_json(json: &ReportValue) -> (r: Self)
        ensures
            r == spec_units_from(*json),
    {
        match json.get("units") {
            Option::Some(_) => {
                let pressure = match json.text_at("units", "altimeter") {
                    Option::Some(s) => PressureUnit::from_str(s.as_str()),
                    Option::None => PressureUnit::Hpa,
                };
                let altitude = match json.text_at("units", "altitude") {
                    Option::Some(s) => AltitudeUnit::from_str(s.as_str()),
                    Option::None => AltitudeUnit::Ft,
                };
                let wind_speed = match json.text_at("units", "wind_speed") {
                    Option::Some(s) => SpeedUnit::from_str(s.as_str()),
                    Option::None => SpeedUnit::Kt,
                };
                let temperature = match json.text_at("units", "temperature") {
                    Option::Some(s) => TemperatureUnit::from_str(s.as_str()),
                    Option::None => TemperatureUnit::C,
                };
                let distance = match json.text_at("units", "visibility") {
                    Option::Some(s) => DistanceUnit::from_str(s.as_str()),
                    Option::None => DistanceUnit::M,
                };
                Units { pressure, altitude, wind_speed, temperature, distance }
            },
            Option::None => Units::default(),
        }
    }
}

} // verus!
