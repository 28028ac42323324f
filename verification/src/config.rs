//! Threshold configuration and the requested position. The configuration is
//! built once per invocation — defaults overlaid with operator overrides —
//! and passed by reference into every colourising function; durations are
//! held in whole seconds.

use vstd::prelude::*;

verus! {

/// A coordinate pair in millionths of a degree (latitude, longitude).
#[derive(Clone, Copy, Debug, PartialEq, Eq, Structural)]
pub struct LatLong(pub i64, pub i64);

/// Where the operator asked for a report: a named airfield, the position
/// derived from the caller's network address, or an explicit coordinate.
#[derive(Debug, PartialEq, Eq)]
pub enum Position {
    Airfield(String),
    GeoIP,
    LatLong(LatLong),
}

/// Mathematical model of a position: the airfield name as a character
/// sequence, or one of the two station-free kinds.
pub enum PositionModel {
    Airfield(Seq<char>),
    GeoIP,
    LatLong(LatLong),
}

impl View for Position {
    type V = PositionModel;

    open spec fn view(&self) -> PositionModel {
        match self {
            Position::Airfield(name) => PositionModel::Airfield(name@),
            Position::GeoIP => PositionModel::GeoIP,
            Position::LatLong(coord) => PositionModel::LatLong(*coord),
        }
    }
}

impl Clone for Position {
    fn clone(&self) -> (r: Self)
        ensures
            r@ == self@,
    {
        match self {
            Position::Airfield(name) => Position::Airfield(name.clone()),
            Position::GeoIP => Position::GeoIP,
            Position::LatLong(coord) => Position::LatLong(*coord),
        }
    }
}

/// Severity thresholds plus the requested position. Heights are flight
/// levels, speeds knots, ages seconds, visibilities metres.
#[derive(Clone, Debug, PartialEq, Eq)]
pub struct Config {
    pub position: Position,
    pub cloud_minimum: i64,
    pub cloud_marginal: i64,
    pub temp_minimum: i64,
    pub spread_minimum: i64,
    pub wind_var_maximum: i64,
    pub wind_maximum: i64,
    pub gust_maximum: i64,
    pub age_maximum: i64,
    pub age_marginal: i64,
    pub visibility_minimum: i64,
    pub visibility_marginal: i64,
    pub show_change_times: bool,
}

/// The built-in defaults, before any override.
pub open spec fn default_config() -> Config {
    Config {
        position: Position::GeoIP,
        cloud_minimum: 6,
        cloud_marginal: 15,
        temp_minimum: 0,
        spread_minimum: 3,
        wind_var_maximum: 45,
        wind_maximum: 15,
        gust_maximum: 10,
        age_maximum: 21600,
        age_marginal: 3600,
        visibility_minimum: 1500,
        visibility_marginal: 5000,
        show_change_times: true,
    }
}

impl Default for Config {
    /// The built-in defaults: report for the network-derived position, six
    /// hours maximum age, one hour marginal age.
    fn default() -> (r: Config)
        ensures
            r == default_config(),
    {
        Config {
            position: Position::GeoIP,
            cloud_minimum: 6,
            cloud_marginal: 15,
            temp_minimum: 0,
            spread_minimum: 3,
            wind_var_maximum: 45,
            wind_maximum: 15,
            gust_maximum: 10,
            age_maximum: 21600,
            age_marginal: 3600,
            visibility_minimum: 1500,
            visibility_marginal: 5000,
            show_change_times: true,
        }
    }
}

/// Operator overrides for the configuration: any field left `None` keeps its
/// default.
#[derive(Clone, Debug, PartialEq, Eq, Default)]
pub struct ConfigOverrides {
    pub position: Option<Position>,
    pub cloud_minimum: Option<i64>,
    pub cloud_marginal: Option<i64>,
    pub temp_minimum: Option<i64>,
    pub spread_minimum: Option<i64>,
    pub wind_var_maximum: Option<i64>,
    pub wind_maximum: Option<i64>,
    pub gust_maximum: Option<i64>,
    pub age_maximum: Option<i64>,
    pub age_marginal: Option<i64>,
    pub visibility_minimum: Option<i64>,
    pub visibility_marginal: Option<i64>,
    pub show_change_times: Option<bool>,
}

/// Pick the override when present, the default otherwise.
pub open spec fn overlaid<T>(over: Option<T>, dflt: T) -> T {
    match over {
        Option::Some(v) => v,
        Option::None => dflt,
    }
}

impl Config {
    /// The defaults overlaid with the given overrides, field by field.
    pub fn with_overrides(overrides: &ConfigOverrides) -> (r: Config)
        ensures
            r.position@ == (match overrides.position {
                Option::Some(p) => p@,
                Option::None => PositionModel::GeoIP,
            }),
            r.cloud_minimum == overlaid(overrides.cloud_minimum, default_config().cloud_minimum),
            r.cloud_marginal == overlaid(
                overrides.cloud_marginal,
                default_config().cloud_marginal,
            ),
            r.temp_minimum == overlaid(overrides.temp_minimum, default_config().temp_minimum),
            r.spread_minimum == overlaid(
                overrides.spread_minimum,
                default_config().spread_minimum,
            ),
            r.wind_var_maximum == overlaid(
                overrides.wind_var_maximum,
                default_config().wind_var_maximum,
            ),
            r.wind_maximum == overlaid(overrides.wind_maximum, default_config().wind_maximum),
            r.gust_maximum == overlaid(overrides.gust_maximum, default_config().gust_maximum),
            r.age_maximum == overlaid(overrides.age_maximum, default_config().age_maximum),
            r.age_marginal == overlaid(overrides.age_marginal, default_config().age_marginal),
            r.visibility_minimum == overlaid(
                overrides.visibility_minimum,
                default_config().visibility_minimum,
            ),
            r.visibility_marginal == overlaid(
                overrides.visibility_marginal,
                default_config().visibility_marginal,
            ),
            r.show_change_times == overlaid(
                overrides.show_change_times,
                default_config().show_change_times,
            ),
    {
        let mut config = Config::default();
        if let Option::Some(p) = &overrides.position {
            config.position = p.clone();
        }
        if let Option::Some(v) = overrides.cloud_minimum {
            config.cloud_minimum = v;
        }
        if let Option::Some(v) = overrides.cloud_marginal {
            config.cloud_marginal = v;
        }
        if let Option::Some(v) = overrides.temp_minimum {
            config.temp_minimum = v;
        }
        if let Option::Some(v) = overrides.spread_minimum {
            config.spread_minimum = v;
        }
        if let Option::Some(v) = overrides.wind_var_maximum {
            config.wind_var_maximum = v;
        }
        if let Option::Some(v) = overrides.wind_maximum {
            config.wind_maximum = v;
        }
        if let Option::Some(v) = overrides.gust_maximum {
            config.gust_maximum = v;
        }
        if let Option::Some(v) = overrides.age_maximum {
            config.age_maximum = v;
        }
        if let Option::Some(v) = overrides.age_marginal {
            config.age_marginal = v;
        }
        if let Option::Some(v) = overrides.visibility_minimum {
            config.visibility_minimum = v;
        }
        if let Option::Some(v) = overrides.visibility_marginal {
            config.visibility_marginal = v;
        }
        if let Option::Some(v) = overrides.show_change_times {
            config.show_change_times = v;
        }
        config
    }
}

} // verus!
