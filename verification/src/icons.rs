//! Icon selection: which icon family a weather condition belongs to, and
//! which rendition of the family fits the sky and the time of day.
//!
//! The image data itself (one bitmap per family and rendition, in two sizes)
//! lives outside this crate; rendering code looks the chosen identity up in
//! its own tables.

use vstd::prelude::*;

use crate::model::condition_of;
use crate::model::WeatherCondition;
use crate::model::WeatherConditionId;

verus! {

/// The icon families the icon set provides.
#[derive(Clone, Copy, Debug, PartialEq, Eq, Structural)]
pub enum IconKind {
    Clear,
    FewClouds,
    Scattered,
    Snow,
    Rain,
    RainMix,
    Thunderstorm,
    Drizzle,
    Fog,
    Smoke,
    Dust,
    Sand,
    Volcanic,
    Squalls,
    Tornado,
}

/// The rendition of an icon family: cloudy skies win over night, night wins
/// over day, and each has a windy variant.
#[derive(Clone, Copy, Debug, PartialEq, Eq, Structural)]
pub enum IconStyle {
    DayClear,
    DayWindy,
    NightClear,
    NightWindy,
    CloudyClear,
    CloudyWindy,
}

/// The rendition chosen for a sky: cloudy first, then night, then day,
/// windy within each.
pub open spec fn style_of(night: bool, cloudy: bool, windy: bool) -> IconStyle {
    if cloudy {
        if windy {
            IconStyle::CloudyWindy
        } else {
            IconStyle::CloudyClear
        }
    } else if night {
        if windy {
            IconStyle::NightWindy
        } else {
            IconStyle::NightClear
        }
    } else {
        if windy {
            IconStyle::DayWindy
        } else {
            IconStyle::DayClear
        }
    }
}

/// Picks the rendition of an icon family for the given sky.
pub fn get_icon(night: bool, cloudy: bool, windy: bool) -> (r: IconStyle)
    ensures
        r == style_of(night, cloudy, windy),
{
    if cloudy {
        if windy {
            IconStyle::CloudyWindy
        } else {
            IconStyle::CloudyClear
        }
    } else if night {
        if windy {
            IconStyle::NightWindy
        } else {
            IconStyle::NightClear
        }
    } else {
        if windy {
            IconStyle::DayWindy
        } else {
            IconStyle::DayClear
        }
    }
}

/// The icon family each condition is drawn with. Every thunderstorm
/// condition shares the thunderstorm family, sleet conditions use the mixed
/// rain family, haze and mist use fog, and broken or overcast skies use the
/// scattered-clouds family.
pub open spec fn kind_of(condition: WeatherConditionId) -> IconKind {
    match condition {
        WeatherConditionId::ThunderstormWithLightRain => IconKind::Thunderstorm,
        WeatherConditionId::ThunderstormWithRain => IconKind::Thunderstorm,
        WeatherConditionId::ThunderstormWithHeavyRain => IconKind::Thunderstorm,
        WeatherConditionId::LightThunderstorm => IconKind::Thunderstorm,
        WeatherConditionId::Thunderstorm => IconKind::Thunderstorm,
        WeatherConditionId::HeavyThunderstorm => IconKind::Thunderstorm,
        WeatherConditionId::RaggedThunderstorm => IconKind::Thunderstorm,
        WeatherConditionId::ThunderstormWithLightDrizzle => IconKind::Thunderstorm,
        WeatherConditionId::ThunderstormWithDrizzle => IconKind::Thunderstorm,
        WeatherConditionId::ThunderstormWithHeavyDrizzle => IconKind::Thunderstorm,
        WeatherConditionId::LightIntensityDrizzle => IconKind::Drizzle,
        WeatherConditionId::Drizzle => IconKind::Drizzle,
        WeatherConditionId::HeavyIntensityDrizzle => IconKind::Drizzle,
        WeatherConditionId::LightIntensityDrizzleRain => IconKind::Drizzle,
        WeatherConditionId::DrizzleRain => IconKind::Drizzle,
        WeatherConditionId::HeavyIntensityDrizzleRain => IconKind::Drizzle,
        WeatherConditionId::ShowerRainAndDrizzle => IconKind::Drizzle,
        WeatherConditionId::HeavyShowerRainAndDrizzle => IconKind::Drizzle,
        WeatherConditionId::ShowerDrizzle => IconKind::Drizzle,
        WeatherConditionId::LightRain => IconKind::Rain,
        WeatherConditionId::ModerateRain => IconKind::Rain,
        WeatherConditionId::HeavyIntensityRain => IconKind::Rain,
        WeatherConditionId::VeryHeavyRain => IconKind::Rain,
        WeatherConditionId::ExtremeRain => IconKind::Rain,
        WeatherConditionId::FreezingRain => IconKind::Rain,
        WeatherConditionId::LightIntensityShowerRain => IconKind::Rain,
        WeatherConditionId::ShowerRain => IconKind::Rain,
        WeatherConditionId::HeavyIntensityShowerRain => IconKind::Rain,
        WeatherConditionId::RaggedShowerRain => IconKind::Rain,
        WeatherConditionId::LightSnow => IconKind::Snow,
        WeatherConditionId::Snow => IconKind::Snow,
        WeatherConditionId::HeavySnow => IconKind::Snow,
        WeatherConditionId::Sleet => IconKind::RainMix,
        WeatherConditionId::LightShowerSleet => IconKind::RainMix,
        WeatherConditionId::ShowerSleet => IconKind::RainMix,
        WeatherConditionId::LightRainAndSnow => IconKind::RainMix,
        WeatherConditionId::RainAndSnow => IconKind::RainMix,
        WeatherConditionId::LightShowerSnow => IconKind::Snow,
        WeatherConditionId::ShowerSnow => IconKind::Snow,
        WeatherConditionId::HeavyShowerSnow => IconKind::Snow,
        WeatherConditionId::Mist => IconKind::Fog,
        WeatherConditionId::Smoke => IconKind::Smoke,
        WeatherConditionId::Haze => IconKind::Fog,
        WeatherConditionId::SandOrDustWhirls => IconKind::Sand,
        WeatherConditionId::Fog => IconKind::Fog,
        WeatherConditionId::Sand => IconKind::Sand,
        WeatherConditionId::Dust => IconKind::Dust,
        WeatherConditionId::VolcanicAsh => IconKind::Volcanic,
        WeatherConditionId::Squalls => IconKind::Squalls,
        WeatherConditionId::Tornado => IconKind::Tornado,
        WeatherConditionId::ClearSky => IconKind::Clear,
        WeatherConditionId::FewClouds => IconKind::FewClouds,
        WeatherConditionId::ScatteredClouds => IconKind::Scattered,
        WeatherConditionId::BrokenClouds => IconKind::Scattered,
        WeatherConditionId::OvercastClouds => IconKind::Scattered,
    }
}

/// Selects the icon for a condition and sky: the family of the condition in
/// the rendition of the sky.
pub fn get_icon_for_condition(
    condition: WeatherConditionId,
    is_cloudy: bool,
    is_windy: bool,
    is_night: bool,
) -> (r: (IconKind, IconStyle))
    ensures
        r.0 == kind_of(condition),
        r.1 == style_of(is_night, is_cloudy, is_windy),
{
    let kind = match condition {
        WeatherConditionId::ThunderstormWithLightRain => IconKind::Thunderstorm,
        WeatherConditionId::ThunderstormWithRain => IconKind::Thunderstorm,
        WeatherConditionId::ThunderstormWithHeavyRain => IconKind::Thunderstorm,
        WeatherConditionId::LightThunderstorm => IconKind::Thunderstorm,
        WeatherConditionId::Thunderstorm => IconKind::Thunderstorm,
        WeatherConditionId::HeavyThunderstorm => IconKind::Thunderstorm,
        WeatherConditionId::RaggedThunderstorm => IconKind::Thunderstorm,
        WeatherConditionId::ThunderstormWithLightDrizzle => IconKind::Thunderstorm,
        WeatherConditionId::ThunderstormWithDrizzle => IconKind::Thunderstorm,
        WeatherConditionId::ThunderstormWithHeavyDrizzle => IconKind::Thunderstorm,
        WeatherConditionId::LightIntensityDrizzle => IconKind::Drizzle,
        WeatherConditionId::Drizzle => IconKind::Drizzle,
        WeatherConditionId::HeavyIntensityDrizzle => IconKind::Drizzle,
        WeatherConditionId::LightIntensityDrizzleRain => IconKind::Drizzle,
        WeatherConditionId::DrizzleRain => IconKind::Drizzle,
        WeatherConditionId::HeavyIntensityDrizzleRain => IconKind::Drizzle,
        WeatherConditionId::ShowerRainAndDrizzle => IconKind::Drizzle,
        WeatherConditionId::HeavyShowerRainAndDrizzle => IconKind::Drizzle,
        WeatherConditionId::ShowerDrizzle => IconKind::Drizzle,
        WeatherConditionId::LightRain => IconKind::Rain,
        WeatherConditionId::ModerateRain => IconKind::Rain,
        WeatherConditionId::HeavyIntensityRain => IconKind::Rain,
        WeatherConditionId::VeryHeavyRain => IconKind::Rain,
        WeatherConditionId::ExtremeRain => IconKind::Rain,
        WeatherConditionId::FreezingRain => IconKind::Rain,
        WeatherConditionId::LightIntensityShowerRain => IconKind::Rain,
        WeatherConditionId::ShowerRain => IconKind::Rain,
        WeatherConditionId::HeavyIntensityShowerRain => IconKind::Rain,
        WeatherConditionId::RaggedShowerRain => IconKind::Rain,
        WeatherConditionId::LightSnow => IconKind::Snow,
        WeatherConditionId::Snow => IconKind::Snow,
        WeatherConditionId::HeavySnow => IconKind::Snow,
        WeatherConditionId::Sleet => IconKind::RainMix,
        WeatherConditionId::LightShowerSleet => IconKind::RainMix,
        WeatherConditionId::ShowerSleet => IconKind::RainMix,
        WeatherConditionId::LightRainAndSnow => IconKind::RainMix,
        WeatherConditionId::RainAndSnow => IconKind::RainMix,
        WeatherConditionId::LightShowerSnow => IconKind::Snow,
        WeatherConditionId::ShowerSnow => IconKind::Snow,
        WeatherConditionId::HeavyShowerSnow => IconKind::Snow,
        WeatherConditionId::Mist => IconKind::Fog,
        WeatherConditionId::Smoke => IconKind::Smoke,
        WeatherConditionId::Haze => IconKind::Fog,
        WeatherConditionId::SandOrDustWhirls => IconKind::Sand,
        WeatherConditionId::Fog => IconKind::Fog,
        WeatherConditionId::Sand => IconKind::Sand,
        WeatherConditionId::Dust => IconKind::Dust,
        WeatherConditionId::VolcanicAsh => IconKind::Volcanic,
        WeatherConditionId::Squalls => IconKind::Squalls,
        WeatherConditionId::Tornado => IconKind::Tornado,
        WeatherConditionId::ClearSky => IconKind::Clear,
        WeatherConditionId::FewClouds => IconKind::FewClouds,
        WeatherConditionId::ScatteredClouds => IconKind::Scattered,
        WeatherConditionId::BrokenClouds => IconKind::Scattered,
        WeatherConditionId::OvercastClouds => IconKind::Scattered,
    };
    (kind, get_icon(is_night, is_cloudy, is_windy))
}

/// The condition a report's code selects, with clear sky standing in for
/// codes outside the known table.
pub open spec fn condition_or_clear(id: u16) -> WeatherConditionId {
    match condition_of(id) {
        Some(c) => c,
        None => WeatherConditionId::ClearSky,
    }
}

/// Selects the icon for the current weather: the condition's family, in the
/// rendition given by cloud cover, wind and the time of day. Whether the
/// wind counts as windy is the caller's reading of the wind speeds.
pub fn get_icon_for_current_weather(
    condition: &WeatherCondition,
    clouds: u8,
    is_windy: bool,
    dt: u64,
    sunrise: u64,
    sunset: u64,
) -> (r: (IconKind, IconStyle))
    ensures
        r.0 == kind_of(condition_or_clear(condition.id)),
        r.1 == style_of(dt >= sunset || dt <= sunrise, clouds >= 60, is_windy),
{
    let cloudy = is_cloudy(clouds);
    let night = is_night(dt, sunrise, sunset);
    let cond = match condition.get_condition() {
        Some(c) => c,
        None => WeatherConditionId::ClearSky,
    };
    get_icon_for_condition(cond, cloudy, is_windy, night)
}

/// Selects the icon for a daily forecast: as for the current weather, but a
/// forecast day is always drawn in its daytime rendition.
pub fn get_icon_for_daily_forecast(condition: &WeatherCondition, clouds: u8, is_windy: bool) -> (r:
    (IconKind, IconStyle))
    ensures
        r.0 == kind_of(condition_or_clear(condition.id)),
        r.1 == style_of(false, clouds >= 60, is_windy),
{
    let cloudy = is_cloudy(clouds);
    let cond = match condition.get_condition() {
        Some(c) => c,
        None => WeatherConditionId::ClearSky,
    };
    get_icon_for_condition(cond, cloudy, is_windy, false)
}

/// A sky counts as cloudy from sixty percent cloud cover up.
pub fn is_cloudy(clouds: u8) -> (r: bool)
    ensures
        r == (clouds >= 60),
{
    clouds >= 60
}

/// It is night outside the sunrise-to-sunset window of the report's day.
pub fn is_night(dt: u64, sunrise: u64, sunset: u64) -> (r: bool)
    ensures
        r == (dt >= sunset || dt <= sunrise),
{
    dt >= sunset || dt <= sunrise
}

} // verus!
