//! Weather condition model: the numeric condition codes a weather report
//! carries and their closed classification.

use vstd::prelude::*;

verus! {

/// One reported weather condition: a numeric code plus free-form labels.
#[derive(Debug)]
pub struct WeatherCondition {
    pub id: u16,
    pub main: String,
    pub description: String,
    pub icon: String,
}

/// A weather alert attached to a report.
#[derive(Debug)]
pub struct Alert {
    pub sender_name: String,
    pub event: String,
    pub start: u64,
    pub end: u64,
    pub description: String,
    pub tags: Vec<String>,
}

/// The closed set of known weather conditions.
#[derive(Clone, Copy, Debug, PartialEq, Eq, Structural)]
pub enum WeatherConditionId {
    ThunderstormWithLightRain,
    ThunderstormWithRain,
    ThunderstormWithHeavyRain,
    LightThunderstorm,
    Thunderstorm,
    HeavyThunderstorm,
    RaggedThunderstorm,
    ThunderstormWithLightDrizzle,
    ThunderstormWithDrizzle,
    ThunderstormWithHeavyDrizzle,
    LightIntensityDrizzle,
    Drizzle,
    HeavyIntensityDrizzle,
    LightIntensityDrizzleRain,
    DrizzleRain,
    HeavyIntensityDrizzleRain,
    ShowerRainAndDrizzle,
    HeavyShowerRainAndDrizzle,
    ShowerDrizzle,
    LightRain,
    ModerateRain,
    HeavyIntensityRain,
    VeryHeavyRain,
    ExtremeRain,
    FreezingRain,
    LightIntensityShowerRain,
    ShowerRain,
    HeavyIntensityShowerRain,
    RaggedShowerRain,
    LightSnow,
    Snow,
    HeavySnow,
    Sleet,
    LightShowerSleet,
    ShowerSleet,
    LightRainAndSnow,
    RainAndSnow,
    LightShowerSnow,
    ShowerSnow,
    HeavyShowerSnow,
    Mist,
    Smoke,
    Haze,
    SandOrDustWhirls,
    Fog,
    Sand,
    Dust,
    VolcanicAsh,
    Squalls,
    Tornado,
    ClearSky,
    FewClouds,
    ScatteredClouds,
    BrokenClouds,
    OvercastClouds,
}

/// The condition a numeric code stands for; codes outside the table are
/// unknown and map to none.
pub open spec fn condition_of(id: u16) -> Option<WeatherConditionId> {
    match id {
        200u16 => Some(WeatherConditionId::ThunderstormWithLightRain),
        201u16 => Some(WeatherConditionId::ThunderstormWithRain),
        202u16 => Some(WeatherConditionId::ThunderstormWithHeavyRain),
        210u16 => Some(WeatherConditionId::LightThunderstorm),
        211u16 => Some(WeatherConditionId::Thunderstorm),
        212u16 => Some(WeatherConditionId::HeavyThunderstorm),
        221u16 => Some(WeatherConditionId::RaggedThunderstorm),
        230u16 => Some(WeatherConditionId::ThunderstormWithLightDrizzle),
        231u16 => Some(WeatherConditionId::ThunderstormWithDrizzle),
        232u16 => Some(WeatherConditionId::ThunderstormWithHeavyDrizzle),
        300u16 => Some(WeatherConditionId::LightIntensityDrizzle),
        301u16 => Some(WeatherConditionId::Drizzle),
        302u16 => Some(WeatherConditionId::HeavyIntensityDrizzle),
        310u16 => Some(WeatherConditionId::LightIntensityDrizzleRain),
        311u16 => Some(WeatherConditionId::DrizzleRain),
        312u16 => Some(WeatherConditionId::HeavyIntensityDrizzleRain),
        313u16 => Some(WeatherConditionId::ShowerRainAndDrizzle),
        314u16 => Some(WeatherConditionId::HeavyShowerRainAndDrizzle),
        321u16 => Some(WeatherConditionId::ShowerDrizzle),
        500u16 => Some(WeatherConditionId::LightRain),
        501u16 => Some(WeatherConditionId::ModerateRain),
        502u16 => Some(WeatherConditionId::HeavyIntensityRain),
        503u16 => Some(WeatherConditionId::VeryHeavyRain),
        504u16 => Some(WeatherConditionId::ExtremeRain),
        511u16 => Some(WeatherConditionId::FreezingRain),
        520u16 => Some(WeatherConditionId::LightIntensityShowerRain),
        521u16 => Some(WeatherConditionId::ShowerRain),
        522u16 => Some(WeatherConditionId::HeavyIntensityShowerRain),
        531u16 => Some(WeatherConditionId::RaggedShowerRain),
        600u16 => Some(WeatherConditionId::LightSnow),
        601u16 => Some(WeatherConditionId::Snow),
        602u16 => Some(WeatherConditionId::HeavySnow),
        611u16 => Some(WeatherConditionId::Sleet),
        612u16 => Some(WeatherConditionId::LightShowerSleet),
        613u16 => Some(WeatherConditionId::ShowerSleet),
        615u16 => Some(WeatherConditionId::LightRainAndSnow),
        616u16 => Some(WeatherConditionId::RainAndSnow),
        620u16 => Some(WeatherConditionId::LightShowerSnow),
        621u16 => Some(WeatherConditionId::ShowerSnow),
        622u16 => Some(WeatherConditionId::HeavyShowerSnow),
        701u16 => Some(WeatherConditionId::Mist),
        711u16 => Some(WeatherConditionId::Smoke),
        721u16 => Some(WeatherConditionId::Haze),
        731u16 => Some(WeatherConditionId::SandOrDustWhirls),
        741u16 => Some(WeatherConditionId::Fog),
        751u16 => Some(WeatherConditionId::Sand),
        761u16 => Some(WeatherConditionId::Dust),
        762u16 => Some(WeatherConditionId::VolcanicAsh),
        771u16 => Some(WeatherConditionId::Squalls),
        781u16 => Some(WeatherConditionId::Tornado),
        800u16 => Some(WeatherConditionId::ClearSky),
        801u16 => Some(WeatherConditionId::FewClouds),
        802u16 => Some(WeatherConditionId::ScatteredClouds),
        803u16 => Some(WeatherConditionId::BrokenClouds),
        804u16 => Some(WeatherConditionId::OvercastClouds),
        _ => None,
    }
}

impl WeatherCondition {
    /// Classifies this condition's numeric code; unknown codes give none.
    pub fn get_condition(&self) -> (r: Option<WeatherConditionId>)
        ensures
            r == condition_of(self.id),
    {
        match self.id {
            200 => Some(WeatherConditionId::ThunderstormWithLightRain),
            201 => Some(WeatherConditionId::ThunderstormWithRain),
            202 => Some(WeatherConditionId::ThunderstormWithHeavyRain),
            210 => Some(WeatherConditionId::LightThunderstorm),
            211 => Some(WeatherConditionId::Thunderstorm),
            212 => Some(WeatherConditionId::HeavyThunderstorm),
            221 => Some(WeatherConditionId::RaggedThunderstorm),
            230 => Some(WeatherConditionId::ThunderstormWithLightDrizzle),
            231 => Some(WeatherConditionId::ThunderstormWithDrizzle),
            232 => Some(WeatherConditionId::ThunderstormWithHeavyDrizzle),
            300 => Some(WeatherConditionId::LightIntensityDrizzle),
            301 => Some(WeatherConditionId::Drizzle),
            302 => Some(WeatherConditionId::HeavyIntensityDrizzle),
            310 => Some(WeatherConditionId::LightIntensityDrizzleRain),
            311 => Some(WeatherConditionId::DrizzleRain),
            312 => Some(WeatherConditionId::HeavyIntensityDrizzleRain),
            313 => Some(WeatherConditionId::ShowerRainAndDrizzle),
            314 => Some(WeatherConditionId::HeavyShowerRainAndDrizzle),
            321 => Some(WeatherConditionId::ShowerDrizzle),
            500 => Some(WeatherConditionId::LightRain),
            501 => Some(WeatherConditionId::ModerateRain),
            502 => Some(WeatherConditionId::HeavyIntensityRain),
            503 => Some(WeatherConditionId::VeryHeavyRain),
            504 => Some(WeatherConditionId::ExtremeRain),
            511 => Some(WeatherConditionId::FreezingRain),
            520 => Some(WeatherConditionId::LightIntensityShowerRain),
            521 => Some(WeatherConditionId::ShowerRain),
            522 => Some(WeatherConditionId::HeavyIntensityShowerRain),
            531 => Some(WeatherConditionId::RaggedShowerRain),
            600 => Some(WeatherConditionId::LightSnow),
            601 => Some(WeatherConditionId::Snow),
            602 => Some(WeatherConditionId::HeavySnow),
            611 => Some(WeatherConditionId::Sleet),
            612 => Some(WeatherConditionId::LightShowerSleet),
            613 => Some(WeatherConditionId::ShowerSleet),
            615 => Some(WeatherConditionId::LightRainAndSnow),
            616 => Some(WeatherConditionId::RainAndSnow),
            620 => Some(WeatherConditionId::LightShowerSnow),
            621 => Some(WeatherConditionId::ShowerSnow),
            622 => Some(WeatherConditionId::HeavyShowerSnow),
            701 => Some(WeatherConditionId::Mist),
            711 => Some(WeatherConditionId::Smoke),
            721 => Some(WeatherConditionId::Haze),
            731 => Some(WeatherConditionId::SandOrDustWhirls),
            741 => Some(WeatherConditionId::Fog),
            751 => Some(WeatherConditionId::Sand),
            761 => Some(WeatherConditionId::Dust),
            762 => Some(WeatherConditionId::VolcanicAsh),
            771 => Some(WeatherConditionId::Squalls),
            781 => Some(WeatherConditionId::Tornado),
            800 => Some(WeatherConditionId::ClearSky),
            801 => Some(WeatherConditionId::FewClouds),
            802 => Some(WeatherConditionId::ScatteredClouds),
            803 => Some(WeatherConditionId::BrokenClouds),
            804 => Some(WeatherConditionId::OvercastClouds),
            _ => None,
        }
    }
}

} // verus!
