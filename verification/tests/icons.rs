use weather_station::icons::get_icon;
use weather_station::icons::get_icon_for_condition;
use weather_station::icons::get_icon_for_current_weather;
use weather_station::icons::get_icon_for_daily_forecast;
use weather_station::icons::is_cloudy;
use weather_station::icons::is_night;
use weather_station::icons::IconKind;
use weather_station::icons::IconStyle;
use weather_station::model::WeatherCondition;
use weather_station::model::WeatherConditionId;

fn condition_with_id(id: u16) -> WeatherCondition {
    WeatherCondition {
        id,
        main: String::new(),
        description: String::new(),
        icon: String::new(),
    }
}

#[test]
fn cloudy_wins_over_night_and_day() {
    assert_eq!(get_icon(true, true, false), IconStyle::CloudyClear);
    assert_eq!(get_icon(true, true, true), IconStyle::CloudyWindy);
    assert_eq!(get_icon(true, false, false), IconStyle::NightClear);
    assert_eq!(get_icon(true, false, true), IconStyle::NightWindy);
    assert_eq!(get_icon(false, false, false), IconStyle::DayClear);
    assert_eq!(get_icon(false, false, true), IconStyle::DayWindy);
}

#[test]
fn conditions_map_to_their_icon_families() {
    let (kind, style) =
        get_icon_for_condition(WeatherConditionId::HeavyThunderstorm, false, true, true);
    assert_eq!(kind, IconKind::Thunderstorm);
    assert_eq!(style, IconStyle::NightWindy);

    let (kind, _) = get_icon_for_condition(WeatherConditionId::Sleet, false, false, false);
    assert_eq!(kind, IconKind::RainMix);

    let (kind, _) = get_icon_for_condition(WeatherConditionId::Haze, false, false, false);
    assert_eq!(kind, IconKind::Fog);

    let (kind, _) = get_icon_for_condition(WeatherConditionId::OvercastClouds, true, false, false);
    assert_eq!(kind, IconKind::Scattered);

    let (kind, _) = get_icon_for_condition(WeatherConditionId::LightShowerSnow, false, false, false);
    assert_eq!(kind, IconKind::Snow);
}

#[test]
fn cloud_cover_threshold_is_sixty_percent() {
    assert!(!is_cloudy(0));
    assert!(!is_cloudy(59));
    assert!(is_cloudy(60));
    assert!(is_cloudy(100));
}

#[test]
fn night_is_outside_the_sunrise_sunset_window() {
    let sunrise = 1_000;
    let sunset = 2_000;
    assert!(is_night(999, sunrise, sunset));
    assert!(is_night(1_000, sunrise, sunset));
    assert!(!is_night(1_001, sunrise, sunset));
    assert!(!is_night(1_999, sunrise, sunset));
    assert!(is_night(2_000, sunrise, sunset));
    assert!(is_night(2_500, sunrise, sunset));
}

#[test]
fn current_weather_icon_uses_sky_and_time() {
    // Clear night, calm: the night rendition of the clear family.
    let (kind, style) = get_icon_for_current_weather(&condition_with_id(800), 10, false, 2_100, 1_000, 2_000);
    assert_eq!(kind, IconKind::Clear);
    assert_eq!(style, IconStyle::NightClear);

    // Overcast day with wind: cloudy windy rendition of scattered clouds.
    let (kind, style) = get_icon_for_current_weather(&condition_with_id(804), 90, true, 1_500, 1_000, 2_000);
    assert_eq!(kind, IconKind::Scattered);
    assert_eq!(style, IconStyle::CloudyWindy);

    // Unknown codes fall back to the clear-sky family.
    let (kind, _) = get_icon_for_current_weather(&condition_with_id(42), 0, false, 1_500, 1_000, 2_000);
    assert_eq!(kind, IconKind::Clear);
}

#[test]
fn daily_forecast_icon_is_always_daytime() {
    let (kind, style) = get_icon_for_daily_forecast(&condition_with_id(500), 0, false);
    assert_eq!(kind, IconKind::Rain);
    assert_eq!(style, IconStyle::DayClear);

    let (kind, style) = get_icon_for_daily_forecast(&condition_with_id(601), 80, true);
    assert_eq!(kind, IconKind::Snow);
    assert_eq!(style, IconStyle::CloudyWindy);
}
