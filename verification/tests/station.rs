use weather_station::station::next_step;
use weather_station::station::StationStep;
use weather_station::station::UPDATE_PAUSE_SECS;

#[test]
fn update_cycle_visits_every_step_once() {
    let expected = [
        StationStep::FetchReport,
        StationStep::WakeDisplay,
        StationStep::DrawReport,
        StationStep::Present,
        StationStep::SleepDisplay,
        StationStep::Pause,
    ];
    let mut step = StationStep::FetchReport;
    for want in expected {
        assert_eq!(step, want);
        step = next_step(step);
    }
    assert_eq!(step, StationStep::FetchReport);
}

#[test]
fn updates_pause_ten_minutes() {
    assert_eq!(UPDATE_PAUSE_SECS, 10 * 60);
}
