use weather_station::layout::chart_layout;
use weather_station::layout::DisplayRect;
use weather_station::layout::Rect;

#[test]
fn screen_partition_is_pinned() {
    let r = DisplayRect::new();
    assert_eq!(r.viewport, Rect { x: 8, y: 8, width: 792, height: 472 });
    assert_eq!(r.current_weather, Rect { x: 8, y: 8, width: 392, height: 196 });
    assert_eq!(r.weather_icon, Rect { x: 8, y: 8, width: 180, height: 196 });
    assert_eq!(r.current_temp, Rect { x: 187, y: 8, width: 196, height: 196 });
    assert_eq!(r.current_temp_unit, Rect { x: 350, y: 8, width: 32, height: 196 });
    assert_eq!(r.feels_like, Rect { x: 187, y: 171, width: 196, height: 32 });
    assert_eq!(r.date_location, Rect { x: 397, y: 8, width: 400, height: 64 });
    assert_eq!(r.forecast, Rect { x: 397, y: 71, width: 400, height: 132 });
    assert_eq!(r.metrics, Rect { x: 8, y: 203, width: 294, height: 276 });
    assert_eq!(r.chart, Rect { x: 301, y: 203, width: 498, height: 276 });
}

#[test]
fn forecast_cells_split_the_strip_evenly() {
    let r = DisplayRect::new();
    assert_eq!(r.forecasts.len(), 5);
    for (i, cell) in r.forecasts.iter().enumerate() {
        assert_eq!(
            *cell,
            Rect { x: 397 + 80 * i as i32, y: 71, width: 80, height: 132 }
        );
    }
}

#[test]
fn chart_region_splits_into_axes_and_curve() {
    let r = DisplayRect::new();
    let chart = chart_layout(r.chart);
    assert_eq!(chart.left_axis, Rect { x: 305, y: 207, width: 16, height: 252 });
    assert_eq!(chart.curve, Rect { x: 320, y: 207, width: 458, height: 252 });
    assert_eq!(chart.bottom_axis, Rect { x: 320, y: 458, width: 458, height: 16 });
    assert_eq!(chart.right_axis, Rect { x: 777, y: 207, width: 16, height: 252 });
}

#[test]
fn anchors_follow_the_bounding_box_convention() {
    let r = Rect { x: 10, y: 20, width: 21, height: 31 };
    let tr = r.anchor_top_right();
    assert_eq!((tr.x, tr.y), (30, 20));
    let bl = r.anchor_bottom_left();
    assert_eq!((bl.x, bl.y), (10, 50));
    let tl = r.anchor_top_left();
    assert_eq!((tl.x, tl.y), (10, 20));

    // Zero-sized rectangles anchor as if they were one pixel wide and tall.
    let z = Rect { x: 10, y: 20, width: 0, height: 0 };
    let tr = z.anchor_top_right();
    assert_eq!((tr.x, tr.y), (10, 20));

    let moved = r.translate(-3, 4);
    assert_eq!(moved, Rect { x: 7, y: 24, width: 21, height: 31 });
}
