//! Screen layout: the fixed partition of the panel into regions for the
//! current weather, forecast strip, metrics and chart.
//!
//! Rectangles follow the bounding-box convention of the rendering stack the
//! regions are handed to: an edge anchor is `top_left + max(size, 1) - 1`
//! along that axis, so zero-sized rectangles anchor as if they were one pixel
//! wide and tall.

use vstd::prelude::*;

use crate::framebuffer::Coord;

verus! {

/// An axis-aligned rectangle: top-left corner and size in pixels.
#[derive(Clone, Copy, Debug, PartialEq, Eq, Structural)]
pub struct Rect {
    pub x: i32,
    pub y: i32,
    pub width: u32,
    pub height: u32,
}

impl Rect {
    /// X coordinate of the right edge, bounding-box style: the rightmost
    /// column the rectangle covers, treating zero width as one.
    pub open spec fn right_edge_spec(&self) -> int {
        self.x + (if self.width == 0 {
            1int
        } else {
            self.width as int
        }) - 1
    }

    /// Y coordinate of the bottom edge, bounding-box style.
    pub open spec fn bottom_edge_spec(&self) -> int {
        self.y + (if self.height == 0 {
            1int
        } else {
            self.height as int
        }) - 1
    }

    /// The top-left anchor.
    pub fn anchor_top_left(&self) -> (p: Coord)
        ensures
            p.x == self.x,
            p.y == self.y,
    {
        Coord { x: self.x, y: self.y }
    }

    /// The top-right anchor.
    pub fn anchor_top_right(&self) -> (p: Coord)
        requires
            self.width <= i32::MAX,
            self.right_edge_spec() <= i32::MAX,
        ensures
            p.x == self.right_edge_spec(),
            p.y == self.y,
    {
        let d: u32 = if self.width == 0 {
            0
        } else {
            self.width - 1
        };
        Coord { x: self.x + (d as i32), y: self.y }
    }

    /// The bottom-left anchor.
    pub fn anchor_bottom_left(&self) -> (p: Coord)
        requires
            self.height <= i32::MAX,
            self.bottom_edge_spec() <= i32::MAX,
        ensures
            p.x == self.x,
            p.y == self.bottom_edge_spec(),
    {
        let d: u32 = if self.height == 0 {
            0
        } else {
            self.height - 1
        };
        Coord { x: self.x, y: self.y + (d as i32) }
    }

    /// The rectangle moved by the given offset; the size is unchanged.
    pub fn translate(&self, dx: i32, dy: i32) -> (r: Rect)
        requires
            i32::MIN <= self.x + dx <= i32::MAX,
            i32::MIN <= self.y + dy <= i32::MAX,
        ensures
            r.x == self.x + dx,
            r.y == self.y + dy,
            r.width == self.width,
            r.height == self.height,
    {
        Rect { x: self.x + dx, y: self.y + dy, width: self.width, height: self.height }
    }
}

/// The fixed regions of the weather screen. The five forecast cells split
/// the forecast strip evenly from left to right.
pub struct DisplayRect {
    pub viewport: Rect,
    pub current_weather: Rect,
    pub weather_icon: Rect,
    pub current_temp: Rect,
    pub feels_like: Rect,
    pub current_temp_unit: Rect,
    pub date_location: Rect,
    pub forecast: Rect,
    pub forecasts: Vec<Rect>,
    pub metrics: Rect,
    pub chart: Rect,
}

/// Margin kept free around the whole screen, in pixels.
pub const MARGIN: u32 = 8;

/// Horizontal padding baked into the icon images; the icon region is
/// narrowed by this much to win back screen space.
pub const IMG_ICON_PADDING: u32 = 16;

impl DisplayRect {
    /// Computes the screen partition for the 800x480 panel. Every region is
    /// pinned to its exact place: the layout is part of what the screen
    /// shows, not a free choice of the renderer.
    pub fn new() -> (r: DisplayRect)
        ensures
            r.viewport == (Rect { x: 8, y: 8, width: 792, height: 472 }),
            r.current_weather == (Rect { x: 8, y: 8, width: 392, height: 196 }),
            r.weather_icon == (Rect { x: 8, y: 8, width: 180, height: 196 }),
            r.current_temp == (Rect { x: 187, y: 8, width: 196, height: 196 }),
            r.current_temp_unit == (Rect { x: 350, y: 8, width: 32, height: 196 }),
            r.feels_like == (Rect { x: 187, y: 171, width: 196, height: 32 }),
            r.date_location == (Rect { x: 397, y: 8, width: 400, height: 64 }),
            r.forecast == (Rect { x: 397, y: 71, width: 400, height: 132 }),
            r.forecasts@.len() == 5,
            forall|i: int|
                0 <= i < 5 ==> r.forecasts@[i] == (Rect {
                    x: (397 + 80 * i) as i32,
                    y: 71,
                    width: 80,
                    height: 132,
                }),
            r.metrics == (Rect { x: 8, y: 203, width: 294, height: 276 }),
            r.chart == (Rect { x: 301, y: 203, width: 498, height: 276 }),
    {
        let viewport_w: u32 = crate::framebuffer::DISPLAY_WIDTH - MARGIN;
        let viewport_h: u32 = crate::framebuffer::DISPLAY_HEIGHT - MARGIN;
        let current_icon_w: u32 = 196 - IMG_ICON_PADDING;
        let current_icon_h: u32 = 196;
        let current_temp_w: u32 = 196;
        let separator_w: u32 = IMG_ICON_PADDING;
        let current_weather_w: u32 = current_temp_w + current_icon_w + separator_w;
        let temp_unit_w: u32 = 32;
        let feels_like_h: u32 = 32;
        let date_location_h: u32 = 64;
        let metrics_w: u32 = 294;

        let viewport = Rect { x: MARGIN as i32, y: MARGIN as i32, width: viewport_w, height: viewport_h };
        let current_weather = Rect {
            x: viewport.x,
            y: viewport.y,
            width: current_weather_w,
            height: current_icon_h,
        };
        let weather_icon = Rect {
            x: current_weather.x,
            y: current_weather.y,
            width: current_icon_w,
            height: current_icon_h,
        };

        let p = weather_icon.anchor_top_right();
        let current_temp = Rect { x: p.x, y: p.y, width: current_temp_w, height: current_icon_h };

        let p = current_temp.anchor_top_right();
        let forecast_separator = Rect { x: p.x, y: p.y, width: separator_w, height: current_icon_h };

        let current_temp_unit = Rect {
            x: forecast_separator.x,
            y: forecast_separator.y,
            width: temp_unit_w,
            height: current_icon_h,
        }.translate(-(temp_unit_w as i32), 0);

        let p = current_temp.anchor_bottom_left();
        let feels_like = Rect { x: p.x, y: p.y, width: current_temp_w, height: feels_like_h }
            .translate(0, -(feels_like_h as i32));

        let p = forecast_separator.anchor_top_right();
        let date_location = Rect {
            x: p.x,
            y: p.y,
            width: viewport_w - current_weather_w,
            height: date_location_h,
        };

        let p = date_location.anchor_bottom_left();
        let forecast = Rect {
            x: p.x,
            y: p.y,
            width: viewport_w - current_weather_w,
            height: current_icon_h - date_location_h,
        };

        let cell_w: u32 = forecast.width / 5;
        let mut forecasts: Vec<Rect> = Vec::new();
        let mut i: usize = 0;
        while i < 5
            invariant
                i <= 5,
                forecasts@.len() == i,
                cell_w == 80,
                forecast.x == 397,
                forecast.y == 71,
                forecast.height == 132,
                forall|j: int|
                    0 <= j < i ==> forecasts@[j] == (Rect {
                        x: (397 + 80 * j) as i32,
                        y: 71,
                        width: 80,
                        height: 132,
                    }),
            decreases 5 - i,
        {
            let base = forecast.anchor_top_left();
            let offset_x: u32 = cell_w * (i as u32);
            forecasts.push(
                Rect {
                    x: base.x + (offset_x as i32),
                    y: base.y,
                    width: cell_w,
                    height: forecast.height,
                },
            );
            i = i + 1;
        }

        let p = current_weather.anchor_bottom_left();
        let metrics = Rect {
            x: p.x,
            y: p.y,
            width: metrics_w,
            height: viewport_h - current_icon_h,
        };

        let p = metrics.anchor_top_right();
        let chart = Rect {
            x: p.x,
            y: p.y,
            width: viewport_w - metrics_w,
            height: viewport_h - current_icon_h,
        };

        DisplayRect {
            viewport,
            current_weather,
            weather_icon,
            current_temp,
            feels_like,
            current_temp_unit,
            date_location,
            forecast,
            forecasts,
            metrics,
            chart,
        }
    }
}

/// The sub-rectangles of the chart region: a framed curve area with a left
/// and right value axis and a bottom time axis.
pub struct ChartLayout {
    pub left_axis: Rect,
    pub curve: Rect,
    pub bottom_axis: Rect,
    pub right_axis: Rect,
}

/// Inner margin of the chart region, in pixels.
pub const CHART_MARGIN: u32 = 4;

/// Thickness of each axis strip, in pixels.
pub const CHART_AXIS_DIM: u32 = 16;

/// Splits a chart region into its curve area and axis strips. The region
/// must be large enough that the curve area is at least one pixel each way.
pub fn chart_layout(chart: Rect) -> (r: ChartLayout)
    requires
        chart.width >= 2 * CHART_MARGIN + 2 * CHART_AXIS_DIM + 1,
        chart.height >= 2 * CHART_MARGIN + CHART_AXIS_DIM + 1,
        chart.width <= i32::MAX,
        chart.height <= i32::MAX,
        chart.x + chart.width <= i32::MAX,
        chart.y + chart.height <= i32::MAX,
    ensures
        r.left_axis == (Rect {
            x: (chart.x + 4) as i32,
            y: (chart.y + 4) as i32,
            width: 16,
            height: (chart.height - 24) as u32,
        }),
        r.curve == (Rect {
            x: (chart.x + 19) as i32,
            y: (chart.y + 4) as i32,
            width: (chart.width - 40) as u32,
            height: (chart.height - 24) as u32,
        }),
        r.bottom_axis == (Rect {
            x: (chart.x + 19) as i32,
            y: (chart.y + chart.height - 21) as i32,
            width: (chart.width - 40) as u32,
            height: 16,
        }),
        r.right_axis == (Rect {
            x: (chart.x + chart.width - 22) as i32,
            y: (chart.y + 4) as i32,
            width: 16,
            height: (chart.height - 24) as u32,
        }),
{
    let curve_w: u32 = chart.width - 2 * CHART_MARGIN - 2 * CHART_AXIS_DIM;
    let curve_h: u32 = chart.height - 2 * CHART_MARGIN - CHART_AXIS_DIM;

    let left_axis = Rect {
        x: chart.x + CHART_MARGIN as i32,
        y: chart.y + CHART_MARGIN as i32,
        width: CHART_AXIS_DIM,
        height: curve_h,
    };

    let p = left_axis.anchor_top_right();
    let curve = Rect { x: p.x, y: p.y, width: curve_w, height: curve_h };

    let p = curve.anchor_bottom_left();
    let bottom_axis = Rect { x: p.x, y: p.y, width: curve_w, height: CHART_AXIS_DIM };

    let p = curve.anchor_top_right();
    let right_axis = Rect { x: p.x, y: p.y, width: CHART_AXIS_DIM, height: curve_h };

    ChartLayout { left_axis, curve, bottom_axis, right_axis }
}

} // verus!
