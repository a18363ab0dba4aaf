use covid_tracker::dashboard::{
    active_cases, chart_bars, chart_max, chart_window, fits_viewport, is_drawable, plan_dashboard,
    Accent, Widget,
};
use covid_tracker::layout::{compute_regions, Region};
use covid_tracker::snapshot::{
    CovidApiCoordinates, CovidApiLatest, CovidApiLocation, CovidApiResponse, CovidApiTimelineItem,
    CovidApiTimelineList, DayDate, TimelineEntry,
};
use covid_tracker::text::{decimal_text, month_day_text, two_digit_text};

/// `days` consecutive days of March 2020 from the first, with growing counts.
fn march(days: u32) -> Vec<TimelineEntry> {
    (1..=days)
        .map(|d| TimelineEntry {
            date: DayDate { year: 2020, month: 3, day: d },
            count: 100 * d as u64,
        })
        .collect()
}

fn snapshot(latest: CovidApiLatest, confirmed: Vec<TimelineEntry>) -> CovidApiResponse {
    let empty = || CovidApiTimelineItem { latest: 0, timeline: Vec::new() };
    CovidApiResponse {
        location: CovidApiLocation {
            id: 153,
            country: "Malaysia".to_string(),
            country_code: "MY".to_string(),
            country_population: 31528585,
            county: String::new(),
            province: String::new(),
            last_updated: 1586000000,
            coordinates: CovidApiCoordinates { latitude: "2.5".to_string(), longtitude: None },
            latest,
            timelines: CovidApiTimelineList {
                confirmed: CovidApiTimelineItem { latest: latest.confirmed, timeline: confirmed },
                deaths: empty(),
                recovered: empty(),
            },
        },
    }
}

fn tile(w: &Widget) -> (&str, &str, Accent) {
    match w {
        Widget::Tile { label, value, accent } => (label.as_str(), value.as_str(), *accent),
        _ => panic!("not a tile"),
    }
}

#[test]
fn active_is_confirmed_less_recovered() {
    let l = CovidApiLatest { confirmed: 5000, deaths: 80, recovered: 4500 };
    assert_eq!(active_cases(&l), 500);
    let even = CovidApiLatest { confirmed: 7, deaths: 0, recovered: 7 };
    assert_eq!(active_cases(&even), 0);
}

#[test]
fn active_clamps_to_zero() {
    let l = CovidApiLatest { confirmed: 10, deaths: 0, recovered: 4500 };
    assert_eq!(active_cases(&l), 0);
    let l = CovidApiLatest { confirmed: 0, deaths: 0, recovered: u64::MAX };
    assert_eq!(active_cases(&l), 0);
}

#[test]
fn window_of_empty_series_is_empty() {
    assert!(chart_window(&Vec::new()).is_empty());
}

#[test]
fn window_keeps_short_series() {
    let s = march(10);
    assert_eq!(chart_window(&s), s);
    let s = march(22);
    assert_eq!(chart_window(&s), s);
}

#[test]
fn window_keeps_last_22_in_order() {
    let s = march(30);
    let w = chart_window(&s);
    assert_eq!(w.len(), 22);
    assert_eq!(w[..], s[8..]);
    assert_eq!(w[0].date.day, 9);
    assert_eq!(w[21].date.day, 30);
}

#[test]
fn chart_max_adds_headroom() {
    let l = CovidApiLatest { confirmed: 5000, deaths: 80, recovered: 4500 };
    assert_eq!(chart_max(&l), 6000);
    let z = CovidApiLatest { confirmed: 0, deaths: 0, recovered: 0 };
    assert_eq!(chart_max(&z), 1000);
}

#[test]
fn bars_are_labelled_by_day() {
    let bars = chart_bars(&march(25));
    assert_eq!(bars.len(), 22);
    assert_eq!(bars[0].label, "03/04");
    assert_eq!(bars[0].value, 400);
    assert_eq!(bars[21].label, "03/25");
    assert_eq!(bars[21].value, 2500);
}

#[test]
fn decimal_text_values() {
    assert_eq!(decimal_text(0), "0");
    assert_eq!(decimal_text(7), "7");
    assert_eq!(decimal_text(500), "500");
    assert_eq!(decimal_text(1000000), "1000000");
    assert_eq!(decimal_text(u64::MAX), "18446744073709551615");
}

#[test]
fn day_labels_are_zero_padded() {
    assert_eq!(two_digit_text(0), "00");
    assert_eq!(two_digit_text(9), "09");
    assert_eq!(two_digit_text(42), "42");
    assert_eq!(month_day_text(3, 7), "03/07");
    assert_eq!(month_day_text(12, 31), "12/31");
}

#[test]
fn drawable_checks() {
    let ok = snapshot(CovidApiLatest { confirmed: 5, deaths: 0, recovered: 0 }, march(3));
    assert!(is_drawable(&ok));
    let big = snapshot(CovidApiLatest { confirmed: u64::MAX - 999, deaths: 0, recovered: 0 }, march(3));
    assert!(!is_drawable(&big));
    let edge = snapshot(CovidApiLatest { confirmed: u64::MAX - 1000, deaths: 0, recovered: 0 }, march(3));
    assert!(is_drawable(&edge));
    let mut bad_day = march(3);
    bad_day[1].date.month = 13;
    assert!(!is_drawable(&snapshot(CovidApiLatest { confirmed: 5, deaths: 0, recovered: 0 }, bad_day)));
}

#[test]
fn viewport_fit_checks() {
    assert!(fits_viewport(Region { x: 0, y: 0, width: 200, height: 50 }));
    assert!(fits_viewport(Region { x: 0, y: 65510, width: 65535, height: 1 }));
    assert!(!fits_viewport(Region { x: 0, y: 65511, width: 10, height: 1 }));
    assert!(!fits_viewport(Region { x: 1, y: 0, width: 65535, height: 1 }));
}

#[test]
fn end_to_end_frame() {
    let latest = CovidApiLatest { confirmed: 5000, deaths: 80, recovered: 4500 };
    let s = snapshot(latest, march(10));
    let viewport = Region { x: 0, y: 0, width: 100, height: 40 };
    let plan = plan_dashboard(viewport, &s);
    assert_eq!(plan.len(), 6);
    let regions = compute_regions(viewport);
    let expected = [
        regions.title,
        regions.confirmed,
        regions.active,
        regions.recovered,
        regions.fatal,
        regions.chart,
    ];
    for (p, r) in plan.iter().zip(expected.iter()) {
        assert_eq!(p.region, *r);
    }
    match &plan[0].widget {
        Widget::Banner { text } => assert_eq!(text, "Malaysia COVID-19 Tracker"),
        _ => panic!("not a banner"),
    }
    assert_eq!(tile(&plan[1].widget), ("Confirmed Cases", "5000", Accent::LightRed));
    assert_eq!(tile(&plan[2].widget), ("Active Cases", "500", Accent::LightYellow));
    assert_eq!(tile(&plan[3].widget), ("Recovered Cases", "4500", Accent::LightGreen));
    assert_eq!(tile(&plan[4].widget), ("Fatal Cases", "80", Accent::DarkGray));
    match &plan[5].widget {
        Widget::BarChart { title, bars, bar_width, max, accent } => {
            assert_eq!(title, "Last 30 days");
            assert_eq!(bars.len(), 10);
            assert_eq!(*bar_width, 6);
            assert_eq!(*max, 6000);
            assert_eq!(*accent, Accent::LightCyan);
            for (i, b) in bars.iter().enumerate() {
                assert_eq!(b.label, format!("03/{:02}", i + 1));
                assert_eq!(b.value, 100 * (i as u64 + 1));
            }
        }
        _ => panic!("not a chart"),
    }
}

#[test]
fn chart_max_ignores_bar_values() {
    let latest = CovidApiLatest { confirmed: 50, deaths: 0, recovered: 0 };
    let s = snapshot(latest, march(15));
    let plan = plan_dashboard(Region { x: 0, y: 0, width: 40, height: 25 }, &s);
    match &plan[5].widget {
        Widget::BarChart { bars, max, .. } => {
            assert_eq!(*max, 1050);
            assert!(bars.iter().any(|b| b.value > 1050));
        }
        _ => panic!("not a chart"),
    }
}
