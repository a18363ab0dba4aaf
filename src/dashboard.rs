//! What the dashboard shows: one widget for each region of the layout.

use vstd::prelude::*;
use vstd::string::*;

use crate::layout::{compute_regions, fits, regions_spec, Region, DASHBOARD_HEIGHT};
use crate::snapshot::{chronological, dates_valid, CovidApiLatest, CovidApiResponse, TimelineEntry};
use crate::text::{decimal, decimal_text, month_day, month_day_text};

verus! {

/// Days shown in the bar chart: the most recent ones of the series.
pub const CHART_DAYS: usize = 22;

/// Added to the confirmed total to get the top of the chart's scale.
pub const CHART_HEADROOM: u64 = 1000;

/// Width of one bar, in cells.
pub const BAR_WIDTH: u16 = 6;

/// The colour of a widget's value or bars.
#[derive(Clone, Copy, Debug, PartialEq, Eq, Structural)]
pub enum Accent {
    LightRed,
    LightYellow,
    LightGreen,
    DarkGray,
    LightCyan,
}

/// One bar of the chart: its label under it and its height.
#[derive(Clone, Debug)]
pub struct Bar {
    pub label: String,
    pub value: u64,
}

/// The widgets the dashboard draws, each inside a bordered box.
#[derive(Clone, Debug)]
pub enum Widget {
    /// A single centred line.
    Banner { text: String },
    /// A centred label line over a coloured value line.
    Tile { label: String, value: String, accent: Accent },
    /// A titled bar chart whose scale runs from zero to `max`.
    BarChart { title: String, bars: Vec<Bar>, bar_width: u16, max: u64, accent: Accent },
}

/// A widget and the region it is drawn in.
#[derive(Clone, Debug)]
pub struct Placement {
    pub region: Region,
    pub widget: Widget,
}

pub open spec fn title_text() -> Seq<char> {
    "Malaysia COVID-19 Tracker"@
}

pub open spec fn confirmed_label() -> Seq<char> {
    "Confirmed Cases"@
}

pub open spec fn active_label() -> Seq<char> {
    "Active Cases"@
}

pub open spec fn recovered_label() -> Seq<char> {
    "Recovered Cases"@
}

pub open spec fn fatal_label() -> Seq<char> {
    "Fatal Cases"@
}

pub open spec fn chart_title() -> Seq<char> {
    "Last 30 days"@
}

/// Confirmed cases less recovered ones, or zero where recovered ones exceed them.
pub open spec fn active_spec(latest: CovidApiLatest) -> nat {
    if latest.confirmed >= latest.recovered {
        (latest.confirmed - latest.recovered) as nat
    } else {
        0
    }
}

/// How many of `n` days the chart shows.
pub open spec fn window_len(n: nat) -> nat {
    if n <= CHART_DAYS {
        n
    } else {
        CHART_DAYS as nat
    }
}

/// The last `window_len` elements of `s`, in their order.
pub open spec fn recent<A>(s: Seq<A>) -> Seq<A> {
    s.subrange(s.len() - window_len(s.len()), s.len() as int)
}

pub open spec fn bar_matches(b: Bar, e: TimelineEntry) -> bool {
    &&& b.label@ == month_day(e.date.month as nat, e.date.day as nat)
    &&& b.value == e.count
}

/// One bar for each entry, in the same order, labelled with its day.
pub open spec fn bars_match(bars: Seq<Bar>, entries: Seq<TimelineEntry>) -> bool {
    &&& bars.len() == entries.len()
    &&& forall|i: int| 0 <= i < bars.len() ==> bar_matches(#[trigger] bars[i], entries[i])
}

pub open spec fn is_banner(w: Widget, text: Seq<char>) -> bool {
    w matches Widget::Banner { text: t } && t@ == text
}

pub open spec fn is_tile(w: Widget, label: Seq<char>, value: Seq<char>, accent: Accent) -> bool {
    &&& w matches Widget::Tile { label: l, value: v, accent: a }
    &&& l@ == label
    &&& v@ == value
    &&& a == accent
}

/// The chart of the recent part of `entries`, on a scale up to `max`.
pub open spec fn is_chart(w: Widget, entries: Seq<TimelineEntry>, max: int) -> bool {
    &&& w matches Widget::BarChart { title, bars, bar_width, max: m, accent }
    &&& title@ == chart_title()
    &&& bars_match(bars@, recent(entries))
    &&& bar_width == BAR_WIDTH
    &&& m == max
    &&& accent == Accent::LightCyan
}

/// The top of the chart's scale: the confirmed total plus a margin.
pub open spec fn chart_max_spec(latest: CovidApiLatest) -> int {
    latest.confirmed + CHART_HEADROOM
}

/// The snapshot can be drawn: every day of the confirmed series is a calendar
/// day, and the chart's scale fits in a `u64`.
pub open spec fn drawable(s: CovidApiResponse) -> bool {
    &&& dates_valid(s.location.timelines.confirmed.timeline@)
    &&& chart_max_spec(s.location.latest) <= u64::MAX
}

/// Active cases: confirmed less recovered, never below zero.
pub fn active_cases(latest: &CovidApiLatest) -> (r: u64)
    ensures
        r == active_spec(*latest),
{
    if latest.confirmed >= latest.recovered {
        latest.confirmed - latest.recovered
    } else {
        0
    }
}

/// The top of the chart's scale.
pub fn chart_max(latest: &CovidApiLatest) -> (r: u64)
    requires
        chart_max_spec(*latest) <= u64::MAX,
    ensures
        r == chart_max_spec(*latest),
{
    latest.confirmed + CHART_HEADROOM
}

/// The most recent days of a series, oldest first: at most 22 of them.
pub fn chart_window(entries: &Vec<TimelineEntry>) -> (r: Vec<TimelineEntry>)
    ensures
        r@ == recent(entries@),
{
    let n = entries.len();
    let start: usize = if n > CHART_DAYS { n - CHART_DAYS } else { 0 };
    let mut r: Vec<TimelineEntry> = Vec::new();
    let mut i: usize = start;
    while i < n
        invariant
            start <= i <= n,
            n == entries@.len(),
            start == n - window_len(n as nat),
            r@ == entries@.subrange(start as int, i as int),
        decreases n - i,
    {
        r.push(entries[i]);
        i += 1;
        assert(r@ =~= entries@.subrange(start as int, i as int));
    }
    r
}

/// The bars of the chart: one for each recent day, labelled with its month
/// and day, as high as that day's count.
pub fn chart_bars(entries: &Vec<TimelineEntry>) -> (r: Vec<Bar>)
    requires
        dates_valid(entries@),
    ensures
        bars_match(r@, recent(entries@)),
{
    let window = chart_window(entries);
    let ghost start = entries@.len() - window_len(entries@.len());
    let mut bars: Vec<Bar> = Vec::new();
    let mut i: usize = 0;
    while i < window.len()
        invariant
            i <= window@.len(),
            window@ == recent(entries@),
            start == entries@.len() - window_len(entries@.len()),
            dates_valid(entries@),
            bars_match(bars@, window@.subrange(0, i as int)),
        decreases window@.len() - i,
    {
        let e = window[i];
        assert(window@[i as int] == entries@[start + i]);
        let bar = Bar { label: month_day_text(e.date.month, e.date.day), value: e.count };
        bars.push(bar);
        i += 1;
        assert forall|k: int| 0 <= k < bars@.len() implies bar_matches(
            #[trigger] bars@[k],
            window@.subrange(0, i as int)[k],
        ) by {
            if k < i - 1 {
                assert(window@.subrange(0, i - 1)[k] == window@.subrange(0, i as int)[k]);
            }
        }
    }
    assert(window@.subrange(0, i as int) =~= window@);
    bars
}

/// The title strip.
pub fn title_widget() -> (r: Widget)
    ensures
        is_banner(r, title_text()),
{
    Widget::Banner { text: String::from_str("Malaysia COVID-19 Tracker") }
}

/// The tile of confirmed cases.
pub fn confirmed_tile(latest: &CovidApiLatest) -> (r: Widget)
    ensures
        is_tile(r, confirmed_label(), decimal(latest.confirmed as nat), Accent::LightRed),
{
    Widget::Tile {
        label: String::from_str("Confirmed Cases"),
        value: decimal_text(latest.confirmed),
        accent: Accent::LightRed,
    }
}

/// The tile of active cases.
pub fn active_tile(latest: &CovidApiLatest) -> (r: Widget)
    ensures
        is_tile(r, active_label(), decimal(active_spec(*latest)), Accent::LightYellow),
{
    Widget::Tile {
        label: String::from_str("Active Cases"),
        value: decimal_text(active_cases(latest)),
        accent: Accent::LightYellow,
    }
}

/// The tile of recovered cases.
pub fn recovered_tile(latest: &CovidApiLatest) -> (r: Widget)
    ensures
        is_tile(r, recovered_label(), decimal(latest.recovered as nat), Accent::LightGreen),
{
    Widget::Tile {
        label: String::from_str("Recovered Cases"),
        value: decimal_text(latest.recovered),
        accent: Accent::LightGreen,
    }
}

/// The tile of fatal cases.
pub fn fatal_tile(latest: &CovidApiLatest) -> (r: Widget)
    ensures
        is_tile(r, fatal_label(), decimal(latest.deaths as nat), Accent::DarkGray),
{
    Widget::Tile {
        label: String::from_str("Fatal Cases"),
        value: decimal_text(latest.deaths),
        accent: Accent::DarkGray,
    }
}

/// The bar chart of the recent confirmed counts.
pub fn chart_widget(snapshot: &CovidApiResponse) -> (r: Widget)
    requires
        drawable(*snapshot),
    ensures
        is_chart(
            r,
            snapshot.location.timelines.confirmed.timeline@,
            chart_max_spec(snapshot.location.latest),
        ),
{
    Widget::BarChart {
        title: String::from_str("Last 30 days"),
        bars: chart_bars(&snapshot.location.timelines.confirmed.timeline),
        bar_width: BAR_WIDTH,
        max: chart_max(&snapshot.location.latest),
        accent: Accent::LightCyan,
    }
}

/// Whether `snapshot` can be drawn.
pub fn is_drawable(snapshot: &CovidApiResponse) -> (r: bool)
    ensures
        r == drawable(*snapshot),
{
    if snapshot.location.latest.confirmed > u64::MAX - CHART_HEADROOM {
        return false;
    }
    let entries = &snapshot.location.timelines.confirmed.timeline;
    let mut i: usize = 0;
    while i < entries.len()
        invariant
            i <= entries@.len(),
            entries@ == snapshot.location.timelines.confirmed.timeline@,
            chart_max_spec(snapshot.location.latest) <= u64::MAX,
            forall|k: int| 0 <= k < i ==> (#[trigger] entries@[k]).date.valid(),
        decreases entries@.len() - i,
    {
        if !entries[i].date.is_valid() {
            assert(!entries@[i as int].date.valid());
            return false;
        }
        i += 1;
    }
    true
}

/// Whether the dashboard's working area at `viewport` has `u16` coordinates.
pub fn fits_viewport(viewport: Region) -> (r: bool)
    ensures
        r == fits(viewport),
{
    viewport.x as u32 + viewport.width as u32 <= u16::MAX as u32 && viewport.y as u32
        + DASHBOARD_HEIGHT as u32 <= u16::MAX as u32
}

/// Everything one frame shows: the title, the four tiles left to right
/// (confirmed, active, recovered, fatal) and the chart, each with its region.
pub fn plan_dashboard(viewport: Region, snapshot: &CovidApiResponse) -> (r: Vec<Placement>)
    requires
        fits(viewport),
        drawable(*snapshot),
    ensures
        r@.len() == 6,
        r@[0].region == regions_spec(viewport).title,
        r@[1].region == regions_spec(viewport).confirmed,
        r@[2].region == regions_spec(viewport).active,
        r@[3].region == regions_spec(viewport).recovered,
        r@[4].region == regions_spec(viewport).fatal,
        r@[5].region == regions_spec(viewport).chart,
        is_banner(r@[0].widget, title_text()),
        is_tile(
            r@[1].widget,
            confirmed_label(),
            decimal(snapshot.location.latest.confirmed as nat),
            Accent::LightRed,
        ),
        is_tile(
            r@[2].widget,
            active_label(),
            decimal(active_spec(snapshot.location.latest)),
            Accent::LightYellow,
        ),
        is_tile(
            r@[3].widget,
            recovered_label(),
            decimal(snapshot.location.latest.recovered as nat),
            Accent::LightGreen,
        ),
        is_tile(
            r@[4].widget,
            fatal_label(),
            decimal(snapshot.location.latest.deaths as nat),
            Accent::DarkGray,
        ),
        is_chart(
            r@[5].widget,
            snapshot.location.timelines.confirmed.timeline@,
            chart_max_spec(snapshot.location.latest),
        ),
{
    let regions = compute_regions(viewport);
    let latest = &snapshot.location.latest;
    let mut r: Vec<Placement> = Vec::new();
    r.push(Placement { region: regions.title, widget: title_widget() });
    r.push(Placement { region: regions.confirmed, widget: confirmed_tile(latest) });
    r.push(Placement { region: regions.active, widget: active_tile(latest) });
    r.push(Placement { region: regions.recovered, widget: recovered_tile(latest) });
    r.push(Placement { region: regions.fatal, widget: fatal_tile(latest) });
    r.push(Placement { region: regions.chart, widget: chart_widget(snapshot) });
    r
}

/// The chart's window of a series of `L` entries holds `min(L, 22)` of them:
/// the last ones of the series, in the same order. So a chronological series
/// gives a chronological window, and an empty series an empty window.
pub proof fn lemma_window(s: Seq<TimelineEntry>)
    ensures
        recent(s).len() == if s.len() <= CHART_DAYS {
            s.len()
        } else {
            CHART_DAYS as nat
        },
        forall|i: int|
            0 <= i < recent(s).len() ==> #[trigger] recent(s)[i] == s[s.len() - recent(s).len() + i],
        chronological(s) ==> chronological(recent(s)),
        s.len() == 0 ==> recent(s) == Seq::<TimelineEntry>::empty(),
{
    let w = recent(s);
    let start = s.len() - w.len();
    if chronological(s) {
        assert forall|i: int, j: int| 0 <= i < j < w.len() implies (#[trigger] w[i]).date.before(
            #[trigger] w[j].date,
        ) by {
            assert(w[i] == s[start + i]);
            assert(w[j] == s[start + j]);
        }
    }
    if s.len() == 0 {
        assert(w =~= Seq::<TimelineEntry>::empty());
    }
}

} // verus!
