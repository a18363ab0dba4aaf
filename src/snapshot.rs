//! The statistics of one location, fetched once and never changed.

use vstd::prelude::*;

verus! {

/// Cumulative totals as of the latest report.
#[derive(Clone, Copy, Debug, PartialEq, Eq, Structural)]
pub struct CovidApiLatest {
    pub confirmed: u64,
    pub deaths: u64,
    pub recovered: u64,
}

/// A calendar day (UTC).
#[derive(Clone, Copy, Debug, PartialEq, Eq, Structural)]
pub struct DayDate {
    pub year: i32,
    pub month: u32,
    pub day: u32,
}

impl DayDate {
    /// Month and day of the month are in their calendar ranges.
    pub open spec fn valid(self) -> bool {
        1 <= self.month <= 12 && 1 <= self.day <= 31
    }

    /// `self` is an earlier day than `other`.
    pub open spec fn before(self, other: DayDate) -> bool {
        ||| self.year < other.year
        ||| self.year == other.year && self.month < other.month
        ||| self.year == other.year && self.month == other.month && self.day < other.day
    }

    pub fn is_valid(&self) -> (r: bool)
        ensures
            r == self.valid(),
    {
        1 <= self.month && self.month <= 12 && 1 <= self.day && self.day <= 31
    }
}

/// The cumulative count on one day.
#[derive(Clone, Copy, Debug, PartialEq, Eq, Structural)]
pub struct TimelineEntry {
    pub date: DayDate,
    pub count: u64,
}

/// Every day of `s` is a valid calendar day.
pub open spec fn dates_valid(s: Seq<TimelineEntry>) -> bool {
    forall|i: int| 0 <= i < s.len() ==> (#[trigger] s[i]).date.valid()
}

/// The days of `s` strictly ascend.
pub open spec fn chronological(s: Seq<TimelineEntry>) -> bool {
    forall|i: int, j: int| 0 <= i < j < s.len() ==> (#[trigger] s[i]).date.before(#[trigger] s[j].date)
}

/// One series: its own current figure, and the count of each day, oldest first.
#[derive(Clone, Debug)]
pub struct CovidApiTimelineItem {
    pub latest: u64,
    pub timeline: Vec<TimelineEntry>,
}

#[derive(Clone, Debug)]
pub struct CovidApiTimelineList {
    pub confirmed: CovidApiTimelineItem,
    pub deaths: CovidApiTimelineItem,
    pub recovered: CovidApiTimelineItem,
}

#[derive(Clone, Debug)]
pub struct CovidApiCoordinates {
    pub latitude: String,
    pub longtitude: Option<String>,
}

#[derive(Clone, Debug)]
pub struct CovidApiLocation {
    pub id: u64,
    pub country: String,
    pub country_code: String,
    pub country_population: u64,
    pub county: String,
    pub province: String,
    /// Seconds since the Unix epoch, UTC.
    pub last_updated: i64,
    pub coordinates: CovidApiCoordinates,
    pub latest: CovidApiLatest,
    pub timelines: CovidApiTimelineList,
}

/// The snapshot the dashboard shows.
#[derive(Clone, Debug)]
pub struct CovidApiResponse {
    pub location: CovidApiLocation,
}

} // verus!
