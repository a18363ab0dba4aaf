//! Partition of the viewport into the dashboard's regions.

use vstd::prelude::*;

verus! {

/// Rows used by the dashboard, whatever the height of the terminal.
pub const DASHBOARD_HEIGHT: u16 = 25;

/// Rows of the title strip.
pub const TITLE_HEIGHT: u16 = 3;

/// Rows of the strip of summary tiles.
pub const TILES_HEIGHT: u16 = 4;

/// A rectangle of terminal cells.
#[derive(Clone, Copy, Debug, PartialEq, Eq, Structural)]
pub struct Region {
    pub x: u16,
    pub y: u16,
    pub width: u16,
    pub height: u16,
}

/// The six leaf regions of the dashboard.
#[derive(Clone, Copy, Debug, PartialEq, Eq, Structural)]
pub struct RegionTree {
    pub title: Region,
    pub confirmed: Region,
    pub active: Region,
    pub recovered: Region,
    pub fatal: Region,
    pub chart: Region,
}

/// The working area starting at `v`'s origin can be addressed in `u16`
/// coordinates: its right edge and its 25th row exist.
pub open spec fn fits(v: Region) -> bool {
    &&& v.x + v.width <= u16::MAX
    &&& v.y + DASHBOARD_HEIGHT <= u16::MAX
}

/// The rectangle the dashboard draws in: the viewport's origin and width, 25 rows.
pub open spec fn working_area_spec(v: Region) -> Region {
    Region { x: v.x, y: v.y, width: v.width, height: DASHBOARD_HEIGHT }
}

/// The horizontal band of `area` that starts `top` rows down and is `rows` high.
pub open spec fn band(area: Region, top: u16, rows: u16) -> Region {
    Region { x: area.x, y: (area.y + top) as u16, width: area.width, height: rows }
}

pub open spec fn title_band(v: Region) -> Region {
    band(working_area_spec(v), 0, TITLE_HEIGHT)
}

pub open spec fn tiles_band(v: Region) -> Region {
    band(working_area_spec(v), TITLE_HEIGHT, TILES_HEIGHT)
}

pub open spec fn chart_band(v: Region) -> Region {
    band(
        working_area_spec(v),
        (TITLE_HEIGHT + TILES_HEIGHT) as u16,
        (DASHBOARD_HEIGHT - TITLE_HEIGHT - TILES_HEIGHT) as u16,
    )
}

/// Width of column `i` when `total` cells are cut into four columns: a quarter
/// each, and the remainder one cell at a time to the leftmost columns.
pub open spec fn column_width(total: nat, i: nat) -> nat {
    total / 4 + if i < total % 4 { 1nat } else { 0nat }
}

/// Cells to the left of column `i`, counted from the band's left edge.
pub open spec fn column_offset(total: nat, i: nat) -> nat
    decreases i,
{
    if i == 0 {
        0
    } else {
        column_offset(total, (i - 1) as nat) + column_width(total, (i - 1) as nat)
    }
}

/// Column `i` of four equal columns of `b`.
pub open spec fn column(b: Region, i: nat) -> Region {
    Region {
        x: (b.x + column_offset(b.width as nat, i)) as u16,
        y: b.y,
        width: column_width(b.width as nat, i) as u16,
        height: b.height,
    }
}

/// The dashboard's regions for viewport `v`.
pub open spec fn regions_spec(v: Region) -> RegionTree {
    RegionTree {
        title: title_band(v),
        confirmed: column(tiles_band(v), 0),
        active: column(tiles_band(v), 1),
        recovered: column(tiles_band(v), 2),
        fatal: column(tiles_band(v), 3),
        chart: chart_band(v),
    }
}

/// The rectangle the dashboard draws in: the viewport's origin and width, and
/// 25 rows whatever the viewport's height.
pub fn working_area(viewport: Region) -> (r: Region)
    ensures
        r == working_area_spec(viewport),
{
    Region { x: viewport.x, y: viewport.y, width: viewport.width, height: DASHBOARD_HEIGHT }
}

/// Cuts `area` into the title strip (3 rows), the tile strip (4 rows) and the
/// chart area (the rest).
pub fn split_bands(area: Region) -> (r: (Region, Region, Region))
    requires
        area.height >= TITLE_HEIGHT + TILES_HEIGHT,
        area.y + area.height <= u16::MAX,
    ensures
        r.0 == band(area, 0, TITLE_HEIGHT),
        r.1 == band(area, TITLE_HEIGHT, TILES_HEIGHT),
        r.2 == band(
            area,
            (TITLE_HEIGHT + TILES_HEIGHT) as u16,
            (area.height - TITLE_HEIGHT - TILES_HEIGHT) as u16,
        ),
{
    let title = Region { x: area.x, y: area.y, width: area.width, height: TITLE_HEIGHT };
    let tiles = Region {
        x: area.x,
        y: area.y + TITLE_HEIGHT,
        width: area.width,
        height: TILES_HEIGHT,
    };
    let chart = Region {
        x: area.x,
        y: area.y + TITLE_HEIGHT + TILES_HEIGHT,
        width: area.width,
        height: area.height - TITLE_HEIGHT - TILES_HEIGHT,
    };
    (title, tiles, chart)
}

/// Cuts `b` into four columns of equal width, left to right; the cells left
/// over go one each to the leftmost columns.
pub fn split_columns(b: Region) -> (r: (Region, Region, Region, Region))
    requires
        b.x + b.width <= u16::MAX,
    ensures
        r.0 == column(b, 0),
        r.1 == column(b, 1),
        r.2 == column(b, 2),
        r.3 == column(b, 3),
{
    let quarter: u16 = b.width / 4;
    let extra: u16 = b.width % 4;
    let w0: u16 = if extra > 0 { quarter + 1 } else { quarter };
    let w1: u16 = if extra > 1 { quarter + 1 } else { quarter };
    let w2: u16 = if extra > 2 { quarter + 1 } else { quarter };
    let w3: u16 = quarter;
    proof {
        reveal_with_fuel(column_offset, 5);
        assert(b.width == 4 * quarter + extra);
    }
    let c0 = Region { x: b.x, y: b.y, width: w0, height: b.height };
    let c1 = Region { x: b.x + w0, y: b.y, width: w1, height: b.height };
    let c2 = Region { x: b.x + w0 + w1, y: b.y, width: w2, height: b.height };
    let c3 = Region { x: b.x + w0 + w1 + w2, y: b.y, width: w3, height: b.height };
    (c0, c1, c2, c3)
}

/// The dashboard's six regions: a 25-row working area at the viewport's
/// origin, cut into title, tiles and chart bands, the tile band cut into four
/// columns.
pub fn compute_regions(viewport: Region) -> (r: RegionTree)
    requires
        fits(viewport),
    ensures
        r == regions_spec(viewport),
{
    let area = working_area(viewport);
    let (title, tiles, chart) = split_bands(area);
    let (confirmed, active, recovered, fatal) = split_columns(tiles);
    RegionTree { title, confirmed, active, recovered, fatal, chart }
}

/// The four tiles partition the tile band: each spans the band's rows and lies
/// within its columns, each starts where the one to its left ends (so no two
/// overlap), the first at the band's left edge and the last ending at its
/// right edge, so that their widths add up to the band's width exactly. Each
/// is a quarter of the band wide, and the cells left over widen the leftmost
/// tiles by one each.
pub proof fn lemma_tiles_partition_band(v: Region)
    requires
        fits(v),
    ensures
        regions_spec(v).confirmed == column(tiles_band(v), 0),
        regions_spec(v).active == column(tiles_band(v), 1),
        regions_spec(v).recovered == column(tiles_band(v), 2),
        regions_spec(v).fatal == column(tiles_band(v), 3),
        forall|i: nat|
            #![trigger column(tiles_band(v), i)]
            i < 4 ==> {
                let b = tiles_band(v);
                let c = column(b, i);
                &&& c.y == b.y
                &&& c.height == b.height
                &&& b.x <= c.x
                &&& c.x + c.width <= b.x + b.width
                &&& c.width == b.width / 4 + if i < b.width % 4 { 1int } else { 0int }
            },
        forall|i: nat, j: nat|
            i < j < 4 ==> #[trigger] column(tiles_band(v), i).x + column(tiles_band(v), i).width
                <= #[trigger] column(tiles_band(v), j).x,
        column(tiles_band(v), 0).x == tiles_band(v).x,
        column(tiles_band(v), 3).x + column(tiles_band(v), 3).width == tiles_band(v).x
            + tiles_band(v).width,
        column(tiles_band(v), 0).width + column(tiles_band(v), 1).width + column(
            tiles_band(v),
            2,
        ).width + column(tiles_band(v), 3).width == tiles_band(v).width,
{
    let b = tiles_band(v);
    let w = b.width as nat;
    reveal_with_fuel(column_offset, 5);
    assert(w == 4 * (w / 4) + w % 4);
    assert(column_offset(w, 4) == w);
    assert forall|i: nat| i < 4 implies #[trigger] column_offset(w, i) + column_width(w, i) <= w by {
        assert(column_offset(w, 4) == column_offset(w, 3) + column_width(w, 3));
    }
    assert forall|i: nat, j: nat| i < j < 4 implies #[trigger] column_offset(w, i) + column_width(w, i)
        <= #[trigger] column_offset(w, j) by {}
}

/// The bands are 3, 4 and 18 rows high, and the regions do not depend on the
/// viewport's height at all.
pub proof fn lemma_band_heights(v: Region, rows: u16)
    requires
        fits(v),
    ensures
        regions_spec(v).title.height == 3,
        tiles_band(v).height == 4,
        regions_spec(v).confirmed.height == 4,
        regions_spec(v).active.height == 4,
        regions_spec(v).recovered.height == 4,
        regions_spec(v).fatal.height == 4,
        regions_spec(v).chart.height == 18,
        regions_spec(v).title.y == v.y,
        regions_spec(v).confirmed.y == v.y + 3,
        regions_spec(v).chart.y == v.y + 7,
        regions_spec(Region { height: rows, ..v }) == regions_spec(v),
{
}

} // verus!
