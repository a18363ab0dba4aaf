use covid_tracker::layout::{compute_regions, split_columns, working_area, Region};

fn viewport(width: u16, height: u16) -> Region {
    Region { x: 0, y: 0, width, height }
}

#[test]
fn band_heights_are_fixed() {
    for height in [0u16, 10, 25, 60] {
        let r = compute_regions(viewport(80, height));
        assert_eq!(r.title, Region { x: 0, y: 0, width: 80, height: 3 });
        assert_eq!(r.confirmed.y, 3);
        assert_eq!(r.confirmed.height, 4);
        assert_eq!(r.chart, Region { x: 0, y: 7, width: 80, height: 18 });
    }
}

#[test]
fn working_area_is_25_rows() {
    let a = working_area(Region { x: 2, y: 5, width: 40, height: 100 });
    assert_eq!(a, Region { x: 2, y: 5, width: 40, height: 25 });
}

#[test]
fn tiles_split_evenly() {
    let r = compute_regions(viewport(80, 30));
    let tiles = [r.confirmed, r.active, r.recovered, r.fatal];
    for (i, t) in tiles.iter().enumerate() {
        assert_eq!(*t, Region { x: 20 * i as u16, y: 3, width: 20, height: 4 });
    }
}

#[test]
fn remainder_goes_to_leftmost_tiles() {
    let r = compute_regions(Region { x: 5, y: 1, width: 10, height: 30 });
    assert_eq!(r.confirmed, Region { x: 5, y: 4, width: 3, height: 4 });
    assert_eq!(r.active, Region { x: 8, y: 4, width: 3, height: 4 });
    assert_eq!(r.recovered, Region { x: 11, y: 4, width: 2, height: 4 });
    assert_eq!(r.fatal, Region { x: 13, y: 4, width: 2, height: 4 });
}

#[test]
fn narrow_viewport_gives_empty_tiles() {
    let (a, b, c, d) = split_columns(Region { x: 0, y: 3, width: 3, height: 4 });
    assert_eq!([a.width, b.width, c.width, d.width], [1, 1, 1, 0]);
    assert_eq!([a.x, b.x, c.x, d.x], [0, 1, 2, 3]);
    let r = compute_regions(viewport(0, 0));
    assert_eq!(r.confirmed.width + r.active.width + r.recovered.width + r.fatal.width, 0);
}

#[test]
fn tile_widths_sum_to_band_width() {
    for width in 0u16..200 {
        let r = compute_regions(viewport(width, 25));
        let tiles = [r.confirmed, r.active, r.recovered, r.fatal];
        let sum: u32 = tiles.iter().map(|t| t.width as u32).sum();
        assert_eq!(sum, width as u32);
        for k in 0..3 {
            assert_eq!(tiles[k].x + tiles[k].width, tiles[k + 1].x);
            assert!(tiles[k].width >= tiles[k + 1].width);
        }
    }
}
