use pathtracer::bands::{assemble_bands, band_bounds, plan_bands};
use pathtracer::pixel::Rgb;

#[test]
fn bands_split_evenly_when_divisible() {
    assert_eq!(plan_bands(8, 4), vec![(0, 2), (2, 4), (4, 6), (6, 8)]);
}

#[test]
fn bands_cover_every_row_with_a_remainder() {
    let plan = plan_bands(10, 3);
    assert_eq!(plan, vec![(0, 3), (3, 6), (6, 10)]);
    assert_eq!(plan.first().unwrap().0, 0);
    assert_eq!(plan.last().unwrap().1, 10);
    for pair in plan.windows(2) {
        assert_eq!(pair[0].1, pair[1].0);
    }
}

#[test]
fn bands_with_more_workers_than_rows_stay_contiguous() {
    let plan = plan_bands(2, 4);
    assert_eq!(plan.first().unwrap().0, 0);
    assert_eq!(plan.last().unwrap().1, 2);
    for pair in plan.windows(2) {
        assert_eq!(pair[0].1, pair[1].0);
    }
}

#[test]
fn band_bounds_agrees_with_the_plan() {
    let plan = plan_bands(23, 7);
    for (i, interval) in plan.iter().enumerate() {
        assert_eq!(band_bounds(23, 7, i), *interval);
    }
}

#[test]
fn assemble_joins_buffers_in_band_order() {
    let a = Rgb::new(1, 2, 3);
    let b = Rgb::new(4, 5, 6);
    let c = Rgb::new(7, 8, 9);
    let joined = assemble_bands(&vec![vec![a], vec![], vec![b, c]]);
    assert_eq!(joined, vec![a, b, c]);
}

#[test]
fn assemble_of_nothing_is_empty() {
    let joined = assemble_bands(&Vec::new());
    assert_eq!(joined, Vec::<Rgb>::new());
}
