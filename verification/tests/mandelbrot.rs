use std::cell::Cell;

use mandelbrot_explorer::mandelbrot::{
    compute_set_inner, pixel_unless_cancelled, MandelbrotSetWithHistogram,
};
use tokio_util::sync::CancellationToken;

#[test]
fn empty_image_has_no_pixels() {
    let image = MandelbrotSetWithHistogram::empty();
    assert_eq!(image.len(), 0);
    assert!(image.get_image_from_palette(&vec![(1, 2, 3)]).is_empty());
}

#[test]
fn results_beyond_the_limit_are_refused() {
    assert!(MandelbrotSetWithHistogram::from_results(vec![(false, 3)], 3).is_some());
    assert!(MandelbrotSetWithHistogram::from_results(vec![(false, 1), (true, 4)], 3).is_none());
    assert!(MandelbrotSetWithHistogram::from_results(vec![], usize::MAX).is_none());
    assert!(MandelbrotSetWithHistogram::from_results(vec![], 0).is_some());
}

#[test]
fn histogram_counts_pixels_by_iterations() {
    let results = vec![(false, 1), (false, 3), (true, 3), (false, 1), (false, 0)];
    let image = MandelbrotSetWithHistogram::from_results(results, 4).unwrap();
    assert_eq!(image.iteration_limit(), 4);
    assert_eq!(image.histogram(), &vec![1, 2, 0, 2, 0]);
    let empty = MandelbrotSetWithHistogram::default();
    assert_eq!(empty.iteration_limit(), 0);
    assert_eq!(empty.histogram(), &vec![0]);
}

#[test]
fn results_are_kept_in_order() {
    let results = vec![(false, 1), (true, 2), (false, 0)];
    let image = MandelbrotSetWithHistogram::from_results(results.clone(), 2).unwrap();
    assert_eq!(image.len(), 3);
    assert_eq!(image.pixels(), &results);
}

#[test]
fn colours_follow_the_share_of_pixels_that_escaped_earlier() {
    let a = (10, 0, 0);
    let b = (0, 20, 0);
    let c = (0, 0, 30);
    let results = vec![(false, 1), (false, 2), (true, 3), (false, 1)];
    let image = MandelbrotSetWithHistogram::from_results(results, 3).unwrap();
    // ranks 0, 2, 4, 0 of 4 pixels over a span of 2: indices 0, 1, 2, 0
    assert_eq!(image.get_image_from_palette(&vec![a, b, c]), vec![c, b, a, c]);
}

#[test]
fn bounded_pixels_take_the_first_colour() {
    let palette = vec![(0, 0, 0), (255, 255, 255)];
    let image = MandelbrotSetWithHistogram::from_results(vec![(true, 5), (true, 5)], 5).unwrap();
    assert_eq!(image.get_image_from_palette(&palette), vec![(0, 0, 0), (0, 0, 0)]);
}

#[test]
fn single_colour_palette_paints_everything_alike() {
    let image =
        MandelbrotSetWithHistogram::from_results(vec![(false, 0), (false, 9), (true, 9)], 9)
            .unwrap();
    assert_eq!(image.get_image_from_palette(&vec![(7, 8, 9)]), vec![(7, 8, 9); 3]);
}

#[test]
fn ranks_are_rounded_down() {
    let palette: Vec<(u8, u8, u8)> = (0..4).map(|i| (i, i, i)).collect();
    // iteration counts 0, 1, 2, 3, 4: ranks 0, 1, 2, 3, 4 of 5 over a span of 3
    // indices 0, 0, 1, 1, 2 -> slots 3, 3, 2, 2, 1
    let results = vec![(false, 0), (false, 1), (false, 2), (false, 3), (false, 4)];
    let image = MandelbrotSetWithHistogram::from_results(results, 4).unwrap();
    assert_eq!(
        image.get_image_from_palette(&palette),
        vec![(3, 3, 3), (3, 3, 3), (2, 2, 2), (2, 2, 2), (1, 1, 1)]
    );
}

#[test]
fn computation_visits_every_pixel_row_by_row() {
    let token = CancellationToken::new();
    let image = compute_set_inner(3, 2, 10, &token, |x, y| (x == y, x + 2 * y)).unwrap();
    assert_eq!(
        image.pixels(),
        &vec![(true, 0), (false, 1), (false, 2), (false, 2), (true, 3), (false, 4)]
    );
    assert!(!token.is_cancelled());
}

#[test]
fn cancelled_computation_returns_nothing() {
    let token = CancellationToken::new();
    token.cancel();
    let visited = Cell::new(0);
    let image = compute_set_inner(4, 4, 10, &token, |_, _| {
        visited.set(visited.get() + 1);
        (true, 10)
    });
    assert!(image.is_none());
    assert_eq!(visited.get(), 0);
}

#[test]
fn computation_cancelled_halfway_stops_at_once() {
    let token = CancellationToken::new();
    let visited = Cell::new(0);
    let image = compute_set_inner(4, 4, 10, &token, |_, _| {
        visited.set(visited.get() + 1);
        if visited.get() == 8 {
            token.cancel();
        }
        (false, 1)
    });
    assert!(image.is_none());
    assert_eq!(visited.get(), 8);
}

#[test]
fn computation_without_pixels_ignores_the_token() {
    let token = CancellationToken::new();
    token.cancel();
    let none = compute_set_inner(0, 5, 3, &token, |_, _| (true, 3)).unwrap();
    assert_eq!(none.len(), 0);
    let none = compute_set_inner(5, 0, 3, &token, |_, _| (true, 3)).unwrap();
    assert_eq!(none.len(), 0);
}

#[test]
fn raised_token_stops_before_the_pixel() {
    let started = Cell::new(0);
    let pixel = |x: usize, y: usize| {
        started.set(started.get() + 1);
        (x < y, x + y)
    };
    assert_eq!(pixel_unless_cancelled(true, 1, 2, &pixel), None);
    assert_eq!(started.get(), 0);
    assert_eq!(pixel_unless_cancelled(false, 1, 2, &pixel), Some((true, 3)));
    assert_eq!(pixel_unless_cancelled(false, 2, 1, &pixel), Some((false, 3)));
    assert_eq!(started.get(), 2);
}
