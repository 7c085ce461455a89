use macromapper::error::EditError;
use macromapper::geometry::{Line, Point};
use macromapper::hatch::{
    clip_cell, comb, comb_line_at, crossing_point, crossings, diagram_cells, hatch, is_fit_window,
    is_long_enough, keep_cell, place_site, place_sites, single_piece, trim, trim_stroke, window,
    HatchStyle, Window,
};
use macromapper::region::{poly_rect, Region};
use macromapper::stroke::Crossing;

fn pt(x: f64, y: f64) -> Point {
    Point { x: x.to_bits(), y: y.to_bits() }
}

fn seg(x1: f64, y1: f64, x2: f64, y2: f64) -> Line {
    Line(pt(x1, y1), pt(x2, y2))
}

fn bits(x: f64) -> u64 {
    x.to_bits()
}

fn length(l: &Line) -> f64 {
    let (ax, ay) = (f64::from_bits(l.0.x), f64::from_bits(l.0.y));
    let (bx, by) = (f64::from_bits(l.1.x), f64::from_bits(l.1.y));
    ((ax - bx).powi(2) + (ay - by).powi(2)).sqrt()
}

#[test]
fn window_reaches_fifty_beyond_the_rectangle() {
    let w = window(bits(50.0), pt(10.0, 20.0), pt(110.0, 40.0)).unwrap();
    assert_eq!(w.min, pt(-40.0, -30.0));
    assert_eq!(w.max, pt(160.0, 90.0));
    assert_eq!(f64::from_bits(w.width), 200.0);
    assert_eq!(f64::from_bits(w.height), 120.0);
    assert_eq!(window(bits(50.0), pt(-f64::MAX, 0.0), pt(f64::MAX, 1.0)), None);
    assert_eq!(window(bits(50.0), pt(f64::NAN, 0.0), pt(1.0, 1.0)), None);
}

#[test]
fn sites_move_with_the_rectangle() {
    assert_eq!(place_site(bits(50.0), pt(3.0, 4.0), pt(10.0, 20.0)), Some(pt(-37.0, -26.0)));
    assert_eq!(place_site(bits(50.0), pt(3.0, 4.0), pt(f64::INFINITY, 20.0)), None);
}

#[test]
fn comb_has_twenty_one_upright_strokes() {
    let c = comb(bits(20.0), 10).unwrap();
    assert_eq!(c.len(), 21);
    for (k, l) in c.iter().enumerate() {
        let x = 4.0 * (k as f64 - 10.0);
        assert_eq!(*l, seg(x, -40.0, x, 40.0));
    }
    assert_eq!(comb_line_at(bits(20.0), 10, -10), Some(seg(-40.0, -40.0, -40.0, 40.0)));
    assert_eq!(comb_line_at(bits(20.0), 10, 0), Some(seg(0.0, -40.0, 0.0, 40.0)));
    assert_eq!(comb_line_at(bits(20.0), 10, 3), Some(seg(12.0, -40.0, 12.0, 40.0)));
    assert_eq!(comb_line_at(bits(20.0), 10, 10), Some(seg(40.0, -40.0, 40.0, 40.0)));
}

#[test]
fn stroke_is_trimmed_to_the_cell() {
    let square = vec![
        seg(-10.0, -10.0, 10.0, -10.0),
        seg(10.0, -10.0, 10.0, 10.0),
        seg(10.0, 10.0, -10.0, 10.0),
        seg(-10.0, 10.0, -10.0, -10.0),
    ];
    let upright = seg(4.0, -40.0, 4.0, 40.0);
    assert_eq!(
        crossings(upright, &square),
        vec![
            Crossing::Single { at: pt(4.0, -10.0), proper: true },
            Crossing::Single { at: pt(4.0, 10.0), proper: true },
        ]
    );
    let kept = trim_stroke(bits(7.0), upright, pt(0.0, 0.0), 0f64.to_bits(), &square);
    assert_eq!(kept, Ok(Some(seg(4.0, -10.0, 4.0, 10.0))));
    let outside = seg(24.0, -40.0, 24.0, 40.0);
    assert_eq!(trim_stroke(bits(7.0), outside, pt(0.0, 0.0), 0f64.to_bits(), &square), Ok(None));
    let corner = seg(10.0, -40.0, 10.0, 40.0);
    assert_eq!(crossings(corner, &square).len(), 3);
    assert_eq!(trim_stroke(bits(7.0), corner, pt(0.0, 0.0), 0f64.to_bits(), &square), Ok(None));
    let ending = seg(4.0, -10.0, 4.0, 40.0);
    assert_eq!(
        crossings(ending, &square),
        vec![
            Crossing::Single { at: pt(4.0, -10.0), proper: false },
            Crossing::Single { at: pt(4.0, 10.0), proper: true },
        ]
    );
    assert_eq!(trim_stroke(bits(7.0), ending, pt(0.0, 0.0), 0f64.to_bits(), &square), Ok(None));
    let small = vec![
        seg(-3.0, -3.0, 3.0, -3.0),
        seg(3.0, -3.0, 3.0, 3.0),
        seg(3.0, 3.0, -3.0, 3.0),
        seg(-3.0, 3.0, -3.0, -3.0),
    ];
    let short = seg(1.0, -40.0, 1.0, 40.0);
    assert_eq!(crossings(short, &small).len(), 2);
    assert_eq!(trim_stroke(bits(7.0), short, pt(0.0, 0.0), 0f64.to_bits(), &small), Ok(None));
    let exact = vec![
        seg(-3.5, -3.5, 3.5, -3.5),
        seg(3.5, -3.5, 3.5, 3.5),
        seg(3.5, 3.5, -3.5, 3.5),
        seg(-3.5, 3.5, -3.5, -3.5),
    ];
    assert_eq!(
        trim_stroke(bits(7.0), short, pt(0.0, 0.0), 0f64.to_bits(), &exact),
        Ok(Some(seg(1.0, -3.5, 1.0, 3.5)))
    );
    let moved = trim_stroke(bits(7.0), seg(0.0, -40.0, 0.0, 40.0), pt(4.0, 0.0), 0f64.to_bits(), &square);
    assert_eq!(moved, Ok(Some(seg(4.0, -10.0, 4.0, 10.0))));
}

#[test]
fn cells_are_kept_in_the_band_only() {
    let area = poly_rect(pt(0.0, 0.0), pt(100.0, 100.0));
    let limit = 37.5f64.to_bits();
    let inside = vec![pt(10.0, 10.0), pt(10.0, 20.0), pt(20.0, 20.0), pt(20.0, 10.0)];
    assert_eq!(clip_cell(&area, &inside, limit), Ok(None));
    let far = vec![pt(200.0, 10.0), pt(200.0, 20.0), pt(210.0, 20.0), pt(210.0, 10.0)];
    assert_eq!(clip_cell(&area, &far, limit), Ok(None));
    let near = vec![pt(110.0, 10.0), pt(110.0, 20.0), pt(120.0, 20.0), pt(120.0, 10.0)];
    let piece = clip_cell(&area, &near, limit).unwrap().unwrap();
    assert_eq!(piece.len(), 1);
    for p in &piece[0] {
        let x = f64::from_bits(p.x);
        assert!(110.0 <= x && x <= 120.0);
    }
    let astride = vec![pt(90.0, 10.0), pt(90.0, 20.0), pt(120.0, 20.0), pt(120.0, 10.0)];
    let piece = clip_cell(&area, &astride, limit).unwrap().unwrap();
    for p in &piece[0] {
        assert!(f64::from_bits(p.x) >= 100.0);
    }
    let broken = vec![pt(f64::NAN, 10.0), pt(90.0, 20.0), pt(120.0, 20.0)];
    assert_eq!(clip_cell(&area, &broken, limit), Err(EditError::NotFinite));
    assert_eq!(clip_cell(&area, &vec![], limit), Err(EditError::NoCentroid));
    let strip = poly_rect(pt(0.0, -100.0), pt(10.0, 100.0));
    let split = vec![pt(-20.0, 0.0), pt(-20.0, 10.0), pt(30.0, 10.0), pt(30.0, 0.0)];
    assert!(!strip.contains(&split));
    assert_eq!(clip_cell(&strip, &split, limit), Err(EditError::ClipCount));
}

#[test]
fn empty_region_has_no_hatching() {
    assert_eq!(hatch(&HatchStyle::default(), &Region::new()), Ok(vec![]));
}

#[test]
fn hatching_is_repeatable_long_enough_and_outside() {
    let area = poly_rect(pt(0.0, 0.0), pt(1.0, 1.0));
    let first = hatch(&HatchStyle::default(), &area).unwrap();
    let second = hatch(&HatchStyle::default(), &area).unwrap();
    assert_eq!(first, second);
    assert!(first.len() > 20);
    for l in &first {
        assert!(length(l) >= 7.0);
        for p in [l.0, l.1] {
            let (x, y) = (f64::from_bits(p.x), f64::from_bits(p.y));
            assert!(-50.0 - 1e-6 <= x && x <= 51.0 + 1e-6);
            assert!(-50.0 - 1e-6 <= y && y <= 51.0 + 1e-6);
            let inside = 1e-6 < x && x < 1.0 - 1e-6 && 1e-6 < y && y < 1.0 - 1e-6;
            assert!(!inside);
            let reach = ((x - 0.5).powi(2) + (y - 0.5).powi(2)).sqrt();
            assert!(reach < 37.5 + 2.0 * 40.0);
        }
    }
}

#[test]
fn a_cell_that_the_region_splits_stops_the_hatching() {
    let area = poly_rect(pt(0.0, 0.0), pt(100.0, 100.0));
    assert_eq!(hatch(&HatchStyle::default(), &area), Err(EditError::ClipCount));
}

#[test]
fn window_must_be_of_a_size_to_tessellate() {
    let w = window(bits(50.0), pt(0.0, 0.0), pt(1.0, 1.0)).unwrap();
    assert!(is_fit_window(&w));
    let flat = Window { min: pt(0.0, 0.0), max: pt(10.0, 0.5), width: 0, height: 0 };
    assert!(!is_fit_window(&flat));
    let huge = Window { min: pt(0.0, 0.0), max: pt(1e200, 10.0), width: 0, height: 0 };
    assert!(!is_fit_window(&huge));
    let edge = Window { min: pt(0.0, 0.0), max: pt(2f64.powi(500), 10.0), width: 0, height: 0 };
    assert!(is_fit_window(&edge));
}

#[test]
fn sites_are_placed_one_by_one() {
    let raw = vec![pt(3.0, 4.0), pt(0.0, 0.0)];
    assert_eq!(place_sites(bits(50.0), &raw, pt(10.0, 20.0)), Some(vec![pt(-37.0, -26.0), pt(-40.0, -30.0)]));
    assert_eq!(place_sites(bits(50.0), &vec![], pt(10.0, 20.0)), Some(vec![]));
    assert_eq!(place_sites(bits(50.0), &raw, pt(f64::MAX, 20.0)).is_some(), true);
    assert_eq!(place_sites(bits(50.0), &raw, pt(f64::NAN, 20.0)), None);
}

#[test]
fn missing_diagram_is_an_error() {
    assert_eq!(diagram_cells(None), Err(EditError::NoDiagram));
    let cells = vec![vec![pt(0.0, 0.0)], vec![]];
    assert_eq!(diagram_cells(Some(cells.clone())), Ok(cells));
}

#[test]
fn band_takes_cells_outside_and_near() {
    let limit = 37.5f64.to_bits();
    assert!(keep_cell(false, 0f64.to_bits(), limit));
    assert!(keep_cell(false, 37.5f64.to_bits(), limit));
    assert!(!keep_cell(false, 37.6f64.to_bits(), limit));
    assert!(!keep_cell(true, 0f64.to_bits(), limit));
    assert!(!keep_cell(true, 40f64.to_bits(), limit));
    assert!(!keep_cell(false, f64::NAN.to_bits(), limit));
}

#[test]
fn clip_must_leave_one_polygon() {
    let ring = vec![pt(0.0, 0.0), pt(1.0, 0.0), pt(0.0, 1.0), pt(0.0, 0.0)];
    assert_eq!(single_piece(vec![]), Err(EditError::ClipCount));
    assert_eq!(single_piece(vec![vec![ring.clone()]]), Ok(vec![ring.clone()]));
    assert_eq!(
        single_piece(vec![vec![ring.clone()], vec![ring.clone()]]),
        Err(EditError::ClipCount)
    );
    let broken = vec![pt(0.0, 0.0), pt(f64::INFINITY, 0.0), pt(0.0, 0.0)];
    assert_eq!(single_piece(vec![vec![ring, broken]]), Err(EditError::NotFinite));
}

#[test]
fn stroke_needs_exactly_two_proper_crossings_and_seven_at_least() {
    let a = Crossing::Single { at: pt(0.0, 0.0), proper: true };
    let b = Crossing::Single { at: pt(1.0, 2.0), proper: true };
    let c = Crossing::Single { at: pt(3.0, 3.0), proper: true };
    let touch = Crossing::Single { at: pt(1.0, 2.0), proper: false };
    let along = Crossing::Overlap { along: seg(0.0, 0.0, 1.0, 1.0) };
    assert_eq!(trim(&vec![]), None);
    assert_eq!(trim(&vec![a]), None);
    assert_eq!(trim(&vec![a, b]), Some(seg(0.0, 0.0, 1.0, 2.0)));
    assert_eq!(trim(&vec![b, a]), Some(seg(1.0, 2.0, 0.0, 0.0)));
    assert_eq!(trim(&vec![a, b, c]), None);
    assert_eq!(trim(&vec![a, touch]), None);
    assert_eq!(trim(&vec![touch, a]), None);
    assert_eq!(trim(&vec![a, along]), None);
    assert_eq!(trim(&vec![a, b, along]), None);
    assert!(is_long_enough(bits(7.0), 7.5f64.to_bits()));
    assert!(is_long_enough(bits(7.0), 7f64.to_bits()));
    assert!(!is_long_enough(bits(7.0), 6.9f64.to_bits()));
    assert!(!is_long_enough(bits(7.0), f64::NAN.to_bits()));
    assert!(is_long_enough(bits(7.0), f64::INFINITY.to_bits()));
    assert_eq!(crossing_point(&b), Some(pt(1.0, 2.0)));
    assert_eq!(crossing_point(&touch), None);
    assert_eq!(crossing_point(&along), None);
}

#[test]
fn usual_measures() {
    let style = HatchStyle::default();
    assert_eq!(f64::from_bits(style.radius), 20.0);
    assert_eq!(f64::from_bits(style.offset), 50.0);
    assert_eq!(style.hatch_count, 10);
    assert_eq!(f64::from_bits(style.min_length), 7.0);
    assert_eq!(f64::from_bits(style.reach), 0.75);
    assert_eq!(style.seed, 0x5EED);
    assert!(style.is_wf());
    assert!(!HatchStyle { radius: bits(0.0), ..style }.is_wf());
    assert!(!HatchStyle { radius: bits(-1.0), ..style }.is_wf());
    assert!(!HatchStyle { radius: bits(f64::INFINITY), ..style }.is_wf());
    assert!(!HatchStyle { hatch_count: -1, ..style }.is_wf());
    assert!(!HatchStyle { hatch_count: 0x10_0001, ..style }.is_wf());
    assert!(HatchStyle { hatch_count: 0, ..style }.is_wf());
}

#[test]
fn measures_shape_the_hatching() {
    let area = poly_rect(pt(0.0, 0.0), pt(1.0, 1.0));
    let usual = HatchStyle::default();
    let all = hatch(&usual, &area).unwrap();
    let long = hatch(&HatchStyle { min_length: bits(20.0), ..usual }, &area).unwrap();
    assert!(long.len() < all.len());
    for l in &long {
        assert!(length(l) >= 20.0);
    }
    assert!(long.iter().all(|l| all.contains(l)));
    let sparse = hatch(&HatchStyle { hatch_count: 2, ..usual }, &area).unwrap();
    assert!(sparse.len() < all.len());
    let narrow = hatch(&HatchStyle { reach: bits(0.0), ..usual }, &area).unwrap();
    assert!(narrow.len() < all.len());
    let other = hatch(&HatchStyle { seed: 7, ..usual }, &area);
    assert_ne!(other, Ok(all));
    assert_eq!(hatch(&HatchStyle { hatch_count: 0, ..usual }, &area), Err(EditError::NotFinite));
    assert_eq!(
        hatch(&HatchStyle { offset: bits(f64::NAN), ..usual }, &area),
        Err(EditError::NotFinite)
    );
    assert_eq!(comb(bits(5.0), 1).unwrap(), vec![
        seg(-10.0, -10.0, -10.0, 10.0),
        seg(0.0, -10.0, 0.0, 10.0),
        seg(10.0, -10.0, 10.0, 10.0),
    ]);
}
