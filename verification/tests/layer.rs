use macromapper::edit::{splits, MapEdit, MapSubtraction, MapUnion, PolyOpType};
use macromapper::error::EditError;
use macromapper::geometry::{Line, Point};
use macromapper::history::History;
use macromapper::layer::{Layer, LayerMap};
use macromapper::region::{boundary_of, edges_of, poly_rect, Region};
use macromapper::scalar::{float_eq, float_le, float_lt, is_finite, is_moderate, negate};
use macromapper::sketch::{Color, Sketch};

fn pt(x: f64, y: f64) -> Point {
    Point { x: x.to_bits(), y: y.to_bits() }
}

fn seg(x1: f64, y1: f64, x2: f64, y2: f64) -> Line {
    Line(pt(x1, y1), pt(x2, y2))
}

fn area(map: &LayerMap) -> f64 {
    f64::from_bits(map.layer(0).area().unsigned_area())
}

#[test]
fn numbers_compare_as_doubles_do() {
    let values = [
        0.0,
        -0.0,
        1.0,
        -1.0,
        7.0,
        37.5,
        f64::MIN_POSITIVE,
        -f64::MIN_POSITIVE,
        5e-324,
        f64::MAX,
        f64::MIN,
        f64::INFINITY,
        f64::NEG_INFINITY,
        f64::NAN,
        -f64::NAN,
    ];
    for a in values {
        assert_eq!(is_finite(a.to_bits()), a.is_finite());
        assert_eq!(is_moderate(a.to_bits()), a.abs() <= 2f64.powi(500));
        assert_eq!(negate(a.to_bits()), (-a).to_bits());
        for b in values {
            assert_eq!(float_eq(a.to_bits(), b.to_bits()), a == b);
            assert_eq!(float_lt(a.to_bits(), b.to_bits()), a < b);
            assert_eq!(float_le(a.to_bits(), b.to_bits()), a <= b);
        }
    }
}

#[test]
fn points_and_lines_know_whether_they_are_finite() {
    assert!(pt(1.0, -2.0).is_finite());
    assert!(!pt(f64::NAN, 0.0).is_finite());
    assert!(!pt(0.0, f64::INFINITY).is_finite());
    assert!(pt(0.0, 1.0).coincides(&pt(-0.0, 1.0)));
    assert!(!pt(0.0, 1.0).coincides(&pt(0.0, 2.0)));
    assert!(!pt(f64::NAN, 1.0).coincides(&pt(f64::NAN, 1.0)));
    assert!(seg(0.0, 0.0, 1.0, 1.0).is_finite());
    assert!(!seg(0.0, 0.0, 1.0, f64::NEG_INFINITY).is_finite());
    assert_eq!(Line::new(1, 2, 3, 4), Line(Point { x: 1, y: 2 }, Point { x: 3, y: 4 }));
}

#[test]
fn sketch_collects_lines() {
    let ink = Color { r: 0, g: 0, b: 0, a: 0x3F80_0000 };
    assert_eq!(Color::black(), ink);
    assert_eq!(f32::from_bits(Color::gray().r), 0.51);
    assert_eq!(f32::from_bits(Color::gray().a), 1.0);
    let mut sketch = Sketch::new(3f32.to_bits(), ink);
    assert_eq!(sketch.lines().len(), 0);
    sketch.add(seg(0.0, 0.0, 1.0, 0.0));
    sketch.add(seg(1.0, 0.0, 1.0, 1.0));
    assert_eq!(*sketch.lines(), vec![seg(0.0, 0.0, 1.0, 0.0), seg(1.0, 0.0, 1.0, 1.0)]);
    assert_eq!(f32::from_bits(sketch.thickness()), 3.0);
    assert_eq!(sketch.color(), ink);
    sketch.clear();
    assert_eq!(sketch.lines().len(), 0);
    assert_eq!(sketch.color(), ink);
}

#[test]
fn edges_follow_the_rings() {
    let ring = vec![pt(0.0, 0.0), pt(1.0, 0.0), pt(1.0, 1.0), pt(0.0, 0.0)];
    let hole = vec![pt(0.5, 0.25), pt(0.75, 0.25), pt(0.5, 0.25)];
    let edges = edges_of(&vec![ring.clone(), hole.clone(), vec![], vec![pt(9.0, 9.0)]]);
    assert_eq!(
        edges,
        vec![
            seg(0.0, 0.0, 1.0, 0.0),
            seg(1.0, 0.0, 1.0, 1.0),
            seg(1.0, 1.0, 0.0, 0.0),
            seg(0.5, 0.25, 0.75, 0.25),
            seg(0.75, 0.25, 0.5, 0.25),
        ]
    );
    let all = boundary_of(&vec![vec![hole], vec![ring]]);
    assert_eq!(all.len(), 5);
    assert_eq!(all[0], seg(0.5, 0.25, 0.75, 0.25));
    assert_eq!(all[4], seg(1.0, 1.0, 0.0, 0.0));
}

#[test]
fn new_layer_is_empty() {
    let layer = Layer::new("test".to_string());
    assert_eq!(layer.name(), "test");
    assert_eq!(layer.area().rings().len(), 0);
    assert_eq!(layer.area_sketch().lines().len(), 0);
    assert_eq!(layer.hatching().lines().len(), 0);
    assert_eq!(f32::from_bits(layer.area_sketch().thickness()), 3.0);
    assert_eq!(f32::from_bits(layer.hatching().thickness()), 2.0);
    assert_eq!(layer.area_sketch().color(), Color::black());
    assert_eq!(layer.hatching().color(), Color::gray());
}

#[test]
fn layers_are_appended_in_order() {
    let mut map = LayerMap::new();
    assert_eq!(map.len(), 0);
    for i in 0..12 {
        map.append_layer(format!("layer-{}", i));
    }
    assert_eq!(map.len(), 12);
    assert_eq!(map.layer(0).name(), "layer-0");
    assert_eq!(map.layer(10).name(), "layer-10");
    assert_eq!(map.layers_iter().len(), 12);
    assert_eq!(map.layers_iter()[11].name(), "layer-11");
    assert_eq!(map.layer(11).area().rings().len(), 0);
    assert_eq!(map.layer(11).hatching().lines().len(), 0);
}

#[test]
fn layer_draws_its_sketches_for_its_area() {
    let layer = Layer::new("a".to_string()).with_area(poly_rect(pt(0.0, 0.0), pt(1.0, 1.0))).unwrap();
    assert_eq!(layer.name(), "a");
    assert_eq!(f64::from_bits(layer.area().unsigned_area()), 1.0);
    assert_eq!(
        *layer.area_sketch().lines(),
        vec![
            seg(0.0, 0.0, 0.0, 1.0),
            seg(0.0, 1.0, 1.0, 1.0),
            seg(1.0, 1.0, 1.0, 0.0),
            seg(1.0, 0.0, 0.0, 0.0),
        ]
    );
    assert!(layer.hatching().lines().len() > 20);
    let mut again = layer.clone();
    again.update_sketch();
    assert_eq!(again.generate_hatching(), Ok(()));
    assert_eq!(again.area_sketch().lines(), layer.area_sketch().lines());
    assert_eq!(again.hatching().lines(), layer.hatching().lines());
    let refused = Layer::new("b".to_string()).with_area(poly_rect(pt(0.0, 0.0), pt(100.0, 100.0)));
    assert_eq!(refused.err(), Some(EditError::ClipCount));
}

#[test]
fn edit_only_touches_its_layer() {
    let mut map = LayerMap::new();
    map.append_layer("layer-0".to_string());
    map.append_layer("layer-0".to_string());
    let mut history = History::new();
    let square = poly_rect(pt(0.0, 0.0), pt(1.0, 1.0));
    assert_eq!(history.edit(&mut map, MapEdit::Union(MapUnion::new(1, square))), Ok(true));
    assert_eq!(area(&map), 0.0);
    assert_eq!(f64::from_bits(map.layer(1).area().unsigned_area()), 1.0);
    assert_eq!(map.layer(1).area_sketch().lines().len(), 4);
    assert!(map.layer(1).hatching().lines().len() > 0);
    assert_eq!(map.layer(0).area_sketch().lines().len(), 0);
}

#[test]
fn empty_operand_changes_nothing() {
    let mut map = LayerMap::new();
    map.append_layer("layer-0".to_string());
    let mut history = History::new();
    let square = poly_rect(pt(0.0, 0.0), pt(1.0, 1.0));
    history.edit(&mut map, MapEdit::Union(MapUnion::new(0, square))).unwrap();
    assert_eq!(history.edit(&mut map, MapEdit::Union(MapUnion::new(0, Region::new()))), Ok(true));
    assert_eq!(area(&map), 1.0);
    assert_eq!(
        history.edit(&mut map, MapEdit::Subtraction(MapSubtraction::new(0, Region::new()))),
        Ok(true)
    );
    assert_eq!(area(&map), 1.0);
    assert_eq!(history.undo(&mut map), Ok(true));
    assert_eq!(history.undo(&mut map), Ok(true));
    assert_eq!(area(&map), 1.0);
}

#[test]
fn history_stops_at_both_ends_and_forgets_what_was_undone() {
    let mut map = LayerMap::new();
    map.append_layer("layer-0".to_string());
    let mut history = History::new();
    assert!(!history.can_undo() && !history.can_redo());
    assert_eq!(history.undo(&mut map), Ok(false));
    assert_eq!(history.redo(&mut map), Ok(false));
    let square = poly_rect(pt(0.0, 0.0), pt(1.0, 1.0));
    let ledge = poly_rect(pt(1.0, 0.0), pt(2.0, 0.5));
    let step = poly_rect(pt(0.0, 1.0), pt(0.5, 2.0));
    history.edit(&mut map, MapEdit::Union(MapUnion::new(0, square))).unwrap();
    history.edit(&mut map, MapEdit::Union(MapUnion::new(0, ledge))).unwrap();
    assert_eq!((history.len(), history.cursor()), (2, 2));
    assert_eq!(history.redo(&mut map), Ok(false));
    assert_eq!(history.undo(&mut map), Ok(true));
    assert_eq!(history.undo(&mut map), Ok(true));
    assert_eq!(area(&map), 0.0);
    assert_eq!(history.undo(&mut map), Ok(false));
    assert_eq!((history.len(), history.cursor()), (2, 0));
    assert!(!history.can_undo() && history.can_redo());
    assert_eq!(history.redo(&mut map), Ok(true));
    assert_eq!(area(&map), 1.0);
    history.edit(&mut map, MapEdit::Union(MapUnion::new(0, step))).unwrap();
    assert_eq!((history.len(), history.cursor()), (2, 2));
    assert_eq!(area(&map), 1.5);
    assert_eq!(history.redo(&mut map), Ok(false));
    assert_eq!(history.undo(&mut map), Ok(true));
    assert_eq!(history.undo(&mut map), Ok(true));
    assert_eq!(area(&map), 0.0);
}

#[test]
fn refused_edit_leaves_map_and_history() {
    let mut map = LayerMap::new();
    map.append_layer("layer-0".to_string());
    let mut history = History::new();
    let square = poly_rect(pt(0.0, 0.0), pt(1.0, 1.0));
    history.edit(&mut map, MapEdit::Union(MapUnion::new(0, square))).unwrap();
    history.undo(&mut map).unwrap();
    let big = poly_rect(pt(0.0, 0.0), pt(100.0, 100.0));
    assert_eq!(
        history.edit(&mut map, MapEdit::Union(MapUnion::new(0, big))),
        Err(EditError::ClipCount)
    );
    assert_eq!(area(&map), 0.0);
    assert_eq!((history.len(), history.cursor()), (1, 0));
    assert_eq!(history.redo(&mut map), Ok(true));
    assert_eq!(area(&map), 1.0);
}

#[test]
fn undo_restores_boundary_and_hatching_too() {
    let mut map = LayerMap::new();
    map.append_layer("layer-0".to_string());
    let mut history = History::new();
    let square = poly_rect(pt(0.0, 0.0), pt(1.0, 1.0));
    let ledge = poly_rect(pt(1.0, 0.0), pt(2.0, 0.5));
    history.edit(&mut map, MapEdit::Union(MapUnion::new(0, square))).unwrap();
    let one = map.clone();
    history.edit(&mut map, MapEdit::Union(MapUnion::new(0, ledge))).unwrap();
    let two = map.clone();
    history.undo(&mut map).unwrap();
    assert_eq!(map.layer(0).area().rings(), one.layer(0).area().rings());
    assert_eq!(map.layer(0).area_sketch().lines(), one.layer(0).area_sketch().lines());
    assert_eq!(map.layer(0).hatching().lines(), one.layer(0).hatching().lines());
    history.redo(&mut map).unwrap();
    assert_eq!(map.layer(0).area().rings(), two.layer(0).area().rings());
    assert_eq!(map.layer(0).hatching().lines(), two.layer(0).hatching().lines());
    history.undo(&mut map).unwrap();
    history.undo(&mut map).unwrap();
    assert_eq!(map.layer(0).area().rings().len(), 0);
    assert_eq!(map.layer(0).hatching().lines().len(), 0);
}

#[test]
fn undo_loses_what_the_grid_of_a_far_operand_cannot_hold() {
    let unit = Region::new().union(&poly_rect(pt(0.0, 0.0), pt(1.0, 1.0)));
    let far = poly_rect(pt(1e9, 1e9), pt(2e9, 2e9));
    let base = unit.intersection(&far);
    let back = unit.union(&far).difference(&far).union(&base);
    assert_eq!(f64::from_bits(unit.unsigned_area()), 1.0);
    assert_eq!(f64::from_bits(back.unsigned_area()), 0.0);
    assert!(!splits(PolyOpType::Union, &unit, &far));
}

#[test]
fn areas_of_the_map_split_without_loss() {
    let empty = Region::new();
    let square = poly_rect(pt(0.0, 0.0), pt(1.0, 1.0));
    let ledge = poly_rect(pt(1.0, 0.0), pt(2.0, 0.5));
    assert!(splits(PolyOpType::Union, &empty, &square));
    assert!(splits(PolyOpType::Subtraction, &empty, &square));
    let one = empty.union(&square);
    assert!(splits(PolyOpType::Union, &one, &ledge));
    assert!(splits(PolyOpType::Subtraction, &one, &ledge));
    let two = one.union(&ledge);
    assert!(splits(PolyOpType::Union, &two, &square));
    assert!(splits(PolyOpType::Subtraction, &two, &square));
    assert!(splits(PolyOpType::Union, &two, &empty));
    assert!(one.same_shape(&one.clone()));
    assert!(!one.same_shape(&two));
    assert!(!one.same_shape(&square));
    let tenth = empty.union(&poly_rect(pt(0.1, 0.1), pt(1.1, 1.1)));
    assert!(!splits(PolyOpType::Union, &tenth, &ledge));
}
