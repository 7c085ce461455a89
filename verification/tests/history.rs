use macromapper::edit::{MapEdit, MapSubtraction, MapUnion};
use macromapper::geometry::Point;
use macromapper::history::History;
use macromapper::layer::LayerMap;
use macromapper::region::Region;

fn pt(x: f64, y: f64) -> Point {
    Point { x: x.to_bits(), y: y.to_bits() }
}

fn polygon(points: &[(f64, f64)]) -> Region {
    Region::polygon(&points.iter().map(|p| pt(p.0, p.1)).collect())
}

fn area(map: &LayerMap) -> f64 {
    f64::from_bits(map.layers_iter().get(0).unwrap().area().unsigned_area())
}

#[test]
fn basic_undo_redo() {
    let mut test_map = LayerMap::new();
    test_map.append_layer("test".to_string());
    let mut history = History::new();
    history
        .edit(
            &mut test_map,
            MapEdit::Union(MapUnion::new(
                0,
                polygon(&[(0., 0.), (0., 1.), (1., 1.), (1., 0.)]),
            )),
        )
        .unwrap();
    let one = test_map.clone();
    history
        .edit(
            &mut test_map,
            MapEdit::Union(MapUnion::new(
                0,
                polygon(&[(1., 0.), (1., 0.5), (2., 0.5), (2., 0.)]),
            )),
        )
        .unwrap();
    let two = test_map.clone();
    history.undo(&mut test_map).unwrap();
    let three = test_map.clone();
    history.redo(&mut test_map).unwrap();
    let four = test_map.clone();
    history
        .edit(
            &mut test_map,
            MapEdit::Union(MapUnion::new(
                0,
                polygon(&[(0., 0.), (0., 1.), (1., 1.), (1., 0.)]),
            )),
        )
        .unwrap();
    let five = test_map.clone();
    history.undo(&mut test_map).unwrap();
    let six = test_map.clone();
    history.redo(&mut test_map).unwrap();
    let seven = test_map.clone();

    assert_eq!(area(&one), area(&three));
    assert_eq!(area(&two), area(&four));
    assert_eq!(area(&four), area(&six));
    assert_eq!(area(&five), area(&seven));
}

#[test]
fn union_union_subtraction_with_undo_and_redo() {
    let mut map = LayerMap::new();
    map.append_layer("layer-0".to_string());
    let mut history = History::new();
    assert_eq!(area(&map), 0.0);
    let square = [(0., 0.), (0., 1.), (1., 1.), (1., 0.)];
    let ledge = [(1., 0.), (1., 0.5), (2., 0.5), (2., 0.)];
    assert_eq!(history.edit(&mut map, MapEdit::Union(MapUnion::new(0, polygon(&square)))), Ok(true));
    assert_eq!(area(&map), 1.0);
    assert_eq!(history.edit(&mut map, MapEdit::Union(MapUnion::new(0, polygon(&ledge)))), Ok(true));
    assert_eq!(area(&map), 1.5);
    assert_eq!(history.undo(&mut map), Ok(true));
    assert_eq!(area(&map), 1.0);
    assert_eq!(history.redo(&mut map), Ok(true));
    assert_eq!(area(&map), 1.5);
    assert_eq!(
        history.edit(&mut map, MapEdit::Subtraction(MapSubtraction::new(0, polygon(&square)))),
        Ok(true)
    );
    assert_eq!(area(&map), 0.5);
    assert_eq!(history.undo(&mut map), Ok(true));
    assert_eq!(area(&map), 1.5);
    assert_eq!(history.redo(&mut map), Ok(true));
    assert_eq!(area(&map), 0.5);
    assert_eq!(history.len(), 3);
    assert_eq!(history.cursor(), 3);
}
