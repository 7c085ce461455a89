use macromapper::geometry::Point;
use macromapper::sites::{angle, hash, is_spanning, random, sample, tessellate, turn};

fn pt(x: f64, y: f64) -> Point {
    Point { x: x.to_bits(), y: y.to_bits() }
}

#[test]
fn sampling_is_repeatable_and_spaced() {
    let a = sample(200f64.to_bits(), 150f64.to_bits(), 20f64.to_bits(), 0x5EED);
    let b = sample(200f64.to_bits(), 150f64.to_bits(), 20f64.to_bits(), 0x5EED);
    assert_eq!(a, b);
    assert!(a.len() > 10);
    for (i, p) in a.iter().enumerate() {
        let (px, py) = (f64::from_bits(p.x), f64::from_bits(p.y));
        assert!(0.0 <= px && px < 200.0 && 0.0 <= py && py < 150.0);
        for q in a.iter().skip(i + 1) {
            let (qx, qy) = (f64::from_bits(q.x), f64::from_bits(q.y));
            assert!(((px - qx).powi(2) + (py - qy).powi(2)).sqrt() >= 20.0);
        }
    }
    let c = sample(200f64.to_bits(), 150f64.to_bits(), 20f64.to_bits(), 7);
    assert_ne!(a, c);
}

#[test]
fn tessellation_gives_one_cell_per_site() {
    let sites = vec![pt(25.0, 25.0), pt(75.0, 25.0), pt(25.0, 75.0), pt(75.0, 75.0)];
    let cells = tessellate(pt(0.0, 0.0), pt(100.0, 100.0), &sites).unwrap();
    assert_eq!(cells.len(), 4);
    for cell in &cells {
        assert!(cell.len() >= 3);
        for p in cell {
            let (x, y) = (f64::from_bits(p.x), f64::from_bits(p.y));
            assert!(-1e-9 <= x && x <= 100.0 + 1e-9 && -1e-9 <= y && y <= 100.0 + 1e-9);
        }
    }
    let none = tessellate(pt(0.0, 0.0), pt(100.0, 100.0), &vec![]).unwrap();
    assert_eq!(none.len(), 0);
}

#[test]
fn rectangle_spans_at_least_one_each_way() {
    assert!(is_spanning(pt(0.0, 0.0), pt(1.0, 1.0)));
    assert!(is_spanning(pt(-50.0, -50.0), pt(51.0, 51.0)));
    assert!(!is_spanning(pt(3.0, 3.0), pt(3.0, 3.0)));
    assert!(!is_spanning(pt(0.0, 0.0), pt(0.5, 4.0)));
    assert!(!is_spanning(pt(0.0, 0.0), pt(4.0, 0.5)));
    assert!(!is_spanning(pt(4.0, 4.0), pt(0.0, 0.0)));
    assert!(!is_spanning(pt(-f64::MAX, 0.0), pt(f64::MAX, 1.0)));
    assert!(!is_spanning(pt(f64::NAN, 0.0), pt(4.0, 4.0)));
}

#[test]
fn generator_gives_its_known_numbers() {
    assert_eq!(random(0), 3894649422);
    assert_eq!(random(1), 1412771199);
    assert_eq!(random(42), 3270867926);
    assert_eq!(random(0x5EED), 3360793142);
    assert_eq!(random(7), random(7));
}

#[test]
fn hash_is_repeatable_and_scatters() {
    assert_eq!(hash(12), hash(12));
    assert_ne!(hash(12), 12);
    assert_ne!(hash(12), hash(13));
    assert_eq!(angle(12), random(hash(12)) % 180);
}

#[test]
fn angles_stay_below_a_half_turn() {
    assert_eq!(turn(0), 0);
    assert_eq!(turn(179), 179);
    assert_eq!(turn(180), 0);
    assert_eq!(turn(3894649422), 42);
    assert_eq!(turn(u32::MAX), u32::MAX % 180);
    for v in [0u64, 1, 42, 0x5EED, u64::MAX] {
        assert!(angle(v) < 180);
        assert_eq!(angle(v), angle(v));
    }
    assert!((0..64u64).any(|v| angle(v) != angle(0)));
}
