use verlet_ropes::verletcore::Line;

#[derive(Debug, Clone, Copy, PartialEq)]
struct P {
    x: f32,
    y: f32,
}

#[test]
fn get_both_points_forward() {
    let mut points = vec![P { x: 0.0, y: 0.0 }, P { x: 1.0, y: 1.0 }, P { x: 2.0, y: 2.0 }];
    let l = Line { a: 0, b: 2, length: 1.0f32 };
    let (a, b) = l.get_both_points(points.as_mut_slice());
    assert_eq!(*a, P { x: 0.0, y: 0.0 });
    assert_eq!(*b, P { x: 2.0, y: 2.0 });
    a.x = 5.0;
    b.y = 7.0;
    assert_eq!(points, vec![P { x: 5.0, y: 0.0 }, P { x: 1.0, y: 1.0 }, P { x: 2.0, y: 7.0 }]);
}

#[test]
fn get_both_points_backward() {
    let mut points = vec![10, 20, 30, 40];
    let l = Line { a: 3, b: 1, length: 0.5f32 };
    let (a, b) = l.get_both_points(points.as_mut_slice());
    assert_eq!((*a, *b), (40, 20));
    *a = 41;
    *b = 21;
    assert_eq!(points, vec![10, 21, 30, 41]);
}

#[test]
fn get_both_points_adjacent() {
    let mut points = vec![1, 2];
    let l = Line { a: 1, b: 0, length: 0.5f32 };
    let (a, b) = l.get_both_points(points.as_mut_slice());
    std::mem::swap(a, b);
    assert_eq!(points, vec![2, 1]);
}

#[test]
fn get_points_gives_the_same_ends() {
    let mut points = vec!['a', 'b', 'c'];
    let l = Line { a: 2, b: 0, length: 1.0f32 };
    let (a, b) = l.get_points(points.as_mut_slice());
    assert_eq!((*a, *b), ('c', 'a'));
    *a = 'z';
    assert_eq!(points, vec!['a', 'b', 'z']);
}
