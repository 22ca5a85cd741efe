use smallvcm::{sqr, vec2, vec2s, vec3, vec3s, Vector2, Vector3};

#[test]
fn constructors() {
    assert_eq!(vec2(1, 2), Vector2 { x: 1, y: 2 });
    assert_eq!(vec2s(7), Vector2 { x: 7, y: 7 });
    assert_eq!(vec3(1, 2, 3), Vector3 { x: 1, y: 2, z: 3 });
    assert_eq!(vec3s(-4), Vector3 { x: -4, y: -4, z: -4 });
    assert_eq!(Vector2::new(3, 4), vec2(3, 4));
    assert_eq!(Vector3::spread(2), vec3(2, 2, 2));
}

#[test]
fn products() {
    assert_eq!(sqr(-9), 81);
    assert_eq!(vec2(1, 2).dot(vec2(3, 4)), 11);
    assert_eq!(vec3(1, 2, 3).dot(vec3(4, -5, 6)), 12);
    assert_eq!(vec3(1, 2, 3).length_sqr(), 14);
    assert_eq!(vec3(1, 0, 0).cross(vec3(0, 1, 0)), vec3(0, 0, 1));
    assert_eq!(vec3(2, 3, 4).cross(vec3(5, 6, 7)), vec3(-3, 6, -3));
}

#[test]
fn components() {
    assert_eq!(vec3(1, 9, 3).max(), 9);
    assert_eq!(vec3(-1, -9, -3).max(), -1);
    assert_eq!(vec3(1, 2, 8).max(), 8);
    assert_eq!(vec3(5, 6, 7).get_xy(), vec2(5, 6));
}
