use geographiclib::geocentric_reverse::{select_reverse_method, ReverseMethod};

#[test]
fn far_point_takes_precedence() {
    for bits in 0..4u32 {
        let (s, g) = (bits & 1 != 0, bits & 2 != 0);
        assert_eq!(select_reverse_method(true, s, g), ReverseMethod::FarPoint);
    }
}

#[test]
fn sphere_before_singular() {
    assert_eq!(select_reverse_method(false, true, true), ReverseMethod::Sphere);
    assert_eq!(select_reverse_method(false, true, false), ReverseMethod::Sphere);
}

#[test]
fn singular_and_general() {
    assert_eq!(select_reverse_method(false, false, true), ReverseMethod::Singular);
    assert_eq!(select_reverse_method(false, false, false), ReverseMethod::General);
}
