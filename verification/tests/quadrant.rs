use geographiclib::quadrant::QuadrantFold;

#[test]
fn forward_fold_front_side() {
    let fold = QuadrantFold::forward(true, false, false, false);
    assert_eq!(fold, QuadrantFold { flip_lat: true, flip_lon: false, backside: false });
    assert!(fold.negates_gamma());

    let fold = QuadrantFold::forward(false, false, false, true);
    assert_eq!(fold, QuadrantFold { flip_lat: false, flip_lon: false, backside: false });
    assert!(!fold.negates_gamma());
}

#[test]
fn forward_fold_backside_off_equator() {
    // lat = 10, lon - lon0 = 179: back side, northern hemisphere.
    let fold = QuadrantFold::forward(false, false, true, false);
    assert_eq!(fold, QuadrantFold { flip_lat: false, flip_lon: false, backside: true });
    assert!(!fold.negates_gamma());
}

#[test]
fn forward_fold_backside_on_equator() {
    // lat = 0 on the back side is folded as if south of the equator, so the
    // northing comes out negative and the convergence is negated.
    let fold = QuadrantFold::forward(false, false, true, true);
    assert_eq!(fold, QuadrantFold { flip_lat: true, flip_lon: false, backside: true });
    assert!(fold.negates_gamma());

    let fold = QuadrantFold::forward(false, true, true, true);
    assert_eq!(fold, QuadrantFold { flip_lat: true, flip_lon: true, backside: true });
    assert!(!fold.negates_gamma());
}

#[test]
fn reverse_fold_reads_signs() {
    let fold = QuadrantFold::reverse(true, false, true);
    assert_eq!(fold, QuadrantFold { flip_lat: true, flip_lon: false, backside: true });
    assert!(fold.negates_gamma());
    let fold = QuadrantFold::reverse(true, true, false);
    assert!(!fold.negates_gamma());
}

#[test]
fn reverse_fold_undoes_forward_fold() {
    for bits in 0..16u32 {
        let (a, b, c, d) = (bits & 1 != 0, bits & 2 != 0, bits & 4 != 0, bits & 8 != 0);
        let f = QuadrantFold::forward(a, b, c, d);
        let r = QuadrantFold::reverse(f.flip_lat, f.flip_lon, f.backside);
        assert_eq!(r, f);
        assert_eq!(r.negates_gamma(), f.negates_gamma());
    }
}
