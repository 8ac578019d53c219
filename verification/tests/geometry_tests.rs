use meteor_dodge::Rect;

fn px(v: i64) -> i64 {
    v * 1_000_000
}

#[test]
fn overlapping_rects_intersect() {
    let a = Rect { x: px(0), y: px(0), w: px(10), h: px(10) };
    let b = Rect { x: px(5), y: px(5), w: px(10), h: px(10) };
    assert!(a.intersects(&b));
    assert!(b.intersects(&a));
}

#[test]
fn intersects_is_symmetric_on_samples() {
    let rects = [
        Rect { x: px(0), y: px(0), w: px(10), h: px(10) },
        Rect { x: px(3), y: px(-2), w: px(4), h: px(30) },
        Rect { x: px(100), y: px(100), w: px(1), h: px(1) },
        Rect { x: px(-5), y: px(4), w: px(20), h: px(2) },
    ];
    for a in rects.iter() {
        for b in rects.iter() {
            assert_eq!(a.intersects(b), b.intersects(a));
        }
    }
}

#[test]
fn edge_touching_rects_do_not_intersect() {
    let a = Rect { x: px(0), y: px(0), w: px(10), h: px(10) };
    let b = Rect { x: px(10), y: px(0), w: px(10), h: px(10) };
    assert!(!a.intersects(&b));
    assert!(!b.intersects(&a));
}

#[test]
fn positive_area_rect_intersects_itself() {
    let a = Rect { x: px(7), y: px(-3), w: px(2), h: px(9) };
    assert!(a.intersects(&a));
}

#[test]
fn separated_rects_do_not_intersect() {
    let a = Rect { x: px(0), y: px(0), w: px(10), h: px(10) };
    let b = Rect { x: px(0), y: px(30), w: px(10), h: px(10) };
    assert!(!a.intersects(&b));
    assert!(!b.intersects(&a));
}
