use pathtracer::nearest::nearest_hit;

fn key(t: f32) -> Option<u32> {
    Some(t.to_bits())
}

#[test]
fn empty_scene_reports_no_hit() {
    assert_eq!(nearest_hit(&vec![]), None);
}

#[test]
fn all_misses_report_no_hit() {
    assert_eq!(nearest_hit(&vec![None, None, None]), None);
}

#[test]
fn single_hit_is_reported() {
    assert_eq!(nearest_hit(&vec![None, key(2.5), None]), Some(1));
}

#[test]
fn nearest_of_several_hits_is_reported() {
    let d = vec![key(3.0), None, key(0.5), key(1.25), None];
    assert_eq!(nearest_hit(&d), Some(2));
}

#[test]
fn equal_distances_go_to_the_first_primitive() {
    let d = vec![key(4.0), key(1.5), None, key(1.5)];
    assert_eq!(nearest_hit(&d), Some(1));
}

#[test]
fn positive_float_bits_order_like_the_floats() {
    let d = vec![key(1.0e-3), key(1.0e-7), key(7.0e5)];
    assert_eq!(nearest_hit(&d), Some(1));
    let d = vec![key(0.5000001), key(0.5)];
    assert_eq!(nearest_hit(&d), Some(1));
}

#[test]
fn permuting_the_scene_reports_the_same_hit() {
    let a = vec![key(3.0), None, key(0.75), key(2.0)];
    let b = vec![key(2.0), key(0.75), key(3.0), None];
    let c = vec![None, key(3.0), key(2.0), key(0.75)];
    let ia = nearest_hit(&a).unwrap();
    let ib = nearest_hit(&b).unwrap();
    let ic = nearest_hit(&c).unwrap();
    assert_eq!(a[ia], key(0.75));
    assert_eq!(b[ib], key(0.75));
    assert_eq!(c[ic], key(0.75));
}
