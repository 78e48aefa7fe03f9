use blitstr::Pt;

#[test]
fn test_pt_equivalence() {
    let p1 = Pt { x: 1, y: 2 };
    let p2 = Pt::new(1, 2);
    assert_eq!(p1, p2);
}

#[test]
fn test_pt_ordering() {
    let p1 = Pt { x: 1, y: 2 };
    let p2 = Pt::new(1, 3);
    let p3 = Pt::new(0, 0);
    assert!(p1 < p2);
    assert!(p1 > p3);
}
