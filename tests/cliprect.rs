use blitstr::{ClipRect, Pt, LINES, WIDTH};

#[test]
fn test_cliprect_equivalence() {
    let cr1 = ClipRect {
        min: Pt { x: 1, y: 2 },
        max: Pt { x: 8, y: 9 },
    };
    // Called properly:
    let cr2 = ClipRect::new(1, 2, 8, 9);
    // Called with mixed up corners that should get auto-corrected
    let cr3 = ClipRect::new(8, 2, 1, 9);
    let cr4 = ClipRect::new(1, 9, 8, 2);
    assert_eq!(cr1, cr2);
    assert_eq!(cr2, cr3);
    assert_eq!(cr3, cr4);
}

#[test]
fn test_cliprect_full_screen() {
    let clip = ClipRect::full_screen();
    assert_eq!(clip.min, Pt::new(0, 0));
    assert_eq!(clip.max, Pt::new(WIDTH as i32, LINES as i32));
}

#[test]
fn test_cliprect_padded_screen() {
    let c1 = ClipRect::full_screen();
    let c2 = ClipRect::padded_screen();
    assert!(c2.min > c1.min);
    assert!(c2.max < c1.max);
}
