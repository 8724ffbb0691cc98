use lsp_commands::selection::Range;

fn range(anchor: usize, head: usize) -> Range {
    Range { anchor, head }
}

#[test]
fn ends_and_length() {
    assert_eq!((range(2, 7).from(), range(2, 7).to()), (2, 7));
    assert_eq!((range(7, 2).from(), range(7, 2).to()), (2, 7));
    assert_eq!(range(7, 2).len(), 5);
    assert_eq!(range(4, 4).len(), 0);
    assert_eq!(Range::point(9), range(9, 9));
}

#[test]
fn characters_of_a_range() {
    assert!(range(2, 5).contains(2));
    assert!(range(5, 2).contains(4));
    assert!(!range(2, 5).contains(5));
    assert!(!range(2, 5).contains(1));
    assert!(!range(3, 3).contains(3));
}

#[test]
fn overlap_of_ranges() {
    assert!(!range(0, 3).overlaps(&range(3, 6)));
    assert!(range(0, 4).overlaps(&range(3, 6)));
    assert!(range(4, 0).overlaps(&range(6, 3)));
    assert!(!range(0, 3).overlaps(&range(3, 3)));
    assert!(range(1, 4).overlaps(&range(1, 1)));
    assert!(range(1, 4).overlaps(&range(3, 3)));
    assert!(!range(0, 0).overlaps(&range(1, 1)));
    assert!(range(1, 1).overlaps(&range(1, 1)));
}

#[test]
fn overlap_does_not_depend_on_order() {
    for a in 0..5usize {
        for b in 0..5usize {
            for c in 0..5usize {
                for d in 0..5usize {
                    let one = range(a, b);
                    let other = range(c, d);
                    assert_eq!(one.overlaps(&other), other.overlaps(&one));
                    assert_eq!(one.overlaps(&other), one.flip().overlaps(&other));
                    if one.len() > 0 && other.len() > 0 {
                        let shared = (0..5).any(|pos| one.contains(pos) && other.contains(pos));
                        assert_eq!(one.overlaps(&other), shared);
                    }
                }
            }
        }
    }
}

#[test]
fn flipped_range() {
    assert_eq!(range(3, 8).flip(), range(8, 3));
    assert_eq!(range(3, 8).flip().flip(), range(3, 8));
    assert!(range(3, 8).flip().contains(3));
}
