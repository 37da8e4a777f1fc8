use chord3::layout::chordbox_grid;
use chord3::pagedim::PageDim;

#[test]
fn grid_seven_chords_three_per_row() {
    // Three rows: the bottom row holds the single leftover chord, the two
    // rows above it hold three each.
    assert_eq!(chordbox_grid(7, 3), (3, 1));
}

#[test]
fn grid_even_division_fills_bottom_row() {
    assert_eq!(chordbox_grid(6, 3), (2, 3));
    assert_eq!(chordbox_grid(3, 3), (1, 3));
}

#[test]
fn grid_single_row_and_single_column() {
    assert_eq!(chordbox_grid(2, 5), (1, 2));
    assert_eq!(chordbox_grid(5, 1), (5, 1));
    assert_eq!(chordbox_grid(1, 1), (1, 1));
}

#[test]
fn page_one_is_recto() {
    let page = PageDim::new(false, true, true);
    assert!(!page.is_verso());
    assert_eq!(page.pageno(), Some(1));
    assert_eq!(page.width(), 596);
    assert_eq!(page.height(), 842);
}

#[test]
fn duplex_margins_swap_between_pages() {
    let p1 = PageDim::new(false, true, true);
    let p2 = p1.next();
    assert!(p2.is_verso());
    assert_eq!(p2.pageno(), Some(2));
    // Binding margin on the right of a verso page.
    assert_eq!(p1.left(), 70);
    assert_eq!(p2.left(), 20);
    assert_eq!(p1.right(), 596 - 20);
    assert_eq!(p2.right(), 596 - 70);
    // The usable width never changes.
    assert_eq!(p1.inner_width(), p2.inner_width());
    assert_eq!(p1.inner_width(), 596 - 90);
}

#[test]
fn simplex_pages_are_all_recto() {
    let p1 = PageDim::new(false, false, true);
    let p2 = p1.next();
    assert!(!p1.is_verso());
    assert!(!p2.is_verso());
    assert_eq!(p2.left(), 70);
}

#[test]
fn landscape_swaps_sides() {
    let page = PageDim::new(true, true, true);
    assert_eq!(page.width(), 842);
    assert_eq!(page.height(), 596);
    assert_eq!(page.top(), 596 - 20);
}

#[test]
fn hidden_page_numbers() {
    let page = PageDim::new(false, true, false);
    assert_eq!(page.pageno(), None);
}
