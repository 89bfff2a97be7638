use catter::geometry::compute_geometry;
use catter::geometry::initial_offset;
use catter::geometry::Geometry;

fn ceil_pages(total: usize, per_page: usize) -> usize {
    let pages = (total + per_page - 1) / per_page;
    if pages < 1 {
        1
    } else {
        pages
    }
}

#[test]
fn first_page_of_long_document() {
    let g = compute_geometry(500, 24, 0);
    assert_eq!(
        g,
        Geometry { lines_per_page: 22, page_count: 23, start: 0, end: 22, clamped_offset: 0 }
    );
}

#[test]
fn last_page_of_long_document() {
    let g = compute_geometry(500, 24, 22);
    assert_eq!(
        g,
        Geometry { lines_per_page: 22, page_count: 23, start: 484, end: 500, clamped_offset: 22 }
    );
}

#[test]
fn middle_page_is_full() {
    let g = compute_geometry(500, 24, 7);
    assert_eq!(g.start, 154);
    assert_eq!(g.end, 176);
    assert_eq!(g.end - g.start, 22);
}

#[test]
fn offset_past_the_end_is_clamped() {
    let g = compute_geometry(500, 24, 1000);
    assert_eq!(g.clamped_offset, 22);
    assert_eq!(g.start, 484);
    assert_eq!(g.end, 500);
    let h = compute_geometry(500, 24, usize::MAX);
    assert_eq!(h, g);
}

#[test]
fn empty_document_has_one_empty_page() {
    let g = compute_geometry(0, 24, 0);
    assert_eq!(
        g,
        Geometry { lines_per_page: 22, page_count: 1, start: 0, end: 0, clamped_offset: 0 }
    );
    let h = compute_geometry(0, 24, 5);
    assert_eq!(h, g);
}

#[test]
fn exact_multiple_has_no_extra_page() {
    let g = compute_geometry(44, 24, 1);
    assert_eq!(g.page_count, 2);
    assert_eq!(g.start, 22);
    assert_eq!(g.end, 44);
    assert_eq!(initial_offset(44, 24, true), 1);
}

#[test]
fn one_line_more_than_a_multiple_adds_a_page() {
    let g = compute_geometry(45, 24, 2);
    assert_eq!(g.page_count, 3);
    assert_eq!(g.start, 44);
    assert_eq!(g.end, 45);
}

#[test]
fn low_terminal_gives_pages_of_one_line() {
    for height in 0u16..3 {
        let g = compute_geometry(5, height, 3);
        assert_eq!(
            g,
            Geometry { lines_per_page: 1, page_count: 5, start: 3, end: 4, clamped_offset: 3 }
        );
    }
    let g = compute_geometry(5, 3, 4);
    assert_eq!(g, Geometry { lines_per_page: 1, page_count: 5, start: 4, end: 5, clamped_offset: 4 });
}

#[test]
fn page_count_is_the_rounded_up_quotient() {
    for height in 3u16..40 {
        let per_page = (height - 2) as usize;
        for total in 0usize..200 {
            let pages = ceil_pages(total, per_page);
            for offset in 0..pages {
                let g = compute_geometry(total, height, offset);
                assert_eq!(g.lines_per_page, per_page);
                assert_eq!(g.page_count, pages);
                assert_eq!(g.clamped_offset, offset);
                assert_eq!(g.start, offset * per_page);
                if offset + 1 < pages {
                    assert_eq!(g.end - g.start, per_page);
                } else {
                    assert_eq!(g.end, total);
                    assert!(g.end - g.start <= per_page);
                }
            }
        }
    }
}

#[test]
fn largest_inputs_do_not_overflow() {
    let g = compute_geometry(usize::MAX, 3, usize::MAX);
    assert_eq!(g.lines_per_page, 1);
    assert_eq!(g.page_count, usize::MAX);
    assert_eq!(g.clamped_offset, usize::MAX - 1);
    assert_eq!(g.start, usize::MAX - 1);
    assert_eq!(g.end, usize::MAX);
    let h = compute_geometry(usize::MAX, u16::MAX, 0);
    assert_eq!(h.lines_per_page, 65533);
    assert_eq!(h.page_count, usize::MAX / 65533 + 1);
    assert_eq!(h.end, 65533);
}

#[test]
fn initial_offset_is_first_or_last_page() {
    assert_eq!(initial_offset(500, 24, false), 0);
    assert_eq!(initial_offset(500, 24, true), 22);
    assert_eq!(initial_offset(0, 24, true), 0);
    assert_eq!(initial_offset(10, 2, true), 9);
}
