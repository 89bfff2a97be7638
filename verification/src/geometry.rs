//! Page geometry: how many lines a page holds, how many pages a document has
//! and which lines the current page shows. Nothing is cached: every frame
//! computes its geometry anew from the terminal height of that moment, which
//! is how a resized terminal is followed.

use vstd::prelude::*;
use vstd::arithmetic::div_mod::lemma_fundamental_div_mod;
use vstd::arithmetic::div_mod::lemma_fundamental_div_mod_converse;

verus! {

/// Rows of a frame that show no document line: the header and the footer.
pub const RESERVED_ROWS: u16 = 2;

/// The smallest terminal height at which a page can be drawn.
pub const MIN_HEIGHT: u16 = 3;

/// Lines of the document on one page: the height less the reserved rows, and
/// never less than one.
pub open spec fn lines_per_page(terminal_height: int) -> int {
    if terminal_height - 2 >= 1 {
        terminal_height - 2
    } else {
        1
    }
}

/// The quotient of `n` by `d`, rounded up.
pub open spec fn ceil_div(n: int, d: int) -> int {
    (n + d - 1) / d
}

/// Pages of a document of `total_lines` lines: the lines divided by the lines
/// per page, rounded up, and never less than one.
pub open spec fn page_count(total_lines: int, terminal_height: int) -> int {
    let pages = ceil_div(total_lines, lines_per_page(terminal_height));
    if pages >= 1 {
        pages
    } else {
        1
    }
}

/// `offset` brought into `0 ..= pages - 1`.
pub open spec fn clamp_offset(offset: int, pages: int) -> int {
    if offset < 0 {
        0
    } else if offset > pages - 1 {
        pages - 1
    } else {
        offset
    }
}

/// Index of the first line of the page at `offset` (after clamping).
pub open spec fn page_start(total_lines: int, terminal_height: int, offset: int) -> int {
    clamp_offset(offset, page_count(total_lines, terminal_height)) * lines_per_page(
        terminal_height,
    )
}

/// Index one past the last line of the page at `offset` (after clamping): the
/// last page ends where the document ends, every other page is full.
pub open spec fn page_end(total_lines: int, terminal_height: int, offset: int) -> int {
    let pages = page_count(total_lines, terminal_height);
    if clamp_offset(offset, pages) == pages - 1 {
        total_lines
    } else {
        page_start(total_lines, terminal_height, offset) + lines_per_page(terminal_height)
    }
}

/// What one frame needs to know about the page it shows.
#[derive(Clone, Copy, Debug, PartialEq, Eq, Structural)]
pub struct Geometry {
    pub lines_per_page: usize,
    pub page_count: usize,
    pub start: usize,
    pub end: usize,
    pub clamped_offset: usize,
}

impl Geometry {
    /// The geometry is the one of a document of `total_lines` lines, shown
    /// in a terminal of `terminal_height` rows at page `offset`.
    pub open spec fn describes(self, total_lines: int, terminal_height: int, offset: int) -> bool {
        &&& self.lines_per_page == lines_per_page(terminal_height)
        &&& self.page_count == page_count(total_lines, terminal_height)
        &&& self.clamped_offset == clamp_offset(offset, page_count(total_lines, terminal_height))
        &&& self.start == page_start(total_lines, terminal_height, offset)
        &&& self.end == page_end(total_lines, terminal_height, offset)
    }
}

/// Rounding up adds one to the quotient exactly when there is a remainder.
pub proof fn lemma_ceil_div_by_remainder(n: int, d: int)
    requires
        n >= 0,
        d >= 1,
    ensures
        ceil_div(n, d) == n / d + (if n % d > 0 { 1int } else { 0int }),
        0 <= n / d <= n,
{
    let q = n / d;
    let r = n % d;
    lemma_fundamental_div_mod(n, d);
    assert(n == d * q + r);
    assert(d * q == q * d) by (nonlinear_arith);
    assert(0 <= q <= n) by (nonlinear_arith)
        requires
            n == q * d + r,
            0 <= r < d,
            n >= 0,
            d >= 1,
    ;
    if r > 0 {
        assert(n + d - 1 == (q + 1) * d + (r - 1)) by (nonlinear_arith)
            requires
                n == q * d + r,
        ;
        lemma_fundamental_div_mod_converse(n + d - 1, d, q + 1, r - 1);
    } else {
        assert(n + d - 1 == q * d + (d - 1));
        lemma_fundamental_div_mod_converse(n + d - 1, d, q, d - 1);
    }
}

/// The rounded-up quotient is the least number of groups of `d` that hold `n`.
pub proof fn lemma_ceil_div_is_least_cover(n: int, d: int)
    requires
        n >= 0,
        d >= 1,
    ensures
        ceil_div(n, d) >= 0,
        n <= ceil_div(n, d) * d,
        n > 0 ==> (ceil_div(n, d) - 1) * d < n,
        n == 0 ==> ceil_div(n, d) == 0,
{
    let q = n / d;
    let r = n % d;
    lemma_ceil_div_by_remainder(n, d);
    lemma_fundamental_div_mod(n, d);
    assert(d * q == q * d) by (nonlinear_arith);
    assert((q + 1) * d == q * d + d) by (nonlinear_arith);
    assert((q - 1) * d == q * d - d) by (nonlinear_arith);
    if n == 0 {
        assert(q == 0 && r == 0) by (nonlinear_arith)
            requires
                0 == q * d + r,
                0 <= r < d,
                q >= 0,
                d >= 1,
        ;
    }
}

/// In a terminal of at least three rows a page holds the height less two
/// lines, and the number of pages is the number of lines divided by that,
/// rounded up, and at least one: the least number of pages that hold every
/// line. Every page but the last is full, and the last page ends with the
/// document.
pub proof fn lemma_pages_cover_document(total_lines: int, terminal_height: int, offset: int)
    requires
        total_lines >= 0,
        terminal_height >= 3,
        0 <= offset < page_count(total_lines, terminal_height),
    ensures
        lines_per_page(terminal_height) == terminal_height - 2,
        page_count(total_lines, terminal_height) == if total_lines == 0 {
            1
        } else {
            ceil_div(total_lines, terminal_height - 2)
        },
        total_lines <= page_count(total_lines, terminal_height) * (terminal_height - 2),
        (page_count(total_lines, terminal_height) - 1) * (terminal_height - 2) < total_lines
            || total_lines == 0,
        0 <= page_start(total_lines, terminal_height, offset) <= page_end(
            total_lines,
            terminal_height,
            offset,
        ) <= total_lines,
        offset < page_count(total_lines, terminal_height) - 1 ==> page_end(
            total_lines,
            terminal_height,
            offset,
        ) - page_start(total_lines, terminal_height, offset) == terminal_height - 2,
        offset == page_count(total_lines, terminal_height) - 1 ==> page_end(
            total_lines,
            terminal_height,
            offset,
        ) == total_lines,
        page_end(total_lines, terminal_height, offset) - page_start(
            total_lines,
            terminal_height,
            offset,
        ) <= terminal_height - 2,
{
    let per_page = terminal_height - 2;
    let pages = page_count(total_lines, terminal_height);
    let c = ceil_div(total_lines, per_page);
    lemma_ceil_div_is_least_cover(total_lines, per_page);
    assert(total_lines > 0 ==> c >= 1) by (nonlinear_arith)
        requires
            total_lines <= c * per_page,
            c >= 0,
            per_page >= 1,
    ;
    assert(1 * per_page == per_page) by (nonlinear_arith);
    assert(0 * per_page == 0) by (nonlinear_arith);
    assert(0 <= offset * per_page <= (pages - 1) * per_page) by (nonlinear_arith)
        requires
            0 <= offset <= pages - 1,
            per_page >= 1,
    ;
    if offset < pages - 1 {
        assert(offset * per_page + per_page <= (pages - 1) * per_page) by (nonlinear_arith)
            requires
                0 <= offset < pages - 1,
                per_page >= 1,
        ;
    } else {
        assert(pages * per_page == (pages - 1) * per_page + per_page) by (nonlinear_arith);
    }
}

/// Computes the geometry of the page at `offset`. An offset past the last
/// page is brought back to the last page. A height under three rows gives
/// pages of one line; such a terminal is not drawn on page by page.
pub fn compute_geometry(total_lines: usize, terminal_height: u16, offset: usize) -> (g: Geometry)
    ensures
        g.describes(total_lines as int, terminal_height as int, offset as int),
        g.lines_per_page >= 1,
        g.page_count >= 1,
        g.clamped_offset < g.page_count,
        g.start <= g.end <= total_lines,
        g.end - g.start <= g.lines_per_page,
        g.clamped_offset < g.page_count - 1 ==> g.end - g.start == g.lines_per_page,
        g.clamped_offset == g.page_count - 1 ==> g.end == total_lines,
        terminal_height >= MIN_HEIGHT ==> g.lines_per_page == terminal_height - RESERVED_ROWS,
{
    let per_page: usize = if terminal_height > RESERVED_ROWS {
        (terminal_height - RESERVED_ROWS) as usize
    } else {
        1
    };
    let quotient: usize = total_lines / per_page;
    let remainder: usize = total_lines % per_page;
    proof {
        lemma_ceil_div_by_remainder(total_lines as int, per_page as int);
        lemma_ceil_div_is_least_cover(total_lines as int, per_page as int);
        lemma_fundamental_div_mod(total_lines as int, per_page as int);
        if remainder > 0 {
            assert(quotient < total_lines) by (nonlinear_arith)
                requires
                    total_lines == per_page * quotient + remainder,
                    remainder > 0,
                    per_page >= 1,
            ;
        }
    }
    let rounded: usize = if remainder > 0 {
        quotient + 1
    } else {
        quotient
    };
    let pages: usize = if rounded >= 1 {
        rounded
    } else {
        1
    };
    let clamped: usize = if offset > pages - 1 {
        pages - 1
    } else {
        offset
    };
    proof {
        let c = ceil_div(total_lines as int, per_page as int);
        assert(rounded == c);
        assert(clamped * per_page <= (pages - 1) * per_page) by (nonlinear_arith)
            requires
                0 <= clamped <= pages - 1,
                per_page >= 1,
        ;
        assert((pages - 1) * per_page <= total_lines);
        if clamped < pages - 1 {
            assert(clamped * per_page + per_page <= (pages - 1) * per_page) by (nonlinear_arith)
                requires
                    0 <= clamped < pages - 1,
                    per_page >= 1,
            ;
        } else {
            assert(total_lines - (pages - 1) * per_page <= per_page) by (nonlinear_arith)
                requires
                    total_lines <= c * per_page,
                    pages == c || (pages == 1 && c == 0),
                    per_page >= 1,
            ;
        }
    }
    let start: usize = clamped * per_page;
    let end: usize = if clamped == pages - 1 {
        total_lines
    } else {
        start + per_page
    };
    Geometry { lines_per_page: per_page, page_count: pages, start, end, clamped_offset: clamped }
}

/// The page a session opens on: the first one, or the last one where the
/// session is to start at the end of the document.
pub fn initial_offset(total_lines: usize, terminal_height: u16, start_at_end: bool) -> (offset:
    usize)
    ensures
        offset == if start_at_end {
            page_count(total_lines as int, terminal_height as int) - 1
        } else {
            0
        },
        offset < page_count(total_lines as int, terminal_height as int),
{
    if start_at_end {
        let g = compute_geometry(total_lines, terminal_height, 0);
        g.page_count - 1
    } else {
        0
    }
}

} // verus!
