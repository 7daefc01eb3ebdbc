//! The layout and hit-test adapter: given the terminal size and the mode
//! flags it partitions the screen into a fixed-height header, a body and a
//! fixed-height footer, splits the body 40/60 into service list and log
//! panel when the log panel is shown, and maps a pointer coordinate back to
//! a panel and a list row. Percentages round down; a panel that does not
//! fit simply gets the rows that are left.

use vstd::prelude::*;

use vstd::arithmetic::div_mod::{lemma_div_is_ordered, lemma_div_multiples_vanish};
use vstd::arithmetic::mul::lemma_mul_inequality;

verus! {

/// A rectangle on the terminal grid, in cells.
#[derive(Debug, Clone, Copy, PartialEq, Eq, Structural)]
pub struct Rect {
    pub x: u16,
    pub y: u16,
    pub width: u16,
    pub height: u16,
}

/// The rectangle stays inside the terminal's coordinate space.
pub open spec fn rect_wf(r: Rect) -> bool {
    &&& r.x + r.width <= u16::MAX
    &&& r.y + r.height <= u16::MAX
}

/// The named screen regions a pointer event is resolved against.
pub struct LayoutRegions {
    pub services_list: Rect,
    pub logs_panel: Option<Rect>,
}

/// Rows of the top banner: three when they fit, else whatever is there.
pub open spec fn spec_header_height(h: int) -> int {
    if h >= 3 {
        3
    } else {
        h
    }
}

/// Rows of the bottom key-binding bar, taken after the header.
pub open spec fn spec_footer_height(h: int) -> int {
    let rest = h - spec_header_height(h);
    if rest >= 3 {
        3
    } else {
        rest
    }
}

/// Rows left for the body between header and footer.
pub open spec fn spec_body_height(h: int) -> int {
    h - spec_header_height(h) - spec_footer_height(h)
}

/// Columns of the service list: the full width, or its 40 percent share
/// (rounded down) when the log panel takes the rest.
pub open spec fn spec_services_width(w: int, show_logs: bool) -> int {
    if show_logs {
        w * 40 / 100
    } else {
        w
    }
}

/// A `p` percent share, rounded down, is never negative and never more
/// than the whole.
pub proof fn lemma_pct_bound(v: int, p: int)
    requires
        0 <= v,
        0 <= p <= 100,
    ensures
        0 <= v * p / 100 <= v,
{
    lemma_mul_inequality(p, 100, v);
    lemma_div_is_ordered(v * p, v * 100, 100);
    lemma_div_multiples_vanish(v, 100);
    assert(v * p == p * v) by (nonlinear_arith);
    assert(v * 100 == 100 * v) by (nonlinear_arith);
}

/// The rectangle of the service list inside `area`, as a value: the body
/// rows, and the full width or its 40 percent share.
pub open spec fn spec_services_rect(area: Rect, show_logs: bool) -> Rect {
    Rect {
        x: area.x,
        y: (area.y + spec_header_height(area.height as int)) as u16,
        width: spec_services_width(area.width as int, show_logs) as u16,
        height: spec_body_height(area.height as int) as u16,
    }
}

/// The rectangle of the log panel inside `area`, as a value: the body
/// rows, to the right of the service list.
pub open spec fn spec_logs_rect(area: Rect) -> Rect {
    Rect {
        x: (area.x + spec_services_width(area.width as int, true)) as u16,
        y: (area.y + spec_header_height(area.height as int)) as u16,
        width: (area.width - spec_services_width(area.width as int, true)) as u16,
        height: spec_body_height(area.height as int) as u16,
    }
}

/// Content rows inside a bordered panel: the height minus the two border
/// rows, floored at zero.
pub open spec fn spec_inner_rows(h: int) -> int {
    if h >= 2 {
        h - 2
    } else {
        0
    }
}

/// Partitions `area` into header, body and footer, and splits the body
/// 40/60 into service list and log panel when `show_logs` is set. The
/// returned regions drive both rendering bounds and pointer hit-testing.
pub fn get_layout_regions(area: Rect, show_logs: bool) -> (r: LayoutRegions)
    requires
        rect_wf(area),
    ensures
        r.services_list.x == area.x,
        r.services_list.y == area.y + spec_header_height(area.height as int),
        r.services_list.height == spec_body_height(area.height as int),
        r.services_list.width == spec_services_width(area.width as int, show_logs),
        rect_wf(r.services_list),
        (show_logs ==> (r.logs_panel matches Some(lp) && lp.x == area.x + spec_services_width(
            area.width as int,
            true,
        ) && lp.y == r.services_list.y && lp.height == r.services_list.height && lp.width
            == area.width - spec_services_width(area.width as int, true) && rect_wf(lp))),
        (!show_logs ==> r.logs_panel is None),
        r.services_list == spec_services_rect(area, show_logs),
        (show_logs ==> r.logs_panel == Some(spec_logs_rect(area))),
    {
        let header_h: u16 = if area.height >= 3 {
            3
        } else {
            area.height
        };
        let rest: u16 = area.height - header_h;
        let footer_h: u16 = if rest >= 3 {
            3
        } else {
            rest
        };
        let body_h: u16 = rest - footer_h;
        let body_y: u16 = area.y + header_h;
        if show_logs {
            proof {
                lemma_pct_bound(area.width as int, 40);
            }
            let services_w: u16 = ((area.width as usize) * 40 / 100) as u16;
            let logs_w: u16 = area.width - services_w;
            LayoutRegions {
                services_list: Rect { x: area.x, y: body_y, width: services_w, height: body_h },
                logs_panel: Some(
                    Rect { x: area.x + services_w, y: body_y, width: logs_w, height: body_h },
                ),
            }
        } else {
            LayoutRegions {
                services_list: Rect { x: area.x, y: body_y, width: area.width, height: body_h },
                logs_panel: None,
            }
        }
    }

/// Rows available for log lines: the log panel's height without its two
/// border rows; zero while the panel is hidden.
pub fn get_logs_visible_lines(height: u16, show_logs: bool) -> (r: usize)
    ensures
        !show_logs ==> r == 0,
        show_logs ==> r == spec_inner_rows(spec_body_height(height as int)),
{
    if !show_logs {
        return 0;
    }
    let header_h: u16 = if height >= 3 {
        3
    } else {
        height
    };
    let rest: u16 = height - header_h;
    let footer_h: u16 = if rest >= 3 {
        3
    } else {
        rest
    };
    let body_h: u16 = rest - footer_h;
    if body_h >= 2 {
        (body_h - 2) as usize
    } else {
        0
    }
}

/// Rows available for service entries: the list panel's height without its
/// two border rows. The 40/60 split only narrows the list, so the count
/// does not depend on whether the log panel is shown.
pub fn get_services_visible_lines(height: u16) -> (r: usize)
    ensures
        r == spec_inner_rows(spec_body_height(height as int)),
{
    let header_h: u16 = if height >= 3 {
        3
    } else {
        height
    };
    let rest: u16 = height - header_h;
    let footer_h: u16 = if rest >= 3 {
        3
    } else {
        rest
    };
    let body_h: u16 = rest - footer_h;
    if body_h >= 2 {
        (body_h - 2) as usize
    } else {
        0
    }
}

/// A popup rectangle spanning the given percentages of `area`, centered:
/// the margins take the left-over percentage half each, rounded down.
pub open spec fn spec_centered_rect(pct_x: int, pct_y: int, area: Rect) -> Rect {
    Rect {
        x: (area.x + area.width * ((100 - pct_x) / 2) / 100) as u16,
        y: (area.y + area.height * ((100 - pct_y) / 2) / 100) as u16,
        width: (area.width * pct_x / 100) as u16,
        height: (area.height * pct_y / 100) as u16,
    }
}

/// Computes the centered popup rectangle the help overlay is drawn in.
pub fn centered_rect(percent_x: u16, percent_y: u16, area: Rect) -> (r: Rect)
    requires
        percent_x <= 100,
        percent_y <= 100,
        rect_wf(area),
    ensures
        r == spec_centered_rect(percent_x as int, percent_y as int, area),
{
    proof {
        lemma_pct_bound(area.width as int, (100 - percent_x as int) / 2);
        lemma_pct_bound(area.height as int, (100 - percent_y as int) / 2);
        lemma_pct_bound(area.width as int, percent_x as int);
        lemma_pct_bound(area.height as int, percent_y as int);
    }
    let w: usize = area.width as usize;
    let h: usize = area.height as usize;
    let left: usize = w * (((100 - percent_x) / 2) as usize) / 100;
    let top: usize = h * (((100 - percent_y) / 2) as usize) / 100;
    let mid_w: usize = w * (percent_x as usize) / 100;
    let mid_h: usize = h * (percent_y as usize) / 100;
    Rect {
        x: area.x + (left as u16),
        y: area.y + (top as u16),
        width: mid_w as u16,
        height: mid_h as u16,
    }
}

/// The point lies inside the rectangle.
pub open spec fn spec_in_rect(col: int, row: int, rect: Rect) -> bool {
    &&& rect.x <= col < rect.x + rect.width
    &&& rect.y <= row < rect.y + rect.height
}

/// Whether a pointer coordinate falls inside a region.
pub fn mouse_in_rect(column: u16, row: u16, rect: Rect) -> (r: bool)
    ensures
        r == spec_in_rect(column as int, row as int, rect),
{
    column >= rect.x && (column as usize) < (rect.x as usize) + (rect.width as usize) && row
        >= rect.y && (row as usize) < (rect.y as usize) + (rect.height as usize)
}

/// The list row a click on `row` lands on, counted from the first content
/// row under the panel's top border; a click on the border itself counts
/// as the first row.
pub open spec fn spec_row_offset(row: int, top: int) -> int {
    if row >= top + 1 {
        row - top - 1
    } else {
        0
    }
}

/// What a pointer coordinate resolves to.
#[derive(Debug, Clone, Copy, PartialEq, Eq, Structural)]
pub enum HitTarget {
    /// The service list, at this row offset relative to the scroll
    /// position.
    ServiceRow(u16),
    /// The log panel.
    LogsPanel,
    /// Neither panel.
    Outside,
}

/// Resolves a pointer coordinate to a panel: the service list wins, the
/// log panel comes second, anything else is no target.
pub fn hit_test(regions: &LayoutRegions, column: u16, row: u16) -> (t: HitTarget)
    ensures
        spec_in_rect(column as int, row as int, regions.services_list) ==> t
            == HitTarget::ServiceRow(
            spec_row_offset(row as int, regions.services_list.y as int) as u16,
        ),
        (!spec_in_rect(column as int, row as int, regions.services_list) ==> match regions
            .logs_panel {
            Some(lp) => (spec_in_rect(column as int, row as int, lp) ==> t
                == HitTarget::LogsPanel) && (!spec_in_rect(column as int, row as int, lp) ==> t
                == HitTarget::Outside),
            None => t == HitTarget::Outside,
        }),
    {
        if mouse_in_rect(column, row, regions.services_list) {
            let top: usize = regions.services_list.y as usize + 1;
            let off: u16 = if (row as usize) >= top {
                ((row as usize) - top) as u16
            } else {
                0
            };
            HitTarget::ServiceRow(off)
        } else {
            match regions.logs_panel {
                Some(lp) => {
                    if mouse_in_rect(column, row, lp) {
                        HitTarget::LogsPanel
                    } else {
                        HitTarget::Outside
                    }
                },
                None => HitTarget::Outside,
            }
        }
    }

} // verus!
