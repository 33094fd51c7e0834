//! Where the panels go: the screen is cut in two columns, and the left
//! column in two rows. The cutting itself is `tui`'s.

use vstd::prelude::*;
use tui::layout::{Constraint, Direction, Layout, Rect};

verus! {

/// A rectangle of terminal cells.
#[derive(Clone, Copy, Debug, PartialEq, Eq)]
pub struct Region {
    pub x: u16,
    pub y: u16,
    pub width: u16,
    pub height: u16,
}

/// The direction in which an area is cut.
#[derive(Clone, Copy, Debug, PartialEq, Eq)]
pub enum Axis {
    /// The parts lie side by side.
    Horizontal,
    /// The parts lie one above the other.
    Vertical,
}

/// The regions of the three panels.
#[derive(Clone, Copy, Debug, PartialEq, Eq)]
pub struct Screen {
    /// The tab strip: the upper part of the left column.
    pub tabs: Region,
    /// The list panel: the lower part of the left column.
    pub list: Region,
    /// The static panel: the right column.
    pub panel: Region,
}

/// The margin round the two columns, in cells.
pub const COLUMN_MARGIN: u16 = 1;

/// The share of each column in the width, in percent.
pub const COLUMN_SHARE: u16 = 50;

/// The share of the tab strip in the height of the left column, in percent.
pub const TABS_SHARE: u16 = 10;

/// The share of the list panel in the height of the left column, in percent.
pub const LIST_SHARE: u16 = 90;

/// The length that is shared out when `area` is cut along `axis` inside a
/// margin: its width or height less the margin on both sides, and nothing
/// where the margins do not fit into the area.
pub open spec fn inner_extent(axis: Axis, margin: u16, area: Region) -> int {
    if area.width < 2 * margin || area.height < 2 * margin {
        0
    } else {
        match axis {
            Axis::Horizontal => area.width - 2 * margin,
            Axis::Vertical => area.height - 2 * margin,
        }
    }
}

/// Whether an area can be cut in two parts of `first` and `second` percent:
/// the area lies within sixteen-bit coordinates, and the margin and the
/// shares stay within sixteen bits.
pub open spec fn splittable(axis: Axis, margin: u16, first: u16, second: u16, area: Region) -> bool {
    &&& area.x + area.width <= u16::MAX
    &&& area.y + area.height <= u16::MAX
    &&& 2 * margin <= u16::MAX
    &&& area.x + margin <= u16::MAX
    &&& area.y + margin <= u16::MAX
    &&& first * inner_extent(axis, margin, area) <= u16::MAX
    &&& second * inner_extent(axis, margin, area) <= u16::MAX
}

/// Calls `tui::layout::Layout::split` with two percentage constraints.
/// Claimed of it, from the constraints that it hands to its solver as
/// required: there are as many parts as constraints, two; across the cut
/// each part has the position and the extent of the area inside the margin;
/// along the cut the first part begins where that area begins, the second
/// begins where the first ends, and the second ends where that area ends
/// (its extent is assigned from the far edge after the solver has run).
/// Claimed from the weak constraints, which the solver meets where they
/// agree with the required ones: where the two shares add up to a hundred
/// percent, the first part has its share of the extent, in whole cells.
/// The solver's values are cut down to whole cells; they are whole numbers
/// or lie a hundredth or more from one, so the cut keeps these claims. How
/// the extent is shared out where the shares do not add up to a hundred is
/// the solver's matter and is not stated. The precondition
/// keeps the sixteen-bit sums and products of `Rect::inner` and of the
/// percentage constraints from overflowing, and keeps the far edges of the
/// area from saturating, which would leave the solver with constraints that
/// contradict each other.
#[verifier::external_body]
fn split_in_two(axis: Axis, margin: u16, first: u16, second: u16, area: Region) -> (parts: Vec<Region>)
    requires
        splittable(axis, margin, first, second, area),
    ensures
        parts@.len() == 2,
        cut_of(axis, parts@[0], parts@[1], inner(margin, area)),
        first + second == 100 ==> extent_along(axis, parts@[0])
            == share_of(first, extent_along(axis, inner(margin, area))),
{
    let direction = match axis {
        Axis::Horizontal => Direction::Horizontal,
        Axis::Vertical => Direction::Vertical,
    };
    let rect = Rect { x: area.x, y: area.y, width: area.width, height: area.height };
    let chunks = Layout::default()
        .direction(direction)
        .margin(margin)
        .constraints(vec![Constraint::Percentage(first), Constraint::Percentage(second)])
        .split(rect);
    chunks.iter().map(|r| Region { x: r.x, y: r.y, width: r.width, height: r.height }).collect()
}

/// Cuts `area` along `axis`, inside `margin`, in two parts of `first` and
/// `second` percent. There is a result exactly where the area can be cut.
/// The two parts then make up the area inside the margin, the second
/// beginning where the first ends; and where the shares add up to a hundred
/// percent, the first part has its share of the extent, in whole cells, and
/// the second the rest.
pub fn split(axis: Axis, margin: u16, first: u16, second: u16, area: Region) -> (parts: Option<(Region, Region)>)
    ensures
        parts is Some <==> splittable(axis, margin, first, second, area),
        parts matches Some(p) ==> cut_of(axis, p.0, p.1, inner(margin, area)),
        parts matches Some(p) ==> (first + second == 100 ==> extent_along(axis, p.0)
            == share_of(first, extent_along(axis, inner(margin, area)))),
{
    if area.x > u16::MAX - area.width || area.y > u16::MAX - area.height {
        return None;
    }
    if margin > u16::MAX / 2 || area.x > u16::MAX - margin || area.y > u16::MAX - margin {
        return None;
    }
    let extent: u16 = if area.width < 2 * margin || area.height < 2 * margin {
        0
    } else {
        match axis {
            Axis::Horizontal => area.width - 2 * margin,
            Axis::Vertical => area.height - 2 * margin,
        }
    };
    let limit: u32 = 0xffff;
    assert(first * extent <= 0xffff * 0xffff && second * extent <= 0xffff * 0xffff)
        by (nonlinear_arith)
        requires
            first <= 0xffff,
            second <= 0xffff,
            extent <= 0xffff,
    ;
    let first_product: u32 = (first as u32) * (extent as u32);
    let second_product: u32 = (second as u32) * (extent as u32);
    if first_product > limit || second_product > limit {
        return None;
    }
    let parts = split_in_two(axis, margin, first, second, area);
    Some((parts[0], parts[1]))
}

/// The regions of the panels on a terminal of the size of `area`: two
/// columns of equal share inside a margin of one cell, the left one cut
/// into the tab strip above and the list panel below, the right one the
/// static panel. There is a result exactly where the area can be cut into
/// columns and what it leaves inside the margin into rows, and the result
/// is then the one placement of the panels inside the margin.
pub fn screen(area: Region) -> (screen: Option<Screen>)
    ensures
        screen is Some <==> screen_fits(area),
        screen matches Some(s) ==> placed(s, inner(COLUMN_MARGIN, area)),
{
    match split(Axis::Horizontal, COLUMN_MARGIN, COLUMN_SHARE, COLUMN_SHARE, area) {
        Some(columns) => match split(Axis::Vertical, 0, TABS_SHARE, LIST_SHARE, columns.0) {
            Some(rows) => Some(assemble(columns, rows)),
            None => None,
        },
        None => None,
    }
}

/// Puts the screen together from the two columns and the two rows of the
/// left column.
pub fn assemble(columns: (Region, Region), rows: (Region, Region)) -> (screen: Screen)
    ensures
        screen.tabs == rows.0,
        screen.list == rows.1,
        screen.panel == columns.1,
{
    Screen { tabs: rows.0, list: rows.1, panel: columns.1 }
}

/// The area inside a margin: `area` less `margin` cells on each side, and
/// the empty area at the origin where the margins do not fit into `area`.
pub open spec fn inner(margin: u16, area: Region) -> Region {
    if area.width < 2 * margin || area.height < 2 * margin {
        Region { x: 0, y: 0, width: 0, height: 0 }
    } else {
        Region {
            x: (area.x + margin) as u16,
            y: (area.y + margin) as u16,
            width: (area.width - 2 * margin) as u16,
            height: (area.height - 2 * margin) as u16,
        }
    }
}

/// Whether `part` is a part of `whole` cut along `axis`: across the cut it
/// has the position and the extent of `whole`, and along the cut it ends
/// inside `whole`.
pub open spec fn part_of(axis: Axis, part: Region, whole: Region) -> bool {
    match axis {
        Axis::Horizontal => {
            &&& part.y == whole.y
            &&& part.height == whole.height
            &&& part.x + part.width <= whole.x + whole.width
        },
        Axis::Vertical => {
            &&& part.x == whole.x
            &&& part.width == whole.width
            &&& part.y + part.height <= whole.y + whole.height
        },
    }
}

/// Whether the panels can be placed on `area`: it can be cut into the two
/// columns, and what it leaves inside the margin can be cut into the rows.
pub open spec fn screen_fits(area: Region) -> bool {
    &&& splittable(Axis::Horizontal, COLUMN_MARGIN, COLUMN_SHARE, COLUMN_SHARE, area)
    &&& splittable(Axis::Vertical, 0, TABS_SHARE, LIST_SHARE, inner(COLUMN_MARGIN, area))
}

/// Where a region begins along `axis`.
pub open spec fn start_along(axis: Axis, region: Region) -> int {
    match axis {
        Axis::Horizontal => region.x as int,
        Axis::Vertical => region.y as int,
    }
}

/// How far a region reaches along `axis`.
pub open spec fn extent_along(axis: Axis, region: Region) -> int {
    match axis {
        Axis::Horizontal => region.width as int,
        Axis::Vertical => region.height as int,
    }
}

/// The whole cells in `share` percent of `extent`.
pub open spec fn share_of(share: u16, extent: int) -> int {
    share * extent / 100
}

/// Whether `first` and `second` are `whole` cut in two along `axis`: both
/// are parts of it, the first begins where `whole` begins, the second
/// begins where the first ends and ends where `whole` ends.
pub open spec fn cut_of(axis: Axis, first: Region, second: Region, whole: Region) -> bool {
    &&& part_of(axis, first, whole)
    &&& part_of(axis, second, whole)
    &&& start_along(axis, first) == start_along(axis, whole)
    &&& start_along(axis, second) == start_along(axis, first) + extent_along(axis, first)
    &&& start_along(axis, second) + extent_along(axis, second) == start_along(axis, whole)
        + extent_along(axis, whole)
}

/// Whether the panels of `screen` are placed on `whole`. The left column
/// begins at the left edge of `whole` and has the column share of its
/// width, in whole cells; the static panel is the rest of the width, at the
/// full height. In the left column the tab strip begins at the top and has
/// its share of the height, in whole cells, and the list panel is the rest
/// of the height.
pub open spec fn placed(screen: Screen, whole: Region) -> bool {
    &&& screen.tabs.x == whole.x
    &&& screen.tabs.y == whole.y
    &&& screen.tabs.width == share_of(COLUMN_SHARE, whole.width as int)
    &&& screen.tabs.height == share_of(TABS_SHARE, whole.height as int)
    &&& screen.list.x == whole.x
    &&& screen.list.y == screen.tabs.y + screen.tabs.height
    &&& screen.list.width == screen.tabs.width
    &&& screen.list.y + screen.list.height == whole.y + whole.height
    &&& screen.panel.x == screen.tabs.x + screen.tabs.width
    &&& screen.panel.y == whole.y
    &&& screen.panel.x + screen.panel.width == whole.x + whole.width
    &&& screen.panel.height == whole.height
}

/// Whether two regions have a cell in common.
pub open spec fn overlap(a: Region, b: Region) -> bool {
    &&& a.x < b.x + b.width
    &&& b.x < a.x + a.width
    &&& a.y < b.y + b.height
    &&& b.y < a.y + a.height
}

/// Panels that are placed on an area lie inside it, no two of them have a
/// cell in common, and together they have as many cells as the area.
pub proof fn lemma_placed_panels_tile(screen: Screen, whole: Region)
    requires
        placed(screen, whole),
        whole.x + whole.width <= u16::MAX,
        whole.y + whole.height <= u16::MAX,
    ensures
        !overlap(screen.tabs, screen.list),
        !overlap(screen.tabs, screen.panel),
        !overlap(screen.list, screen.panel),
        part_of(Axis::Horizontal, screen.panel, whole),
        screen.tabs.x + screen.tabs.width <= whole.x + whole.width,
        screen.tabs.height + screen.list.height == whole.height,
        screen.tabs.width + screen.panel.width == whole.width,
        screen.tabs.width * screen.tabs.height + screen.list.width * screen.list.height
            + screen.panel.width * screen.panel.height == whole.width * whole.height,
{
    assert(screen.tabs.width * screen.tabs.height + screen.tabs.width * screen.list.height
        + screen.panel.width * whole.height == whole.width * whole.height) by (nonlinear_arith)
        requires
            screen.tabs.height + screen.list.height == whole.height,
            screen.tabs.width + screen.panel.width == whole.width,
    ;
}

} // verus!
