//! Where everything stands on the screen.

use ratatui::layout::{Constraint, Direction, Layout};
use vstd::prelude::*;

use crate::state::PaneLayout;

verus! {

/// A part of the screen.
#[derive(Clone, Copy, Debug, PartialEq, Eq, Structural)]
pub struct Rect {
    pub x: u16,
    pub y: u16,
    pub width: u16,
    pub height: u16,
}

impl Rect {
    /// Whether a part of the screen lies within another.
    pub open spec fn within(self, outer: Rect) -> bool {
        &&& outer.x <= self.x
        &&& outer.y <= self.y
        &&& self.x + self.width <= outer.x + outer.width
        &&& self.y + self.height <= outer.y + outer.height
    }
}

/// How long a part is along the axis on which an area is split.
#[derive(Clone, Copy, Debug, PartialEq, Eq, Structural)]
pub enum Extent {
    Length(u16),
    Min(u16),
    Percentage(u16),
    Ratio(u32, u32),
}

/// Whether a part keeps to an area that was split along an axis: it lies within the area, and
/// takes all of it across the axis.
pub open spec fn keeps_to(part: Rect, area: Rect, vertical: bool) -> bool {
    &&& part.within(area)
    &&& if vertical {
        part.x == area.x && part.width == area.width
    } else {
        part.y == area.y && part.height == area.height
    }
}

/// Whether `ratatui::layout::Layout::split` may share an area among parts of the given extents in
/// this way. More than one way may be possible: the shares come out of a constraint solver that
/// walks hash maps seeded anew in each process, and where the constraints cannot all be met its
/// choice is not documented.
pub uninterp spec fn may_split(
    area: Rect,
    vertical: bool,
    extents: Seq<Extent>,
    parts: Seq<Rect>,
) -> bool;

/// Whether an area is shared among parts of the given extents along an axis.
pub open spec fn shares(
    area: Rect,
    vertical: bool,
    extents: Seq<Extent>,
    parts: Seq<Rect>,
) -> bool {
    &&& may_split(area, vertical, extents, parts)
    &&& parts.len() == extents.len()
    &&& forall|i: int| 0 <= i < parts.len() ==> keeps_to(#[trigger] parts[i], area, vertical)
}

/// Splits an area into one part for each extent, by `ratatui::layout::Layout::split` of a layout
/// with the given direction and constraints and otherwise the default ones.
///
/// What is claimed: the parts are an outcome of that call on these very arguments, there are as
/// many parts as constraints, each part takes all of the area across the axis, and no part leaves
/// the area, since every edge is required to lie between the area's edges. How the area is shared
/// among the parts is not claimed.
#[verifier::external_body]
pub(crate) fn split(area: Rect, vertical: bool, extents: &Vec<Extent>) -> (parts: Vec<Rect>)
    requires
        area.x + area.width <= u16::MAX,
        area.y + area.height <= u16::MAX,
    ensures
        may_split(area, vertical, extents@, parts@),
        parts@.len() == extents@.len(),
        forall|i: int| 0 <= i < parts@.len() ==> keeps_to(#[trigger] parts@[i], area, vertical),
{
    let constraints = extents.iter().map(|extent| match *extent {
        Extent::Length(size) => Constraint::Length(size),
        Extent::Min(size) => Constraint::Min(size),
        Extent::Percentage(share) => Constraint::Percentage(share),
        Extent::Ratio(part, whole) => Constraint::Ratio(part, whole),
    });
    let direction = if vertical { Direction::Vertical } else { Direction::Horizontal };
    let Rect { x, y, width, height } = area;
    let area = ratatui::layout::Rect { x, y, width, height };
    let parts = Layout::new(direction, constraints).split(area);
    parts.iter().map(|p| Rect { x: p.x, y: p.y, width: p.width, height: p.height }).collect()
}

/// A place of at most the given size in the middle of an area, with room around it where there is
/// any.
pub open spec fn centered_in(area: Rect, max_width: u16, max_height: u16) -> Rect {
    let width = clamped(max_width, area.width);
    let height = clamped(max_height, area.height);
    Rect {
        x: (area.x + (if area.width > width {
            (area.width - width) / 2
        } else {
            0
        })) as u16,
        y: (area.y + (if area.height > height {
            (area.height - height) / 2
        } else {
            0
        })) as u16,
        width,
        height,
    }
}

/// A size that leaves a margin on both sides, and is never nothing.
pub open spec fn clamped(max: u16, size: u16) -> u16 {
    if size <= 2 || max == 0 {
        1
    } else if max <= size - 2 {
        max
    } else {
        (size - 2) as u16
    }
}

fn clamp(max: u16, size: u16) -> (clamped_size: u16)
    ensures
        clamped_size == clamped(max, size),
{
    if size <= 2 || max == 0 {
        1
    } else if max <= size - 2 {
        max
    } else {
        size - 2
    }
}

fn margin(size: u16, inner: u16) -> (margin: u16)
    ensures
        margin == if size > inner {
            (size - inner) / 2
        } else {
            0
        },
{
    if size > inner {
        (size - inner) / 2
    } else {
        0
    }
}

/// A place of at most the given size in the middle of an area.
pub fn centered(area: Rect, max_width: u16, max_height: u16) -> (place: Rect)
    requires
        area.x + area.width <= u16::MAX,
        area.y + area.height <= u16::MAX,
    ensures
        place == centered_in(area, max_width, max_height),
{
    let width = clamp(max_width, area.width);
    let height = clamp(max_height, area.height);
    Rect {
        x: area.x + margin(area.width, width),
        y: area.y + margin(area.height, height),
        width,
        height,
    }
}

/// What is put in the middle of an area lies within it, unless there is no area.
pub proof fn centered_lies_within(area: Rect, max_width: u16, max_height: u16)
    requires
        area.x + area.width <= u16::MAX,
        area.y + area.height <= u16::MAX,
        area.width > 0,
        area.height > 0,
    ensures
        centered_in(area, max_width, max_height).within(area),
{
}

/// The part of a pane: where it stands, and which pane it is.
pub type PaneArea = Option<(Rect, usize)>;

/// Whether parts are given out to panes in order: the first to the first pane, and none to a part
/// for which there is no pane.
pub open spec fn given_out(slots: Seq<PaneArea>, cells: Seq<Rect>, count: nat) -> bool {
    &&& slots.len() == cells.len()
    &&& forall|i: int|
        0 <= i < slots.len() ==> (#[trigger] slots[i]) == if i < count {
            Some((cells[i], i as usize))
        } else {
            None
        }
}

/// Gives parts out to panes in order.
pub fn pane_slots(cells: &Vec<Rect>, count: usize) -> (slots: Vec<PaneArea>)
    ensures
        given_out(slots@, cells@, count as nat),
{
    let mut slots: Vec<PaneArea> = Vec::new();
    let mut at: usize = 0;
    while at < cells.len()
        invariant
            at <= cells@.len(),
            given_out(slots@, cells@.take(at as int), count as nat),
        decreases cells@.len() - at,
    {
        slots.push(
            if at < count {
                Some((cells[at], at))
            } else {
                None
            },
        );
        at += 1;
    }
    proof {
        assert(cells@.take(at as int) =~= cells@);
    }
    slots
}

/// Whether a number of columns is the smallest whose square holds a number of panes.
pub open spec fn squares(columns: nat, count: nat) -> bool {
    &&& columns * columns >= count
    &&& columns > 0
    &&& (columns - 1) * (columns - 1) < count
}

fn grid_columns(count: u32) -> (columns: u32)
    requires
        count > 0,
    ensures
        squares(columns as nat, count as nat),
        columns <= 65536,
{
    let mut columns: u32 = 1;
    while (columns as u64) * (columns as u64) < count as u64
        invariant
            count > 0,
            1 <= columns <= 65536,
            (columns - 1) * (columns - 1) < count,
            columns as u64 * columns as u64 <= u64::MAX,
        decreases 65536 - columns,
    {
        proof {
            assert(columns < 65536) by (nonlinear_arith)
                requires
                    1 <= columns <= 65536,
                    columns * columns < count,
                    count <= u32::MAX,
            ;
            assert((columns + 1) * (columns + 1) <= u64::MAX) by (nonlinear_arith)
                requires
                    1 <= columns <= 65536,
            ;
        }
        columns += 1;
    }
    columns
}

/// The rows of a grid of the given number of columns that holds a number of panes.
pub open spec fn grid_rows(columns: nat, count: nat) -> nat {
    (count + columns - 1) as nat / columns
}

/// The extents of parts of equal size.
pub open spec fn equal_extents(count: nat) -> Seq<Extent> {
    Seq::new(count, |i: int| Extent::Ratio(1, count as u32))
}

fn equal_parts(count: u32) -> (extents: Vec<Extent>)
    ensures
        extents@ == equal_extents(count as nat),
{
    let mut extents: Vec<Extent> = Vec::new();
    let mut at: u32 = 0;
    while at < count
        invariant
            at <= count,
            extents@ == Seq::new(at as nat, |i: int| Extent::Ratio(1, count)),
        decreases count - at,
    {
        extents.push(Extent::Ratio(1, count));
        at += 1;
        proof {
            assert(extents@ =~= Seq::new(at as nat, |i: int| Extent::Ratio(1, count)));
        }
    }
    proof {
        assert(extents@ =~= equal_extents(count as nat));
    }
    extents
}

/// Whether parts are the cells of a grid, row by row: the area is shared among rows of equal
/// height, and each row among columns of equal width.
pub open spec fn grid_of(
    cells: Seq<Rect>,
    area: Rect,
    rows: nat,
    columns: nat,
    row_areas: Seq<Rect>,
) -> bool {
    &&& shares(area, true, equal_extents(rows), row_areas)
    &&& cells.len() == rows * columns
    &&& forall|row: int|
        0 <= row < rows ==> shares(
            #[trigger] row_areas[row],
            false,
            equal_extents(columns),
            row_of(cells, row, columns),
        )
}

/// One row of a grid.
pub open spec fn row_of(cells: Seq<Rect>, row: int, columns: nat) -> Seq<Rect> {
    Seq::new(columns, |i: int| cells[row * columns + i])
}

proof fn grid_lies_within(
    cells: Seq<Rect>,
    area: Rect,
    rows: nat,
    columns: nat,
    row_areas: Seq<Rect>,
)
    requires
        grid_of(cells, area, rows, columns, row_areas),
    ensures
        forall|i: int| 0 <= i < cells.len() ==> (#[trigger] cells[i]).within(area),
{
    assert forall|i: int| 0 <= i < cells.len() implies (#[trigger] cells[i]).within(area) by {
        assert(columns > 0) by (nonlinear_arith)
            requires
                0 <= i < rows * columns,
        ;
        let row = i / columns as int;
        let place = i % columns as int;
        assert(0 <= row < rows && row * columns + place == i && 0 <= place < columns)
            by (nonlinear_arith)
            requires
                columns > 0,
                0 <= i < rows * columns,
                row == i / columns as int,
                place == i % columns as int,
        ;
        assert(keeps_to(row_areas[row], area, true));
        let in_row = row_of(cells, row, columns);
        assert(keeps_to(in_row[place], row_areas[row], false));
        assert(in_row[place] == cells[i]);
    }
}

/// The cells of a grid, row by row.
fn grid_cells(area: Rect, rows: u32, columns: u32) -> (cells: Vec<Rect>)
    requires
        area.x + area.width <= u16::MAX,
        area.y + area.height <= u16::MAX,
    ensures
        exists|row_areas: Seq<Rect>| #[trigger]
            grid_of(cells@, area, rows as nat, columns as nat, row_areas),
{
    let row_areas = split(area, true, &equal_parts(rows));
    let mut cells: Vec<Rect> = Vec::new();
    let mut at: usize = 0;
    while at < row_areas.len()
        invariant
            at <= row_areas@.len() == rows,
            area.x + area.width <= u16::MAX,
            area.y + area.height <= u16::MAX,
            shares(area, true, equal_extents(rows as nat), row_areas@),
            cells@.len() == at * columns,
            forall|row: int|
                0 <= row < at ==> shares(
                    #[trigger] row_areas@[row],
                    false,
                    equal_extents(columns as nat),
                    row_of(cells@, row, columns as nat),
                ),
        decreases row_areas@.len() - at,
    {
        let mut parts = split(row_areas[at], false, &equal_parts(columns));
        let ghost before = cells@;
        let ghost added = parts@;
        cells.append(&mut parts);
        proof {
            assert(cells@ == before + added);
            assert((at + 1) * columns == at * columns + columns) by (nonlinear_arith);
            assert forall|row: int| 0 <= row < at + 1 implies shares(
                #[trigger] row_areas@[row],
                false,
                equal_extents(columns as nat),
                row_of(cells@, row, columns as nat),
            ) by {
                if row < at {
                    assert((row + 1) * columns <= at * columns) by (nonlinear_arith)
                        requires
                            row + 1 <= at,
                    ;
                    assert(row * columns + columns == (row + 1) * columns) by (nonlinear_arith);
                    assert(0 <= row * columns) by (nonlinear_arith)
                        requires
                            0 <= row,
                    ;
                    assert(row_of(cells@, row, columns as nat) =~= row_of(
                        before,
                        row,
                        columns as nat,
                    ));
                } else {
                    assert(row_of(cells@, row, columns as nat) =~= added);
                }
            }
        }
        at += 1;
    }
    proof {
        assert(grid_of(cells@, area, rows as nat, columns as nat, row_areas@));
    }
    cells
}

/// Whether panes are shown one at a time.
pub open spec fn shows_one(layout: PaneLayout, compact: bool) -> bool {
    compact || layout is Tabs || layout is Focused
}

/// Whether an area is shared among panes as a layout asks: in rows, in columns, or in the
/// smallest grid with at least as many columns as rows.
pub open spec fn lays_out(cells: Seq<Rect>, area: Rect, count: nat, layout: PaneLayout) -> bool {
    match layout {
        PaneLayout::Rows => shares(area, true, equal_extents(count), cells),
        PaneLayout::Columns => shares(area, false, equal_extents(count), cells),
        _ => exists|columns: nat, row_areas: Seq<Rect>|
            {
                &&& #[trigger] squares(columns, count)
                &&& #[trigger] grid_of(
                    cells,
                    area,
                    grid_rows(columns, count),
                    columns,
                    row_areas,
                )
            },
    }
}

/// Whether an area is given out to panes as a layout asks: to the focused pane alone where panes
/// are shown one at a time, and otherwise one part to each pane in order.
pub open spec fn arranges(
    slots: Seq<PaneArea>,
    area: Rect,
    count: nat,
    focused: nat,
    layout: PaneLayout,
    compact: bool,
) -> bool {
    if count == 0 {
        slots.len() == 0
    } else if shows_one(layout, compact) {
        slots == seq![
            Some(
                (
                    area,
                    (if focused < count {
                        focused
                    } else {
                        (count - 1) as nat
                    }) as usize,
                ),
            ),
        ]
    } else {
        exists|cells: Seq<Rect>|
            #[trigger] given_out(slots, cells, count) && lays_out(cells, area, count, layout)
    }
}

/// Gives an area out to the attached panes.
pub fn pane_areas(
    area: Rect,
    count: usize,
    focused: usize,
    layout: PaneLayout,
    compact: bool,
) -> (slots: Vec<PaneArea>)
    requires
        area.x + area.width <= u16::MAX,
        area.y + area.height <= u16::MAX,
        count <= u32::MAX,
    ensures
        arranges(slots@, area, count as nat, focused as nat, layout, compact),
{
    if count == 0 {
        return Vec::new();
    }
    if compact || matches!(layout, PaneLayout::Tabs) || matches!(layout, PaneLayout::Focused) {
        let shown = if focused < count {
            focused
        } else {
            count - 1
        };
        let mut slots: Vec<PaneArea> = Vec::new();
        slots.push(Some((area, shown)));
        return slots;
    }
    let cells = match layout {
        PaneLayout::Rows => split(area, true, &equal_parts(count as u32)),
        PaneLayout::Columns => split(area, false, &equal_parts(count as u32)),
        _ => {
            let columns = grid_columns(count as u32);
            let rest = count as u32 % columns;
            proof {
                assert(rest > 0 ==> count as u32 / columns < u32::MAX) by (nonlinear_arith)
                    requires
                        columns > 0,
                        count <= u32::MAX,
                        rest == count as u32 % columns,
                ;
            }
            let rows = count as u32 / columns + if rest > 0 {
                1
            } else {
                0
            };
            proof {
                assert(rows == grid_rows(columns as nat, count as nat)) by (nonlinear_arith)
                    requires
                        columns > 0,
                        count > 0,
                        rest == count % columns as usize,
                        rows == count / columns as usize + if rest > 0 {
                            1int
                        } else {
                            0int
                        },
                ;
            }
            grid_cells(area, rows, columns)
        },
    };
    let slots = pane_slots(&cells, count);
    proof {
        assert(given_out(slots@, cells@, count as nat));
        assert(lays_out(cells@, area, count as nat, layout));
    }
    slots
}

/// However panes are laid out, there is a part for each and every part lies within the area.
pub proof fn layouts_have_room_for_all(
    cells: Seq<Rect>,
    area: Rect,
    count: nat,
    layout: PaneLayout,
)
    requires
        lays_out(cells, area, count, layout),
    ensures
        cells.len() >= count,
        forall|i: int| 0 <= i < cells.len() ==> (#[trigger] cells[i]).within(area),
{
    if !(layout is Rows) && !(layout is Columns) {
        let (columns, row_areas) = choose|columns: nat, row_areas: Seq<Rect>|
            {
                &&& #[trigger] squares(columns, count)
                &&& #[trigger] grid_of(
                    cells,
                    area,
                    grid_rows(columns, count),
                    columns,
                    row_areas,
                )
            };
        let rows = grid_rows(columns, count);
        grid_lies_within(cells, area, rows, columns, row_areas);
        assert(rows * columns >= count) by (nonlinear_arith)
            requires
                columns > 0,
                rows == (count + columns - 1) as nat / columns,
        ;
    } else {
        assert forall|i: int| 0 <= i < cells.len() implies (#[trigger] cells[i]).within(area) by {
            assert(keeps_to(cells[i], area, layout is Rows));
        }
    }
}

/// Where panes are not shown one at a time, every pane has exactly one part, in order and within
/// the area.
pub proof fn every_pane_has_its_part(
    slots: Seq<PaneArea>,
    area: Rect,
    count: nat,
    focused: nat,
    layout: PaneLayout,
    pane: usize,
)
    requires
        arranges(slots, area, count, focused, layout, false),
        !shows_one(layout, false),
        pane < count <= usize::MAX,
    ensures
        pane < slots.len(),
        slots[pane as int] matches Some((part, shown)) && part.within(area) && shown == pane,
        forall|i: int|
            0 <= i < slots.len() ==> ((#[trigger] slots[i]) matches Some((_, shown)) && shown
                == pane ==> i == pane),
{
    let cells = choose|cells: Seq<Rect>|
        #[trigger] given_out(slots, cells, count) && lays_out(cells, area, count, layout);
    layouts_have_room_for_all(cells, area, count, layout);
    assert(slots[pane as int] == Some((cells[pane as int], pane)));
    assert(cells[pane as int].within(area));
}

} // verus!
