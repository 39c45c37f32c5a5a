//! Pointer drags that extend a row selection, with edge auto-scroll.
use vstd::prelude::*;
use crate::regions::WrappedRegion;

verus! {

/// Whether a drag selects text inside one row or whole lines.
#[derive(Clone, Copy, Debug, PartialEq, Eq, Structural)]
pub enum RowDragMode {
    Text,
    Lines,
}

/// A drag that started on a row of one region. `P` is the pointer position type.
#[derive(Clone, Copy, Debug)]
pub struct RowDragSelection<P> {
    pub document_id: u64,
    pub region: WrappedRegion,
    pub pointer: P,
    pub start_row: usize,
    pub target_row: usize,
    pub mode: RowDragMode,
}

impl<P> RowDragSelection<P> {
    /// A drag changed the row selection once it selects lines and left its start row.
    pub open spec fn spec_changed_row_selection(&self) -> bool {
        self.mode == RowDragMode::Lines && self.target_row != self.start_row
    }

    /// Only a line drag that reached another row changes the selection.
    pub fn changed_row_selection(&self) -> (changed: bool)
        ensures
            changed == self.spec_changed_row_selection(),
    {
        self.mode == RowDragMode::Lines && self.target_row != self.start_row
    }

    /// Whether this drag belongs to the given region key.
    pub open spec fn spec_targets(&self, document_id: u64, region: WrappedRegion) -> bool {
        self.document_id == document_id && self.region == region
    }
}

/// An edge auto-scroll request: the pointer is within the edge band above or below the rows.
/// `step` is the number of rows to scroll in this frame.
#[derive(Clone, Copy, Debug, PartialEq, Eq, Structural)]
pub struct EdgeScroll {
    pub upward: bool,
    pub step: usize,
}

/// What the current frame shows under a dragging pointer. The pixel measurements that
/// produce it (row bounds, edge bands, scroll speed) are taken by the caller.
#[derive(Clone, Copy, Debug)]
pub struct DragFrame {
    /// Rows in the dragged table.
    pub row_count: usize,
    /// The table still tracks a pointer selection.
    pub pointer_selecting: bool,
    /// Whole rows that fit in the region, at least one.
    pub visible_rows: usize,
    /// The first visible row.
    pub current_top: usize,
    /// The table lets the pointer select text inside the start row.
    pub text_selection_allowed: bool,
    /// The row whose painted bounds hold the pointer.
    pub row_under_pointer: Option<usize>,
    /// The pointer is above or below the region.
    pub crossed_viewport_edge: bool,
    /// The last painted row when the pointer is below the region, else the first.
    pub visible_edge_row: Option<usize>,
    /// The edge band the pointer is in, if any.
    pub edge: Option<EdgeScroll>,
}

/// Where a drag frame points: the row it selects, and the scroll it asks for.
#[derive(Clone, Copy, Debug, PartialEq, Eq, Structural)]
pub struct DragPlan {
    pub candidate: usize,
    pub scroll_top: Option<usize>,
    pub keep_scrolling: bool,
    pub line_mode: bool,
}

pub open spec fn sat_sub(a: int, b: int) -> int {
    if a >= b { a - b } else { 0 }
}

pub open spec fn min_int(a: int, b: int) -> int {
    if a <= b { a } else { b }
}

/// The row directly under the pointer; past an edge, the painted edge row; else the last target.
pub open spec fn spec_direct_target<P>(drag: RowDragSelection<P>, frame: DragFrame) -> usize {
    match frame.row_under_pointer {
        Some(row) => row,
        None => if frame.crossed_viewport_edge && frame.visible_edge_row is Some {
            frame.visible_edge_row->0
        } else {
            drag.target_row
        },
    }
}

/// A drag selects lines once text selection is not allowed, or the pointer left the start
/// row, or it left the region.
pub open spec fn spec_line_mode<P>(drag: RowDragSelection<P>, frame: DragFrame) -> bool {
    !frame.text_selection_allowed || spec_direct_target(drag, frame) != drag.start_row
        || frame.crossed_viewport_edge
}

/// The first visible row after an edge scroll: up by `step`, or down by `step` but never
/// past the last full page.
pub open spec fn spec_edge_scroll_top(frame: DragFrame, edge: EdgeScroll) -> int {
    if edge.upward {
        sat_sub(frame.current_top as int, edge.step as int)
    } else {
        min_int(
            frame.current_top + edge.step,
            sat_sub(frame.row_count as int, frame.visible_rows as int),
        )
    }
}

/// The plan of a drag frame over a non-empty table.
pub open spec fn spec_drag_plan<P>(drag: RowDragSelection<P>, frame: DragFrame) -> DragPlan {
    let line_mode = spec_line_mode(drag, frame);
    if line_mode && frame.edge is Some {
        let edge = frame.edge->0;
        let top = spec_edge_scroll_top(frame, edge);
        let candidate = if edge.upward {
            top
        } else {
            min_int(top + sat_sub(frame.visible_rows as int, 1), frame.row_count - 1)
        };
        DragPlan {
            candidate: candidate as usize,
            scroll_top: Some(top as usize),
            keep_scrolling: true,
            line_mode,
        }
    } else {
        DragPlan {
            candidate: spec_direct_target(drag, frame),
            scroll_top: None,
            keep_scrolling: false,
            line_mode,
        }
    }
}

/// Plans one frame of a row drag over a non-empty table.
pub fn drag_plan<P: Copy>(drag: &RowDragSelection<P>, frame: &DragFrame) -> (plan: DragPlan)
    requires
        frame.row_count > 0,
    ensures
        plan == spec_drag_plan(*drag, *frame),
{
    let direct = match frame.row_under_pointer {
        Some(row) => row,
        None => {
            if frame.crossed_viewport_edge && frame.visible_edge_row.is_some() {
                frame.visible_edge_row.unwrap()
            } else {
                drag.target_row
            }
        },
    };
    let line_mode = !frame.text_selection_allowed || direct != drag.start_row
        || frame.crossed_viewport_edge;
    if line_mode && frame.edge.is_some() {
        let edge = frame.edge.unwrap();
        let top = if edge.upward {
            frame.current_top.saturating_sub(edge.step)
        } else {
            let last_page_top = frame.row_count.saturating_sub(frame.visible_rows);
            let down = frame.current_top.saturating_add(edge.step);
            let down_top = if down < last_page_top { down } else { last_page_top };
            assert(frame.current_top + edge.step > usize::MAX ==> down_top == last_page_top);
            down_top
        };
        let candidate = if edge.upward {
            top
        } else {
            let bottom = top.saturating_add(frame.visible_rows.saturating_sub(1));
            if bottom < frame.row_count - 1 { bottom } else { frame.row_count - 1 }
        };
        DragPlan { candidate, scroll_top: Some(top), keep_scrolling: true, line_mode }
    } else {
        DragPlan { candidate: direct, scroll_top: None, keep_scrolling: false, line_mode }
    }
}

} // verus!
