//! Row selection in the log regions: pointer drags and keyboard extension.
use vstd::prelude::*;
use crate::regions::{LogRegion, WrappedRegion};
use crate::row_drag::{
    drag_plan, spec_drag_plan, DragFrame, DragPlan, RowDragMode, RowDragSelection,
};
use crate::workspace::{tab_ix, DocumentTab, SelectionTable, Workspace};

verus! {

/// What a drag frame asks of the dragged table.
#[derive(Clone, Copy, Debug, PartialEq, Eq, Structural)]
pub struct DragTableUpdate {
    /// The row the drag now targets.
    pub target: usize,
    /// Text selection is suppressed while the drag selects whole lines.
    pub suppress_text_selection: bool,
    /// Extend the pointer selection to this row; `None` restores the selection the drag began with.
    pub extend_to: Option<usize>,
}

/// The outcome of one drag frame.
#[derive(Clone, Copy, Debug, PartialEq, Eq, Structural)]
pub struct DragAdvance {
    /// Another frame should follow because the region keeps scrolling.
    pub keep_scrolling: bool,
    /// Scroll the region so that this row is the first visible one.
    pub place_at_top: Option<usize>,
    /// Change the table's pointer selection.
    pub table_update: Option<DragTableUpdate>,
}

pub open spec fn no_advance() -> DragAdvance {
    DragAdvance { keep_scrolling: false, place_at_top: None, table_update: None }
}

pub open spec fn spec_next_mode(plan: DragPlan) -> RowDragMode {
    if plan.line_mode { RowDragMode::Lines } else { RowDragMode::Text }
}

/// The scroll a plan asks for, when it moves the first visible row.
pub open spec fn spec_placement(plan: DragPlan, frame: DragFrame) -> Option<usize> {
    if plan.scroll_top is Some && plan.scroll_top->0 != frame.current_top {
        plan.scroll_top
    } else {
        None
    }
}

/// The selection a drag frame selects `target` with, if it differs from the drag's current one.
pub open spec fn spec_table_update<P>(
    drag: RowDragSelection<P>,
    plan: DragPlan,
    target: usize,
) -> Option<DragTableUpdate> {
    let mode = spec_next_mode(plan);
    if target != drag.target_row || mode != drag.mode {
        Some(DragTableUpdate {
            target,
            suppress_text_selection: mode == RowDragMode::Lines,
            extend_to: if mode == RowDragMode::Text || target == drag.start_row {
                None
            } else {
                Some(target)
            },
        })
    } else {
        None
    }
}

/// The outcome of a drag frame that selects `target`.
pub open spec fn spec_drag_advance<P>(
    drag: RowDragSelection<P>,
    frame: DragFrame,
    target: usize,
) -> DragAdvance {
    let plan = spec_drag_plan(drag, frame);
    let place = spec_placement(plan, frame);
    DragAdvance {
        keep_scrolling: plan.keep_scrolling && place is Some,
        place_at_top: place,
        table_update: spec_table_update(drag, plan, target),
    }
}

fn drag_advance<P: Copy>(drag: &RowDragSelection<P>, frame: &DragFrame, plan: &DragPlan, target: usize) -> (advance: DragAdvance)
    requires
        frame.row_count > 0,
        *plan == spec_drag_plan(*drag, *frame),
    ensures
        advance == spec_drag_advance(*drag, *frame, target),
{
    let place = match plan.scroll_top {
        Some(top) => if top != frame.current_top { Some(top) } else { None },
        None => None,
    };
    let mode = if plan.line_mode { RowDragMode::Lines } else { RowDragMode::Text };
    let table_update = if target != drag.target_row || mode != drag.mode {
        Some(DragTableUpdate {
            target,
            suppress_text_selection: mode == RowDragMode::Lines,
            extend_to: if mode == RowDragMode::Text || target == drag.start_row {
                None
            } else {
                Some(target)
            },
        })
    } else {
        None
    };
    DragAdvance { keep_scrolling: plan.keep_scrolling && place.is_some(), place_at_top: place, table_update }
}

/// The drag state after a frame that selected `target`.
pub open spec fn spec_dragged<P>(drag: RowDragSelection<P>, frame: DragFrame, target: usize) -> RowDragSelection<P> {
    let plan = spec_drag_plan(drag, frame);
    if spec_table_update(drag, plan, target) is Some {
        RowDragSelection { mode: spec_next_mode(plan), target_row: target, ..drag }
    } else {
        drag
    }
}

impl<P: Copy> Workspace<P> {
    /// Apart from what a drag frame changes (the drag, the tabs and the selected source row),
    /// the workspace is `pre`.
    pub open spec fn same_but_drag_state(self, pre: Self) -> bool {
        self == (Workspace {
            documents: self.documents,
            row_drag_selection: self.row_drag_selection,
            selected_source_row: self.selected_source_row,
            ..pre
        })
    }

    /// The selected source row `row` after one drag frame: a local drag that changes the
    /// selection selects what `source_row` gives for its new target, the row of the table that
    /// the status bar and the row actions read; otherwise the selected source row stays.
    pub open spec fn spec_source_row_after_advance<F: Fn(usize) -> Option<usize>>(
        self,
        row: Option<usize>,
        frame: Option<DragFrame>,
        nearest_match: Option<usize>,
        source_row: F,
    ) -> bool {
        if self.spec_drag_tab(frame, nearest_match) is Some {
            source_row.ensures((self.spec_advance_row_drag(frame, nearest_match).table_update->0.target,), row)
        } else {
            row == self.selected_source_row
        }
    }

    /// The tab a local drag frame selects in, when it changes the selection.
    pub open spec fn spec_drag_tab(self, frame: Option<DragFrame>, nearest_match: Option<usize>) -> Option<int> {
        let drag = self.row_drag_selection;
        if drag is None || frame is None || drag->0.region == WrappedRegion::GlobalResults {
            None
        } else {
            let ix = crate::workspace::spec_first_tab(self.documents@, drag->0.document_id);
            if ix is Some && self.spec_advance_row_drag(frame, nearest_match).table_update is Some {
                ix
            } else {
                None
            }
        }
    }

    /// The outcome of one drag frame (see `advance_row_drag_selection`).
    pub open spec fn spec_advance_row_drag(self, frame: Option<DragFrame>, nearest_match: Option<usize>) -> DragAdvance {
        let drag = self.row_drag_selection;
        if drag is None || frame is None {
            no_advance()
        } else if drag->0.region == WrappedRegion::GlobalResults {
            spec_global_drag_advance(drag->0, frame->0, nearest_match)
        } else {
            let drag = drag->0;
            let frame = frame->0;
            if crate::workspace::spec_first_tab(self.documents@, drag.document_id) is None
                || frame.row_count == 0 || !frame.pointer_selecting {
                no_advance()
            } else {
                spec_drag_advance(drag, frame, spec_drag_plan(drag, frame).candidate)
            }
        }
    }

    /// The drag after one frame.
    pub open spec fn spec_drag_after_advance(self, frame: Option<DragFrame>, nearest_match: Option<usize>) -> Option<RowDragSelection<P>> {
        let drag = self.row_drag_selection;
        let advance = self.spec_advance_row_drag(frame, nearest_match);
        if advance.table_update is Some {
            Some(spec_dragged(drag->0, frame->0, advance.table_update->0.target))
        } else {
            drag
        }
    }

    /// The tabs after one frame: a local drag that changes the selection stops the tab from
    /// following appended lines and gives its selection to the dragged table.
    pub open spec fn spec_documents_after_advance(self, frame: Option<DragFrame>, nearest_match: Option<usize>) -> Seq<DocumentTab> {
        let ix = self.spec_drag_tab(frame, nearest_match);
        if ix is Some {
            let tab = self.documents@[ix->0];
            self.documents@.update(ix->0, DocumentTab {
                auto_follow: false,
                selection_table: if self.row_drag_selection->0.region == WrappedRegion::Results {
                    SelectionTable::Results
                } else {
                    SelectionTable::Log
                },
                ..tab
            })
        } else {
            self.documents@
        }
    }

    /// Advances the active drag by one frame of its region.
    ///
    /// `frame` is what the region shows under the pointer, `None` when the region has no
    /// painted bounds. Over global results the drag selects match rows only: `nearest_match`
    /// is the global table's nearest match row to the plan's candidate, preferring rows after
    /// it when the candidate is not before the start row. `source_row` gives the source row of a
    /// row of the dragged local table; a local frame that changes the selection selects it.
    pub fn advance_row_drag_selection<F: Fn(usize) -> Option<usize>>(
        &mut self,
        frame: Option<DragFrame>,
        nearest_match: Option<usize>,
        source_row: F,
    ) -> (advance: DragAdvance)
        requires
            forall|row: usize| source_row.requires((row,)),
        ensures
            old(self).spec_source_row_after_advance(final(self).selected_source_row, frame, nearest_match, source_row),
            advance == old(self).spec_advance_row_drag(frame, nearest_match),
            final(self).row_drag_selection == old(self).spec_drag_after_advance(frame, nearest_match),
            final(self).documents@ == old(self).spec_documents_after_advance(frame, nearest_match),
            final(self).same_but_drag_state(*old(self)),
    {
        let drag = match self.row_drag_selection {
            Some(drag) => drag,
            None => return DragAdvance { keep_scrolling: false, place_at_top: None, table_update: None },
        };
        let frame = match frame {
            Some(frame) => frame,
            None => return DragAdvance { keep_scrolling: false, place_at_top: None, table_update: None },
        };
        if drag.region == WrappedRegion::GlobalResults {
            return self.advance_global_row_drag_selection(drag, &frame, nearest_match);
        }
        let ix = match tab_ix(&self.documents, drag.document_id) {
            Some(ix) => ix,
            None => return DragAdvance { keep_scrolling: false, place_at_top: None, table_update: None },
        };
        if frame.row_count == 0 || !frame.pointer_selecting {
            return DragAdvance { keep_scrolling: false, place_at_top: None, table_update: None };
        }
        let plan = drag_plan(&drag, &frame);
        let advance = drag_advance(&drag, &frame, &plan, plan.candidate);
        if advance.table_update.is_some() {
            let mode = if plan.line_mode { RowDragMode::Lines } else { RowDragMode::Text };
            self.row_drag_selection = Some(RowDragSelection { mode, target_row: plan.candidate, ..drag });
            self.documents[ix].auto_follow = false;
            self.documents[ix].selection_table = if drag.region == WrappedRegion::Results {
                SelectionTable::Results
            } else {
                SelectionTable::Log
            };
            self.selected_source_row = source_row(plan.candidate);
        }
        advance
    }

    /// Advances a drag over the global results, which selects match rows only.
    pub fn advance_global_row_drag_selection(
        &mut self,
        drag: RowDragSelection<P>,
        frame: &DragFrame,
        nearest_match: Option<usize>,
    ) -> (advance: DragAdvance)
        requires
            old(self).row_drag_selection == Some(drag),
        ensures
            advance == spec_global_drag_advance(drag, *frame, nearest_match),
            final(self).row_drag_selection == if advance.table_update is Some {
                Some(spec_dragged(drag, *frame, advance.table_update->0.target))
            } else {
                Some(drag)
            },
            final(self).documents == old(self).documents,
            final(self).selected_source_row == old(self).selected_source_row,
            final(self).same_but_drag_state(*old(self)),
    {
        if frame.row_count == 0 || !frame.pointer_selecting {
            return DragAdvance { keep_scrolling: false, place_at_top: None, table_update: None };
        }
        let plan = drag_plan(&drag, frame);
        let target = match nearest_match {
            Some(target) => target,
            None => return DragAdvance { keep_scrolling: plan.keep_scrolling, place_at_top: None, table_update: None },
        };
        let advance = drag_advance(&drag, frame, &plan, target);
        if advance.table_update.is_some() {
            let mode = if plan.line_mode { RowDragMode::Lines } else { RowDragMode::Text };
            self.row_drag_selection = Some(RowDragSelection { mode, target_row: target, ..drag });
        }
        advance
    }
}

/// The outcome of a global-results drag frame: the drag moves to the nearest match row.
pub open spec fn spec_global_drag_advance<P>(
    drag: RowDragSelection<P>,
    frame: DragFrame,
    nearest_match: Option<usize>,
) -> DragAdvance {
    if frame.row_count == 0 || !frame.pointer_selecting {
        no_advance()
    } else if nearest_match is None {
        DragAdvance {
            keep_scrolling: spec_drag_plan(drag, frame).keep_scrolling,
            place_at_top: None,
            table_update: None,
        }
    } else {
        spec_drag_advance(drag, frame, nearest_match->0)
    }
}

/// The pointer-selection state of one table, as the drag decisions read it.
#[derive(Clone, Copy, Debug, PartialEq, Eq, Structural)]
pub struct TablePointerState {
    /// The row a pointer drag in this table started on.
    pub pointer_drag_anchor: Option<usize>,
    /// The pointer may select text inside its start row.
    pub text_selection_allowed: bool,
    /// The table tracks a pointer selection.
    pub pointer_selecting: bool,
    /// The table suppresses text selection.
    pub text_selection_suppressed: bool,
}

/// What ending a drag asks for.
#[derive(Clone, Copy, Debug, PartialEq, Eq, Structural)]
pub struct EndDrag {
    /// A drag or a pointer selection was ended.
    pub ended: bool,
    /// The final frame of the active drag.
    pub advance: Option<DragAdvance>,
    /// Clear the window's text selection: the drag selected whole lines.
    pub clear_text_selection: bool,
    /// End the table's pointer selection and refresh the status bar.
    pub end_pointer_selection: bool,
    /// Save the region's view state.
    pub save_state: bool,
}

pub open spec fn no_end() -> EndDrag {
    EndDrag {
        ended: false,
        advance: None,
        clear_text_selection: false,
        end_pointer_selection: false,
        save_state: false,
    }
}

/// What a pointer move over a log region did.
#[derive(Clone, Copy, Debug, PartialEq, Eq, Structural)]
pub enum DragMove {
    /// The button is no longer held: the drag was ended.
    Ended(EndDrag),
    /// The active drag follows the pointer; a frame should be scheduled.
    Moved,
    /// A new drag started on the table's anchor row; a frame should be scheduled.
    Started,
    /// Nothing to drag: the region has no table or no anchor row.
    Ignored,
}

impl<P: Copy> Workspace<P> {
    /// Asks for one more drag frame unless one is already scheduled or there is no drag.
    pub fn schedule_row_drag_frame(&mut self) -> (schedule: bool)
        ensures
            schedule == (!old(self).row_drag_frame_scheduled && old(self).row_drag_selection is Some),
            *final(self) == (Workspace { row_drag_frame_scheduled: old(self).row_drag_frame_scheduled || schedule, ..*old(self) }),
    {
        if self.row_drag_frame_scheduled || self.row_drag_selection.is_none() {
            return false;
        }
        self.row_drag_frame_scheduled = true;
        true
    }

    /// Whether the active drag belongs to the region of `document_id`.
    pub open spec fn spec_drag_targets(self, document_id: u64, region: WrappedRegion) -> bool {
        let key = crate::regions::spec_region_key(document_id, region);
        self.row_drag_selection is Some && self.row_drag_selection->0.spec_targets(key.0, region)
    }

    /// The workspace `self` after `end_row_drag_selection` on `pre` answered `end`: an ended
    /// drag is gone, after a last frame when it was this region's.
    pub open spec fn spec_row_drag_ended<F: Fn(usize) -> Option<usize>>(
        self,
        pre: Self,
        end: EndDrag,
        document_id: u64,
        region: WrappedRegion,
        frame: Option<DragFrame>,
        nearest_match: Option<usize>,
        source_row: F,
    ) -> bool {
        let active = pre.spec_drag_targets(document_id, region);
        &&& !end.ended ==> self == pre
        &&& end.ended ==> self.row_drag_selection is None
        &&& self.documents@ == if end.ended && active {
            pre.spec_documents_after_advance(frame, nearest_match)
        } else {
            pre.documents@
        }
        &&& if end.ended && active {
            pre.spec_source_row_after_advance(self.selected_source_row, frame, nearest_match, source_row)
        } else {
            self.selected_source_row == pre.selected_source_row
        }
        &&& self.same_but_drag_state(pre)
    }

    /// What `end_row_drag_selection` asks for.
    pub open spec fn spec_end_row_drag(
        self,
        document_id: u64,
        region: WrappedRegion,
        pointer_state_active: bool,
        frame: Option<DragFrame>,
        nearest_match: Option<usize>,
    ) -> EndDrag {
        let key = crate::regions::spec_region_key(document_id, region);
        let active = self.spec_drag_targets(document_id, region);
        if !active && !pointer_state_active {
            no_end()
        } else {
            let drag = if active { self.spec_drag_after_advance(frame, nearest_match) } else { self.row_drag_selection };
            let documents = if active { self.spec_documents_after_advance(frame, nearest_match) } else { self.documents@ };
            let here = drag is Some && drag->0.spec_targets(key.0, region);
            let tab_open = region == WrappedRegion::GlobalResults
                || crate::workspace::spec_first_tab(documents, key.0) is Some;
            EndDrag {
                ended: true,
                advance: if active { Some(self.spec_advance_row_drag(frame, nearest_match)) } else { None },
                clear_text_selection: here && drag->0.mode == RowDragMode::Lines,
                end_pointer_selection: tab_open,
                save_state: tab_open && (region != WrappedRegion::GlobalResults
                    || (here && drag->0.spec_changed_row_selection())),
            }
        }
    }

    /// Ends the drag or pointer selection in a region when its button is released.
    ///
    /// `pointer_state_active` is whether the region's table still tracks a pointer selection or
    /// suppresses text selection. An active drag first advances by one last frame.
    pub fn end_row_drag_selection<F: Fn(usize) -> Option<usize>>(
        &mut self,
        document_id: u64,
        region: WrappedRegion,
        pointer_state_active: bool,
        frame: Option<DragFrame>,
        nearest_match: Option<usize>,
        source_row: F,
    ) -> (end: EndDrag)
        requires
            forall|row: usize| source_row.requires((row,)),
        ensures
            end == old(self).spec_end_row_drag(document_id, region, pointer_state_active, frame, nearest_match),
            final(self).spec_row_drag_ended(*old(self), end, document_id, region, frame, nearest_match, source_row),
    {
        let key = crate::regions::region_key(document_id, region);
        let document_id = key.0;
        let active = match self.row_drag_selection {
            Some(drag) => drag.document_id == document_id && drag.region == region,
            None => false,
        };
        if !active && !pointer_state_active {
            return EndDrag {
                ended: false,
                advance: None,
                clear_text_selection: false,
                end_pointer_selection: false,
                save_state: false,
            };
        }
        let advance = if active {
            Some(self.advance_row_drag_selection(frame, nearest_match, source_row))
        } else {
            None
        };
        let (here, changed, lines) = match self.row_drag_selection {
            Some(drag) => {
                let here = drag.document_id == document_id && drag.region == region;
                (here, here && drag.changed_row_selection(), here && drag.mode == RowDragMode::Lines)
            },
            None => (false, false, false),
        };
        self.row_drag_selection = None;
        let tab_open = region == WrappedRegion::GlobalResults
            || tab_ix(&self.documents, document_id).is_some();
        EndDrag {
            ended: true,
            advance,
            clear_text_selection: lines,
            end_pointer_selection: tab_open,
            save_state: tab_open && (region != WrappedRegion::GlobalResults || changed),
        }
    }
}

/// The pointer-selection state of one tab's log and results tables.
#[derive(Clone, Copy, Debug, PartialEq, Eq, Structural)]
pub struct TabPointerStates {
    pub log: TablePointerState,
    pub results: TablePointerState,
}

/// A table still holds a pointer selection or text-selection suppression.
pub open spec fn spec_pointer_state_active(state: TablePointerState) -> bool {
    state.pointer_selecting || state.text_selection_suppressed
}

/// The table of `tab` in `region` needs its pointer selection ended.
pub open spec fn spec_needs_cleanup<P>(drag: Option<RowDragSelection<P>>, tab: DocumentTab, region: WrappedRegion, state: TablePointerState) -> bool {
    (drag is Some && drag->0.spec_targets(tab.id, region)) || spec_pointer_state_active(state)
}

/// The tables whose pointer selection ends, in tab order, log before results.
pub open spec fn spec_ended_tables<P>(
    documents: Seq<DocumentTab>,
    states: Seq<TabPointerStates>,
    drag: Option<RowDragSelection<P>>,
) -> Seq<(u64, WrappedRegion)>
    decreases documents.len(),
{
    if documents.len() == 0 || states.len() != documents.len() {
        Seq::empty()
    } else {
        let n = documents.len() - 1;
        let tab = documents[n];
        let state = states[n];
        let before = spec_ended_tables(documents.take(n), states.take(n), drag);
        let with_log = if spec_needs_cleanup(drag, tab, WrappedRegion::Log, state.log) {
            before.push((tab.id, WrappedRegion::Log))
        } else {
            before
        };
        if spec_needs_cleanup(drag, tab, WrappedRegion::Results, state.results) {
            with_log.push((tab.id, WrappedRegion::Results))
        } else {
            with_log
        }
    }
}

/// What releasing the pointer anywhere in the window asks for.
#[derive(Clone, Debug)]
pub struct EndAllDrag {
    /// The final frame of the active drag.
    pub advance: Option<DragAdvance>,
    /// Clear the window's text selection: the drag selected whole lines.
    pub clear_text_selection: bool,
    /// The local tables whose pointer selection ends.
    pub ended_tables: Vec<(u64, WrappedRegion)>,
    /// The global table's pointer selection ends.
    pub end_global_selection: bool,
    /// Some selection ended: refresh the status bar.
    pub refresh_status: bool,
    /// Save the global search state: a drag changed the global row selection.
    pub save_workspace_state: bool,
}

impl<P: Copy> Workspace<P> {
    /// Follows a pointer move over a log region.
    ///
    /// `table` is the pointer state of the region's table, `None` when the region's tab is
    /// gone. When the button is no longer held the drag ends as `end_row_drag_selection` does.
    #[verifier::rlimit(40)]
    pub fn handle_row_drag_move<F: Fn(usize) -> Option<usize>>(
        &mut self,
        document_id: u64,
        region: WrappedRegion,
        dragging: bool,
        pointer: P,
        table: Option<TablePointerState>,
        frame: Option<DragFrame>,
        nearest_match: Option<usize>,
        source_row: F,
    ) -> (outcome: DragMove)
        requires
            forall|row: usize| source_row.requires((row,)),
        ensures
            ({
                let key = crate::regions::spec_region_key(document_id, region);
                let drag = old(self).row_drag_selection;
                if !dragging {
                    let end = old(self).spec_end_row_drag(key.0, region,
                        table is Some && spec_pointer_state_active(table->0), frame, nearest_match);
                    outcome == DragMove::Ended(end)
                        && final(self).spec_row_drag_ended(*old(self), end, key.0, region, frame, nearest_match, source_row)
                } else if old(self).spec_drag_targets(key.0, region) {
                    outcome == DragMove::Moved
                        && *final(self) == Workspace { row_drag_selection: Some(RowDragSelection { pointer, ..drag->0 }), ..*old(self) }
                } else if table is None || table->0.pointer_drag_anchor is None {
                    outcome == DragMove::Ignored && *final(self) == *old(self)
                } else {
                    let start = table->0.pointer_drag_anchor->0;
                    outcome == DragMove::Started
                        && *final(self) == Workspace {
                            row_drag_selection: Some(RowDragSelection {
                                document_id: key.0,
                                region,
                                pointer,
                                start_row: start,
                                target_row: start,
                                mode: if table->0.text_selection_allowed { RowDragMode::Text } else { RowDragMode::Lines },
                            }),
                            ..*old(self)
                        }
                }
            }),
    {
        let key = crate::regions::region_key(document_id, region);
        let document_id = key.0;
        if !dragging {
            let active = match table {
                Some(state) => state.pointer_selecting || state.text_selection_suppressed,
                None => false,
            };
            let end = self.end_row_drag_selection(document_id, region, active, frame, nearest_match, source_row);
            return DragMove::Ended(end);
        }
        match self.row_drag_selection {
            Some(drag) => {
                if drag.document_id == document_id && drag.region == region {
                    self.row_drag_selection = Some(RowDragSelection { pointer, ..drag });
                    return DragMove::Moved;
                }
            },
            None => {},
        }
        let state = match table {
            Some(state) => state,
            None => return DragMove::Ignored,
        };
        let start = match state.pointer_drag_anchor {
            Some(start) => start,
            None => return DragMove::Ignored,
        };
        let mode = if state.text_selection_allowed { RowDragMode::Text } else { RowDragMode::Lines };
        self.row_drag_selection = Some(RowDragSelection {
            document_id,
            region,
            pointer,
            start_row: start,
            target_row: start,
            mode,
        });
        DragMove::Started
    }

    /// Ends every drag and pointer selection when the button is released anywhere.
    ///
    /// `states` holds the pointer state of each tab's tables, in tab order; `global` that of the
    /// global table. The active drag first advances by one last frame; its target is kept so that
    /// a table whose anchor was already cleared is still released.
    pub fn end_all_row_drag_selection<F: Fn(usize) -> Option<usize>>(
        &mut self,
        states: &Vec<TabPointerStates>,
        global: TablePointerState,
        frame: Option<DragFrame>,
        nearest_match: Option<usize>,
        source_row: F,
    ) -> (end: EndAllDrag)
        requires
            states.len() == old(self).documents.len(),
            forall|row: usize| source_row.requires((row,)),
        ensures
            ({
                let had_drag = old(self).row_drag_selection is Some;
                let drag = if had_drag { old(self).spec_drag_after_advance(frame, nearest_match) } else { None };
                let documents = if had_drag { old(self).spec_documents_after_advance(frame, nearest_match) } else { old(self).documents@ };
                let end_global = (drag is Some && drag->0.region == WrappedRegion::GlobalResults)
                    || spec_pointer_state_active(global);
                &&& end.advance == if had_drag { Some(old(self).spec_advance_row_drag(frame, nearest_match)) } else { None }
                &&& end.clear_text_selection == (drag is Some && drag->0.mode == RowDragMode::Lines)
                &&& end.ended_tables@ == spec_ended_tables(documents, states@, drag)
                &&& end.end_global_selection == end_global
                &&& end.refresh_status == (end_global || end.ended_tables@.len() > 0)
                &&& end.save_workspace_state == (end_global && drag is Some
                    && drag->0.region == WrappedRegion::GlobalResults && drag->0.spec_changed_row_selection())
                &&& final(self).row_drag_selection is None
                &&& final(self).documents@ == documents
                &&& if had_drag {
                    old(self).spec_source_row_after_advance(final(self).selected_source_row, frame, nearest_match, source_row)
                } else {
                    final(self).selected_source_row == old(self).selected_source_row
                }
                &&& final(self).same_but_drag_state(*old(self))
            }),
    {
        proof {
            if self.row_drag_selection is Some {
                crate::workspace::lemma_first_tab(self.documents@, self.row_drag_selection->0.document_id, 0);
            }
        }
        let advance = if self.row_drag_selection.is_some() {
            Some(self.advance_row_drag_selection(frame, nearest_match, source_row))
        } else {
            None
        };
        assert(self.documents@.len() == states@.len());
        let drag = self.row_drag_selection;
        let (changed_global, clear_text_selection) = match drag {
            Some(d) => (d.region == WrappedRegion::GlobalResults && d.changed_row_selection(), d.mode == RowDragMode::Lines),
            None => (false, false),
        };
        self.row_drag_selection = None;
        let mut ended_tables: Vec<(u64, WrappedRegion)> = Vec::new();
        let mut i: usize = 0;
        while i < self.documents.len()
            invariant
                i <= self.documents.len(),
                states.len() == self.documents.len(),
                ended_tables@ == spec_ended_tables(self.documents@.take(i as int), states@.take(i as int), drag),
            decreases self.documents.len() - i,
        {
            let id = self.documents[i].id;
            let state = states[i];
            let log_active = match drag {
                Some(d) => d.document_id == id && d.region == WrappedRegion::Log,
                None => false,
            };
            if log_active || state.log.pointer_selecting || state.log.text_selection_suppressed {
                ended_tables.push((id, WrappedRegion::Log));
            }
            let results_active = match drag {
                Some(d) => d.document_id == id && d.region == WrappedRegion::Results,
                None => false,
            };
            if results_active || state.results.pointer_selecting || state.results.text_selection_suppressed {
                ended_tables.push((id, WrappedRegion::Results));
            }
            proof {
                let docs = self.documents@.take(i + 1);
                let sts = states@.take(i + 1);
                assert(docs.take(i as int) =~= self.documents@.take(i as int));
                assert(sts.take(i as int) =~= states@.take(i as int));
                assert(docs[i as int] == self.documents@[i as int]);
                assert(sts[i as int] == states@[i as int]);
            }
            i = i + 1;
        }
        proof {
            assert(self.documents@.take(i as int) =~= self.documents@);
            assert(states@.take(i as int) =~= states@);
        }
        let drag_global = match drag {
            Some(d) => d.region == WrappedRegion::GlobalResults,
            None => false,
        };
        let end_global = drag_global || global.pointer_selecting || global.text_selection_suppressed;
        let refresh_status = end_global || ended_tables.len() > 0;
        EndAllDrag {
            advance,
            clear_text_selection,
            ended_tables,
            end_global_selection: end_global,
            refresh_status,
            save_workspace_state: end_global && changed_global,
        }
    }
}

/// A table of the workspace.
#[derive(Clone, Copy, Debug, PartialEq, Eq, Structural)]
pub enum TableRef {
    Global,
    Log(u64),
    Results(u64),
}

/// The rows a keyboard-extended selection moves over.
#[derive(Clone, Copy, Debug, PartialEq, Eq, Structural)]
pub struct TableRows {
    pub row_count: usize,
    pub active_row: Option<usize>,
    /// Rows in the table's visible range.
    pub visible_len: usize,
}

/// A keyboard selection extension: extend `table`'s selection to `target` and reveal it.
#[derive(Clone, Copy, Debug, PartialEq, Eq, Structural)]
pub struct SelectionMove {
    pub table: TableRef,
    pub target: usize,
}

/// The row a keyboard extension moves to, from the active row (or the first row): to the
/// first or last row for `edge`, else one row or one visible page up or down, within the table.
pub open spec fn spec_extension_candidate(direction: i32, page: bool, edge: Option<bool>, rows: TableRows) -> int {
    let current = match rows.active_row { Some(r) => r as int, None => 0 };
    let step = if page { if rows.visible_len > 1 { rows.visible_len as int } else { 1 } } else { 1 };
    match edge {
        Some(last) => if last { rows.row_count - 1 } else { 0 },
        None => if direction < 0 {
            crate::row_drag::sat_sub(current, step)
        } else {
            crate::row_drag::min_int(current + step, rows.row_count - 1)
        },
    }
}

/// The row a keyboard extension moves to in a non-empty table.
pub fn extension_candidate(direction: i32, page: bool, edge: Option<bool>, rows: TableRows) -> (row: usize)
    requires
        rows.row_count > 0,
    ensures
        row == spec_extension_candidate(direction, page, edge, rows),
{
    let current = match rows.active_row { Some(r) => r, None => 0 };
    let step = if page { if rows.visible_len > 1 { rows.visible_len } else { 1 } } else { 1 };
    match edge {
        Some(last) => if last { rows.row_count - 1 } else { 0 },
        None => if direction < 0 {
            current.saturating_sub(step)
        } else {
            let next = current.saturating_add(step);
            if next < rows.row_count - 1 { next } else { rows.row_count - 1 }
        },
    }
}

impl<P: Copy> Workspace<P> {
    /// The active tab, if the active index names one.
    pub open spec fn spec_active_tab(self) -> Option<DocumentTab> {
        match self.active_ix {
            Some(ix) => if ix < self.documents.len() { Some(self.documents@[ix as int]) } else { None },
            None => None,
        }
    }

    /// The table whose selection the keyboard extends: the global results when they are the
    /// active region, else the active tab's results when they are active and shown, else its log.
    pub open spec fn spec_extension_table(self) -> Option<TableRef> {
        if self.active_log_region == LogRegion::GlobalResults {
            Some(TableRef::Global)
        } else {
            match self.spec_active_tab() {
                Some(tab) => if self.active_log_region == LogRegion::CurrentResults && tab.results_visible {
                    Some(TableRef::Results(tab.id))
                } else {
                    Some(TableRef::Log(tab.id))
                },
                None => None,
            }
        }
    }

    /// The table whose selection the keyboard extends.
    pub fn extension_table(&self) -> (table: Option<TableRef>)
        ensures
            table == self.spec_extension_table(),
    {
        if self.active_log_region == LogRegion::GlobalResults {
            return Some(TableRef::Global);
        }
        match self.active_ix {
            Some(ix) => {
                if ix < self.documents.len() {
                    let tab = &self.documents[ix];
                    if self.active_log_region == LogRegion::CurrentResults && tab.results_visible {
                        Some(TableRef::Results(tab.id))
                    } else {
                        Some(TableRef::Log(tab.id))
                    }
                } else {
                    None
                }
            },
            None => None,
        }
    }

    /// Extends the active table's selection by keyboard.
    ///
    /// `rows` describes the table `extension_table` names. Over global results only match rows
    /// are selected: `nearest_match` is the global table's nearest match row to
    /// `extension_candidate`, preferring later rows when `direction` is not negative.
    pub fn extend_log_selection(
        &self,
        direction: i32,
        page: bool,
        edge: Option<bool>,
        rows: TableRows,
        nearest_match: Option<usize>,
    ) -> (extension: Option<SelectionMove>)
        ensures
            extension == match self.spec_extension_table() {
                None => None,
                Some(table) => if rows.row_count == 0 {
                    None
                } else if table == TableRef::Global {
                    match nearest_match {
                        Some(target) => Some(SelectionMove { table, target }),
                        None => None,
                    }
                } else {
                    Some(SelectionMove {
                        table,
                        target: spec_extension_candidate(direction, page, edge, rows) as usize,
                    })
                },
            },
    {
        let table = match self.extension_table() {
            Some(table) => table,
            None => return None,
        };
        if rows.row_count == 0 {
            return None;
        }
        match table {
            TableRef::Global => match nearest_match {
                Some(target) => Some(SelectionMove { table, target }),
                None => None,
            },
            _ => Some(SelectionMove { table, target: extension_candidate(direction, page, edge, rows) }),
        }
    }

    /// Extends the selection by one row up.
    pub fn extend_selection_up(&self, rows: TableRows, nearest_match: Option<usize>) -> (extension: Option<SelectionMove>)
        ensures
            extension == self.spec_extend(-1i32, false, None, rows, nearest_match),
    {
        self.extend_log_selection(-1, false, None, rows, nearest_match)
    }

    /// Extends the selection by one row down.
    pub fn extend_selection_down(&self, rows: TableRows, nearest_match: Option<usize>) -> (extension: Option<SelectionMove>)
        ensures
            extension == self.spec_extend(1i32, false, None, rows, nearest_match),
    {
        self.extend_log_selection(1, false, None, rows, nearest_match)
    }

    /// Extends the selection by one visible page up.
    pub fn extend_selection_page_up(&self, rows: TableRows, nearest_match: Option<usize>) -> (extension: Option<SelectionMove>)
        ensures
            extension == self.spec_extend(-1i32, true, None, rows, nearest_match),
    {
        self.extend_log_selection(-1, true, None, rows, nearest_match)
    }

    /// Extends the selection by one visible page down.
    pub fn extend_selection_page_down(&self, rows: TableRows, nearest_match: Option<usize>) -> (extension: Option<SelectionMove>)
        ensures
            extension == self.spec_extend(1i32, true, None, rows, nearest_match),
    {
        self.extend_log_selection(1, true, None, rows, nearest_match)
    }

    /// Extends the selection to the first row.
    pub fn extend_selection_first(&self, rows: TableRows, nearest_match: Option<usize>) -> (extension: Option<SelectionMove>)
        ensures
            extension == self.spec_extend(-1i32, false, Some(false), rows, nearest_match),
    {
        self.extend_log_selection(-1, false, Some(false), rows, nearest_match)
    }

    /// Extends the selection to the last row.
    pub fn extend_selection_last(&self, rows: TableRows, nearest_match: Option<usize>) -> (extension: Option<SelectionMove>)
        ensures
            extension == self.spec_extend(1i32, false, Some(true), rows, nearest_match),
    {
        self.extend_log_selection(1, false, Some(true), rows, nearest_match)
    }

    /// The extension `extend_log_selection` makes.
    pub open spec fn spec_extend(self, direction: i32, page: bool, edge: Option<bool>, rows: TableRows, nearest_match: Option<usize>) -> Option<SelectionMove> {
        match self.spec_extension_table() {
            None => None,
            Some(table) => if rows.row_count == 0 {
                None
            } else if table == TableRef::Global {
                match nearest_match {
                    Some(target) => Some(SelectionMove { table, target }),
                    None => None,
                }
            } else {
                Some(SelectionMove {
                    table,
                    target: spec_extension_candidate(direction, page, edge, rows) as usize,
                })
            },
        }
    }
}

} // verus!
