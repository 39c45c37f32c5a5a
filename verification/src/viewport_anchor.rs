//! Keeping a log region's visible rows in place across a change of layout: capture the row at
//! the viewport and its screen position by a key that survives the change, then find the row
//! again and scroll it back.
use vstd::prelude::*;
use crate::log_viewport::{spec_captured, LogViewportState, RowViewportPosition, ViewportCommand, ViewportScroll};
use crate::workspace::{tab_ix, spec_first_tab, Workspace};

verus! {

/// A row found again by its key, with its screen position and its index when the key is lost.
#[derive(Clone, Copy, Debug, PartialEq)]
pub struct RowViewportAnchor<K, Y> {
    pub key: K,
    pub viewport_y: Y,
    pub fallback_ix: usize,
}

/// A row anchor that also remembers whether the viewport followed the end.
#[derive(Clone, Copy, Debug, PartialEq)]
pub struct ViewportAnchor<K, Y> {
    pub key: K,
    pub viewport_y: Y,
    pub at_end: bool,
    pub fallback_ix: usize,
}

/// What the row tables of one region report of themselves.
pub struct TableReading<Y> {
    /// The number of rows of the table.
    pub row_count: usize,
    /// The active row.
    pub active_row: Option<usize>,
    /// The viewport's first row and its screen position.
    pub first: RowViewportPosition<Y>,
    /// The viewport shows the last row.
    pub at_end: bool,
}

/// The anchor of a captured position: the row's key, if the table has one for it.
pub open spec fn spec_anchor_of<K, Y, G: Fn(usize) -> Option<K>>(
    captured: Option<RowViewportPosition<Y>>,
    row_key: G,
    anchor: Option<RowViewportAnchor<K, Y>>,
) -> bool {
    match captured {
        None => anchor is None,
        Some(p) => ({
            ||| exists|k: K| row_key.ensures((p.row_ix,), Some(k))
                && anchor == Some(RowViewportAnchor { key: k, viewport_y: p.viewport_y, fallback_ix: p.row_ix })
            ||| row_key.ensures((p.row_ix,), None) && anchor is None
        }),
    }
}

/// The row anchor of a region: its captured position and the key of that row.
pub open spec fn spec_row_anchor<B: Copy, O: Copy, L, K, Y, F: Fn(B) -> Option<Y>, G: Fn(usize) -> Option<K>>(
    viewport: LogViewportState<B, O, L>,
    table: TableReading<Y>,
    locate: F,
    row_key: G,
    anchor: Option<RowViewportAnchor<K, Y>>,
) -> bool {
    if table.row_count == 0 {
        anchor is None
    } else {
        exists|captured: Option<RowViewportPosition<Y>>|
            spec_captured(viewport.spec_rows(), table.row_count, table.active_row, table.first, locate, captured)
            && spec_anchor_of(captured, row_key, anchor)
    }
}

/// The viewport anchor made of a row anchor and the end flag.
pub open spec fn spec_viewport_anchor<K, Y>(
    row: Option<RowViewportAnchor<K, Y>>,
    at_end: bool,
    preferred_row: Option<usize>,
) -> Option<ViewportAnchor<K, Y>> {
    match row {
        Some(a) => Some(ViewportAnchor {
            key: a.key,
            viewport_y: a.viewport_y,
            at_end: at_end && preferred_row != Some(a.fallback_ix),
            fallback_ix: a.fallback_ix,
        }),
        None => None,
    }
}

/// The row an anchor lands on: where its key is found now, else its old index clamped to the
/// rows; nothing without rows.
pub open spec fn spec_landing(found: Option<usize>, fallback_ix: usize, row_count: usize) -> Option<usize> {
    match found {
        Some(r) => Some(r),
        None => if row_count > 0 {
            Some(if fallback_ix < row_count { fallback_ix } else { (row_count - 1) as usize })
        } else {
            None
        },
    }
}

/// The scroll that puts a row back at a screen position.
pub open spec fn spec_back_to<Y>(item_count: usize, row_ix: usize, viewport_y: Y) -> ViewportScroll<Y> {
    ViewportScroll {
        item_count: if item_count >= row_ix + 1 { item_count } else if row_ix < usize::MAX { (row_ix + 1) as usize } else { usize::MAX },
        command: ViewportCommand::ScrollRowToViewportY { row_ix, viewport_y },
    }
}

/// `scroll` puts the anchor's row back: the row `nearest_row` reported for its key, else its
/// old index clamped to the rows.
pub open spec fn spec_positioned<K, Y, N: Fn(K) -> Option<usize>>(
    a: RowViewportAnchor<K, Y>,
    row_count: usize,
    item_count: usize,
    nearest_row: N,
    found: Option<usize>,
    scroll: Option<ViewportScroll<Y>>,
) -> bool {
    &&& nearest_row.ensures((a.key,), found)
    &&& scroll == match spec_landing(found, a.fallback_ix, row_count) {
        Some(r) => Some(spec_back_to(item_count, r, a.viewport_y)),
        None => None,
    }
}

/// `scroll` puts the anchor's row of the global results back: the row `nearest_row` reported
/// for its key, else the one `closest_match_row` reported for its old index, else its old
/// index clamped to the rows.
pub open spec fn spec_positioned_global<K, Y, N: Fn(K) -> Option<usize>, C: Fn(usize) -> Option<usize>>(
    a: RowViewportAnchor<K, Y>,
    row_count: usize,
    item_count: usize,
    nearest_row: N,
    closest_match_row: C,
    found: Option<usize>,
    closest: Option<usize>,
    scroll: Option<ViewportScroll<Y>>,
) -> bool {
    &&& nearest_row.ensures((a.key,), found)
    &&& found is None ==> closest_match_row.ensures((a.fallback_ix,), closest)
    &&& scroll == match spec_landing(if found is Some { found } else { closest }, a.fallback_ix, row_count) {
        Some(r) => Some(spec_back_to(item_count, r, a.viewport_y)),
        None => None,
    }
}

/// The anchors of one tab.
pub struct DocumentFontViewportAnchors<K, Y> {
    pub document_id: u64,
    pub log: Option<RowViewportAnchor<K, Y>>,
    pub results: Option<RowViewportAnchor<K, Y>>,
}

fn back_to<Y: Copy>(item_count: usize, row_ix: usize, viewport_y: Y) -> (scroll: ViewportScroll<Y>)
    ensures
        scroll == spec_back_to(item_count, row_ix, viewport_y),
{
    let needed = row_ix.saturating_add(1);
    ViewportScroll {
        item_count: if item_count >= needed { item_count } else { needed },
        command: ViewportCommand::ScrollRowToViewportY { row_ix, viewport_y },
    }
}

fn landing(found: Option<usize>, fallback_ix: usize, row_count: usize) -> (row_ix: Option<usize>)
    ensures
        row_ix == spec_landing(found, fallback_ix, row_count),
{
    match found {
        Some(r) => Some(r),
        None => if row_count > 0 {
            Some(if fallback_ix < row_count { fallback_ix } else { row_count - 1 })
        } else {
            None
        },
    }
}

impl<P: Copy> Workspace<P> {
    /// Whether a restored anchor goes back to the end: only where the viewport followed the end
    /// and the anchor is not the active row, which is an explicit navigation anchor whose screen
    /// position must survive.
    pub fn viewport_anchor_retains_end(viewport_is_at_end: bool, preferred_row: Option<usize>, anchor_row: usize) -> (at_end: bool)
        ensures
            at_end == (viewport_is_at_end && preferred_row != Some(anchor_row)),
    {
        viewport_is_at_end && preferred_row != Some(anchor_row)
    }

    /// The row anchor of a tab's log or results region: the captured viewport position (the
    /// active row where it is visible) and the key of that row, given by `row_key`.
    pub fn capture_local_row_viewport_anchor<B: Copy, O: Copy, L, K, Y: Copy, F: Fn(B) -> Option<Y>, G: Fn(usize) -> Option<K>>(
        viewport: &LogViewportState<B, O, L>,
        table: &TableReading<Y>,
        locate: F,
        row_key: G,
    ) -> (anchor: Option<RowViewportAnchor<K, Y>>)
        requires
            viewport.wf(),
            forall|b: B| locate.requires((b,)),
            forall|r: usize| row_key.requires((r,)),
        ensures
            spec_row_anchor(*viewport, *table, locate, row_key, anchor),
    {
        if table.row_count == 0 {
            return None;
        }
        let captured = viewport.capture_viewport_position(table.row_count, table.active_row, table.first, locate);
        let anchor = match captured {
            None => None,
            Some(p) => {
                let key = row_key(p.row_ix);
                match key {
                    Some(k) => {
                        assert(row_key.ensures((p.row_ix,), Some(k)));
                        Some(RowViewportAnchor { key: k, viewport_y: p.viewport_y, fallback_ix: p.row_ix })
                    },
                    None => None,
                }
            },
        };
        assert(spec_anchor_of(captured, row_key, anchor));
        anchor
    }

    /// The viewport anchor of a tab's region: its row anchor, going back to the end where
    /// `viewport_anchor_retains_end` says so.
    pub fn capture_local_viewport_anchor<B: Copy, O: Copy, L, K, Y: Copy, F: Fn(B) -> Option<Y>, G: Fn(usize) -> Option<K>>(
        viewport: &LogViewportState<B, O, L>,
        table: &TableReading<Y>,
        locate: F,
        row_key: G,
    ) -> (anchor: Option<ViewportAnchor<K, Y>>)
        requires
            viewport.wf(),
            forall|b: B| locate.requires((b,)),
            forall|r: usize| row_key.requires((r,)),
        ensures
            exists|row: Option<RowViewportAnchor<K, Y>>| #[trigger] spec_row_anchor(*viewport, *table, locate, row_key, row)
                && anchor == spec_viewport_anchor(row, table.at_end, table.active_row),
    {
        let row = Self::capture_local_row_viewport_anchor(viewport, table, locate, row_key);
        assert(spec_row_anchor(*viewport, *table, locate, row_key, row));
        match row {
            Some(a) => Some(ViewportAnchor {
                key: a.key,
                viewport_y: a.viewport_y,
                at_end: Self::viewport_anchor_retains_end(table.at_end, table.active_row, a.fallback_ix),
                fallback_ix: a.fallback_ix,
            }),
            None => None,
        }
    }

    /// The row anchor of the global results.
    pub fn capture_global_row_viewport_anchor<B: Copy, O: Copy, L, K, Y: Copy, F: Fn(B) -> Option<Y>, G: Fn(usize) -> Option<K>>(
        &self,
        viewport: &LogViewportState<B, O, L>,
        table: &TableReading<Y>,
        locate: F,
        row_key: G,
    ) -> (anchor: Option<RowViewportAnchor<K, Y>>)
        requires
            viewport.wf(),
            forall|b: B| locate.requires((b,)),
            forall|r: usize| row_key.requires((r,)),
        ensures
            spec_row_anchor(*viewport, *table, locate, row_key, anchor),
    {
        Self::capture_local_row_viewport_anchor(viewport, table, locate, row_key)
    }

    /// The viewport anchor of the global results.
    pub fn capture_global_viewport_anchor<B: Copy, O: Copy, L, K, Y: Copy, F: Fn(B) -> Option<Y>, G: Fn(usize) -> Option<K>>(
        &self,
        viewport: &LogViewportState<B, O, L>,
        table: &TableReading<Y>,
        locate: F,
        row_key: G,
    ) -> (anchor: Option<ViewportAnchor<K, Y>>)
        requires
            viewport.wf(),
            forall|b: B| locate.requires((b,)),
            forall|r: usize| row_key.requires((r,)),
        ensures
            exists|row: Option<RowViewportAnchor<K, Y>>| #[trigger] spec_row_anchor(*viewport, *table, locate, row_key, row)
                && anchor == spec_viewport_anchor(row, table.at_end, table.active_row),
    {
        Self::capture_local_viewport_anchor(viewport, table, locate, row_key)
    }

    /// Scrolls a tab's region so that the anchor's row is back at its screen position: the row
    /// with the anchor's key (`nearest_row`), else the anchor's index clamped to the rows.
    pub fn position_local_row_viewport_anchor<K: Copy, Y: Copy, N: Fn(K) -> Option<usize>>(
        anchor: Option<RowViewportAnchor<K, Y>>,
        row_count: usize,
        item_count: usize,
        nearest_row: N,
    ) -> (scroll: Option<ViewportScroll<Y>>)
        requires
            forall|k: K| nearest_row.requires((k,)),
        ensures
            match anchor {
                None => scroll is None,
                Some(a) => exists|found: Option<usize>| #[trigger] spec_positioned(a, row_count, item_count, nearest_row, found, scroll),
            },
    {
        let a = match anchor {
            Some(a) => a,
            None => return None,
        };
        let found = nearest_row(a.key);
        let scroll = match landing(found, a.fallback_ix, row_count) {
            Some(r) => Some(back_to(item_count, r, a.viewport_y)),
            None => None,
        };
        assert(spec_positioned(a, row_count, item_count, nearest_row, found, scroll));
        scroll
    }

    /// Restores a tab's region: to the end where the anchor followed the end, else to the
    /// anchor's row.
    pub fn restore_local_viewport_anchor<K: Copy, Y: Copy, N: Fn(K) -> Option<usize>>(
        anchor: Option<ViewportAnchor<K, Y>>,
        row_count: usize,
        item_count: usize,
        nearest_row: N,
    ) -> (scroll: Option<ViewportScroll<Y>>)
        requires
            forall|k: K| nearest_row.requires((k,)),
        ensures
            match anchor {
                None => scroll is None,
                Some(a) => if a.at_end {
                    scroll == Some(ViewportScroll { item_count, command: ViewportCommand::<Y>::ScrollToEnd })
                } else {
                    exists|found: Option<usize>| #[trigger] spec_positioned(
                        RowViewportAnchor { key: a.key, viewport_y: a.viewport_y, fallback_ix: a.fallback_ix },
                        row_count, item_count, nearest_row, found, scroll)
                },
            },
    {
        let a = match anchor {
            Some(a) => a,
            None => return None,
        };
        if a.at_end {
            return Some(ViewportScroll { item_count, command: ViewportCommand::ScrollToEnd });
        }
        Self::position_local_row_viewport_anchor(
            Some(RowViewportAnchor { key: a.key, viewport_y: a.viewport_y, fallback_ix: a.fallback_ix }),
            row_count,
            item_count,
            nearest_row,
        )
    }

    /// Scrolls the global results so that the anchor's row is back at its screen position: the
    /// row with the anchor's key, else the match row closest to its old index
    /// (`closest_match_row`), else the old index clamped to the rows.
    pub fn position_global_row_viewport_anchor<K: Copy, Y: Copy, N: Fn(K) -> Option<usize>, C: Fn(usize) -> Option<usize>>(
        &self,
        anchor: Option<RowViewportAnchor<K, Y>>,
        row_count: usize,
        item_count: usize,
        nearest_row: N,
        closest_match_row: C,
    ) -> (scroll: Option<ViewportScroll<Y>>)
        requires
            forall|k: K| nearest_row.requires((k,)),
            forall|r: usize| closest_match_row.requires((r,)),
        ensures
            match anchor {
                None => scroll is None,
                Some(a) => exists|found: Option<usize>, closest: Option<usize>|
                    #[trigger] spec_positioned_global(a, row_count, item_count, nearest_row, closest_match_row, found, closest, scroll),
            },
    {
        let a = match anchor {
            Some(a) => a,
            None => return None,
        };
        let found = nearest_row(a.key);
        let ghost mut closest_seen: Option<usize> = None;
        let candidate = match found {
            Some(r) => Some(r),
            None => {
                let closest = closest_match_row(a.fallback_ix);
                proof { closest_seen = closest; }
                closest
            },
        };
        let scroll = match landing(candidate, a.fallback_ix, row_count) {
            Some(r) => Some(back_to(item_count, r, a.viewport_y)),
            None => None,
        };
        assert(spec_positioned_global(a, row_count, item_count, nearest_row, closest_match_row, found, closest_seen, scroll));
        scroll
    }

    /// Restores the global results: to the end where the anchor followed the end, else to the
    /// anchor's row.
    pub fn restore_global_viewport_anchor<K: Copy, Y: Copy, N: Fn(K) -> Option<usize>, C: Fn(usize) -> Option<usize>>(
        &self,
        anchor: Option<ViewportAnchor<K, Y>>,
        row_count: usize,
        item_count: usize,
        nearest_row: N,
        closest_match_row: C,
    ) -> (scroll: Option<ViewportScroll<Y>>)
        requires
            forall|k: K| nearest_row.requires((k,)),
            forall|r: usize| closest_match_row.requires((r,)),
        ensures
            match anchor {
                None => scroll is None,
                Some(a) => if a.at_end {
                    scroll == Some(ViewportScroll { item_count, command: ViewportCommand::<Y>::ScrollToEnd })
                } else {
                    exists|found: Option<usize>, closest: Option<usize>| #[trigger] spec_positioned_global(
                        RowViewportAnchor { key: a.key, viewport_y: a.viewport_y, fallback_ix: a.fallback_ix },
                        row_count, item_count, nearest_row, closest_match_row, found, closest, scroll)
                },
            },
    {
        let a = match anchor {
            Some(a) => a,
            None => return None,
        };
        if a.at_end {
            return Some(ViewportScroll { item_count, command: ViewportCommand::ScrollToEnd });
        }
        self.position_global_row_viewport_anchor(
            Some(RowViewportAnchor { key: a.key, viewport_y: a.viewport_y, fallback_ix: a.fallback_ix }),
            row_count,
            item_count,
            nearest_row,
            closest_match_row,
        )
    }

    /// Pairs the anchors captured before a font change with the tabs still open: for each
    /// entry in order, the index of the tab with its document id; entries of closed tabs are
    /// left out.
    pub fn restore_font_viewport_anchors<K, Y>(&self, anchors: &Vec<DocumentFontViewportAnchors<K, Y>>) -> (targets: Vec<(usize, usize)>)
        ensures
            forall|t: int| 0 <= t < targets.len() ==> {
                let (entry, ix) = #[trigger] targets@[t];
                &&& entry < anchors.len()
                &&& spec_first_tab(self.documents@, anchors@[entry as int].document_id) == Some(ix as int)
            },
            forall|t: int, u: int| 0 <= t < u < targets.len() ==> targets@[t].0 < targets@[u].0,
            forall|e: int| 0 <= e < anchors.len() && #[trigger] spec_first_tab(self.documents@, anchors@[e].document_id) is Some
                ==> exists|t: int| 0 <= t < targets.len() && targets@[t].0 == e,
    {
        let mut targets: Vec<(usize, usize)> = Vec::new();
        let mut e: usize = 0;
        while e < anchors.len()
            invariant
                e <= anchors.len(),
                forall|t: int| 0 <= t < targets.len() ==> {
                    let (entry, ix) = #[trigger] targets@[t];
                    &&& entry < e
                    &&& spec_first_tab(self.documents@, anchors@[entry as int].document_id) == Some(ix as int)
                },
                forall|t: int, u: int| 0 <= t < u < targets.len() ==> targets@[t].0 < targets@[u].0,
                forall|f: int| 0 <= f < e && #[trigger] spec_first_tab(self.documents@, anchors@[f].document_id) is Some
                    ==> exists|t: int| 0 <= t < targets.len() && targets@[t].0 == f,
            decreases anchors.len() - e,
        {
            match tab_ix(&self.documents, anchors[e].document_id) {
                Some(ix) => {
                    let ghost before = targets@;
                    targets.push((e, ix));
                    proof {
                        assert(targets@[before.len() as int].0 == e);
                        assert forall|f: int| 0 <= f < e + 1 && #[trigger] spec_first_tab(self.documents@, anchors@[f].document_id) is Some
                            implies exists|t: int| 0 <= t < targets.len() && targets@[t].0 == f by {
                            if f < e {
                                let t = choose|t: int| 0 <= t < before.len() && before[t].0 == f;
                                assert(targets@[t] == before[t]);
                            }
                        }
                    }
                },
                None => {},
            }
            e = e + 1;
        }
        targets
    }
}

} // verus!
