//! The scroll owner of a log region: word wrap, the rows painted in the last frame and their
//! geometry, the buffered scrollbar request and the wrapped layout key.
//!
//! The virtual list that stores the scroll position and the measured row heights is driven by
//! the caller: the decisions here return what it has to do. `B` is the geometry of a painted
//! row, `O` a scroll offset, `L` a wrapped layout key and `Y` a vertical position.
use vstd::prelude::*;

verus! {

/// A row and where its top lies relative to the viewport top.
#[derive(Clone, Copy, Debug, PartialEq)]
pub struct RowViewportPosition<Y> {
    pub row_ix: usize,
    pub viewport_y: Y,
}

/// A scroll the virtual list has to perform.
#[derive(Clone, Copy, Debug, PartialEq)]
pub enum ViewportCommand<Y> {
    /// Scroll to the last row.
    ScrollToEnd,
    /// Put the row's top at the given position relative to the viewport top.
    ScrollRowToViewportY { row_ix: usize, viewport_y: Y },
    /// Put the row at the top of the viewport.
    ScrollRowToTop(usize),
}

/// A scroll of the virtual list, with the row count it must know first.
#[derive(Clone, Copy, Debug, PartialEq)]
pub struct ViewportScroll<Y> {
    /// The item count to set before scrolling: never less than the list's count.
    pub item_count: usize,
    pub command: ViewportCommand<Y>,
}

/// The rows painted in the last frame ascend strictly.
pub open spec fn spec_rows_ascend<B>(rows: Seq<(usize, B)>) -> bool {
    forall|i: int, j: int| 0 <= i < j < rows.len() ==> rows[i].0 < rows[j].0
}

/// `rows` with the entry of `row_ix` set to `bounds`, keeping the rows ascending.
pub open spec fn spec_rows_insert<B>(rows: Seq<(usize, B)>, row_ix: usize, bounds: B) -> Seq<(usize, B)>
    decreases rows.len(),
{
    if rows.len() == 0 {
        seq![(row_ix, bounds)]
    } else if row_ix < rows[0].0 {
        seq![(row_ix, bounds)] + rows
    } else if row_ix == rows[0].0 {
        seq![(row_ix, bounds)] + rows.drop_first()
    } else {
        seq![rows[0]] + spec_rows_insert(rows.drop_first(), row_ix, bounds)
    }
}

/// The first painted row whose geometry `contains` reports as hit: every row before it was
/// reported as missed.
pub open spec fn spec_hit_row<B, F: Fn(B) -> bool>(rows: Seq<(usize, B)>, contains: F, hit: Option<usize>) -> bool {
    match hit {
        Some(row_ix) => exists|k: int| 0 <= k < rows.len() && rows[k].0 == row_ix
            && contains.ensures((rows[k].1,), true)
            && forall|j: int| 0 <= j < k ==> #[trigger] contains.ensures((rows[j].1,), false),
        None => forall|j: int| 0 <= j < rows.len() ==> #[trigger] contains.ensures((rows[j].1,), false),
    }
}

/// The position a capture reports: the preferred row where its painted geometry is visible
/// (as `locate` reports it), else the first row of the viewport clamped to the row count.
pub open spec fn spec_captured<B, Y, F: Fn(B) -> Option<Y>>(
    rows: Seq<(usize, B)>,
    row_count: usize,
    preferred_row: Option<usize>,
    first: RowViewportPosition<Y>,
    locate: F,
    captured: Option<RowViewportPosition<Y>>,
) -> bool {
    let fallback = RowViewportPosition {
        row_ix: if first.row_ix < row_count { first.row_ix } else { (row_count - 1) as usize },
        viewport_y: first.viewport_y,
    };
    if row_count == 0 {
        captured is None
    } else {
        match preferred_row {
            Some(row_ix) => match spec_bounds_of(rows, row_ix) {
                Some(b) => ({
                    ||| exists|y: Y| locate.ensures((b,), Some(y))
                        && captured == Some(RowViewportPosition { row_ix, viewport_y: y })
                    ||| locate.ensures((b,), None) && captured == Some(fallback)
                }),
                None => captured == Some(fallback),
            },
            None => captured == Some(fallback),
        }
    }
}

/// The geometry painted for `row_ix` in the last frame.
pub open spec fn spec_bounds_of<B>(rows: Seq<(usize, B)>, row_ix: usize) -> Option<B>
    decreases rows.len(),
{
    if rows.len() == 0 {
        None
    } else if rows[0].0 == row_ix {
        Some(rows[0].1)
    } else {
        spec_bounds_of(rows.drop_first(), row_ix)
    }
}

/// The geometry of a row is that of the entry with its index.
proof fn lemma_bounds_of<B>(rows: Seq<(usize, B)>, k: int)
    requires
        spec_rows_ascend(rows),
        0 <= k < rows.len(),
    ensures
        spec_bounds_of(rows, rows[k].0) == Some(rows[k].1),
    decreases k,
{
    if k > 0 {
        let rest = rows.drop_first();
        assert(rest[k - 1] == rows[k]);
        lemma_bounds_of(rest, k - 1);
    }
}

/// A row without an entry has no geometry.
proof fn lemma_bounds_of_absent<B>(rows: Seq<(usize, B)>, row_ix: usize)
    requires
        forall|j: int| 0 <= j < rows.len() ==> rows[j].0 != row_ix,
    ensures
        spec_bounds_of(rows, row_ix) is None,
    decreases rows.len(),
{
    if rows.len() > 0 {
        lemma_bounds_of_absent(rows.drop_first(), row_ix);
    }
}

/// Inserting into ascending rows: the entry goes where the rows before it are smaller, and
/// replaces the entry of the same row.
proof fn lemma_rows_insert_at<B>(rows: Seq<(usize, B)>, row_ix: usize, bounds: B, i: int)
    requires
        0 <= i <= rows.len(),
        forall|j: int| 0 <= j < i ==> rows[j].0 < row_ix,
        i == rows.len() || rows[i].0 >= row_ix,
    ensures
        spec_rows_insert(rows, row_ix, bounds) == if i < rows.len() && rows[i].0 == row_ix {
            rows.update(i, (row_ix, bounds))
        } else {
            rows.insert(i, (row_ix, bounds))
        },
    decreases i,
{
    if i == 0 {
        if rows.len() == 0 {
            assert(rows.insert(0, (row_ix, bounds)) =~= seq![(row_ix, bounds)]);
        } else if row_ix < rows[0].0 {
            assert(rows.insert(0, (row_ix, bounds)) =~= seq![(row_ix, bounds)] + rows);
        } else {
            assert(rows.update(0, (row_ix, bounds)) =~= seq![(row_ix, bounds)] + rows.drop_first());
        }
    } else {
        let rest = rows.drop_first();
        lemma_rows_insert_at(rest, row_ix, bounds, i - 1);
        if i < rows.len() && rows[i].0 == row_ix {
            assert(seq![rows[0]] + rest.update(i - 1, (row_ix, bounds)) =~= rows.update(i, (row_ix, bounds)));
        } else {
            assert(seq![rows[0]] + rest.insert(i - 1, (row_ix, bounds)) =~= rows.insert(i, (row_ix, bounds)));
        }
    }
}

/// How many leading rows lie before `row_ix`.
spec fn spec_smaller_prefix<B>(rows: Seq<(usize, B)>, row_ix: usize) -> nat
    decreases rows.len(),
{
    if rows.len() == 0 || rows[0].0 >= row_ix {
        0
    } else {
        1 + spec_smaller_prefix(rows.drop_first(), row_ix)
    }
}

proof fn lemma_smaller_prefix<B>(rows: Seq<(usize, B)>, row_ix: usize)
    ensures
        spec_smaller_prefix(rows, row_ix) <= rows.len(),
        forall|j: int| 0 <= j < spec_smaller_prefix(rows, row_ix) ==> rows[j].0 < row_ix,
        spec_smaller_prefix(rows, row_ix) == rows.len() || rows[spec_smaller_prefix(rows, row_ix) as int].0 >= row_ix,
    decreases rows.len(),
{
    if rows.len() > 0 && rows[0].0 < row_ix {
        let rest = rows.drop_first();
        lemma_smaller_prefix(rest, row_ix);
        assert forall|j: int| 0 <= j < spec_smaller_prefix(rows, row_ix) implies rows[j].0 < row_ix by {
            if j > 0 {
                assert(rows[j] == rest[j - 1]);
            }
        }
    }
}

/// Inserting into ascending rows keeps them ascending, holds the new entry and keeps the
/// geometry of every other row.
proof fn lemma_rows_insert<B>(rows: Seq<(usize, B)>, row_ix: usize, bounds: B)
    requires
        spec_rows_ascend(rows),
    ensures
        spec_rows_ascend(spec_rows_insert(rows, row_ix, bounds)),
        spec_bounds_of(spec_rows_insert(rows, row_ix, bounds), row_ix) == Some(bounds),
        forall|r: usize| r != row_ix ==> spec_bounds_of(spec_rows_insert(rows, row_ix, bounds), r) == #[trigger] spec_bounds_of(rows, r),
    decreases rows.len(),
{
    let out = spec_rows_insert(rows, row_ix, bounds);
    if rows.len() == 0 {
        assert(out.drop_first() =~= rows);
    } else if row_ix < rows[0].0 {
        assert(out.drop_first() =~= rows);
        assert(out[0] == (row_ix, bounds));
        assert forall|r: usize| r != row_ix implies spec_bounds_of(out, r) == #[trigger] spec_bounds_of(rows, r) by {
            assert(out.drop_first() == rows);
        }
        assert forall|i: int, j: int| 0 <= i < j < out.len() implies out[i].0 < out[j].0 by {
            assert(out[j] == rows[j - 1]);
            if i > 0 {
                assert(out[i] == rows[i - 1]);
            }
        }
    } else if row_ix == rows[0].0 {
        assert(out.drop_first() =~= rows.drop_first());
        assert(out[0] == (row_ix, bounds));
        assert forall|i: int, j: int| 0 <= i < j < out.len() implies out[i].0 < out[j].0 by {
            assert(out[j] == rows[j]);
            if i > 0 {
                assert(out[i] == rows[i]);
            }
        }
        assert forall|r: usize| r != row_ix implies spec_bounds_of(out, r) == #[trigger] spec_bounds_of(rows, r) by {
            assert(rows.drop_first() == out.drop_first());
        }
    } else {
        let rest = rows.drop_first();
        assert forall|i: int, j: int| 0 <= i < j < rest.len() implies rest[i].0 < rest[j].0 by {
            assert(rest[i] == rows[i + 1] && rest[j] == rows[j + 1]);
        }
        lemma_rows_insert(rest, row_ix, bounds);
        let tail = spec_rows_insert(rest, row_ix, bounds);
        assert(out.drop_first() =~= tail);
        assert(out[0] == rows[0]);
        let k = spec_smaller_prefix(rest, row_ix) as int;
        lemma_smaller_prefix(rest, row_ix);
        lemma_rows_insert_at(rest, row_ix, bounds, k);
        assert forall|j: int| 0 <= j < tail.len() implies rows[0].0 < #[trigger] tail[j].0 by {
            if k < rest.len() && rest[k].0 == row_ix {
                if j != k {
                    assert(tail[j] == rest[j]);
                    assert(rest[j] == rows[j + 1]);
                }
            } else if j < k {
                assert(tail[j] == rest[j]);
                assert(rest[j] == rows[j + 1]);
            } else if j > k {
                assert(tail[j] == rest[j - 1]);
                assert(rest[j - 1] == rows[j]);
            }
        }
        assert forall|i: int, j: int| 0 <= i < j < out.len() implies out[i].0 < out[j].0 by {
            assert(out[j] == tail[j - 1]);
            if i > 0 {
                assert(out[i] == tail[i - 1]);
            }
        }
        assert forall|r: usize| r != row_ix implies spec_bounds_of(out, r) == #[trigger] spec_bounds_of(rows, r) by {
            assert(out.drop_first() == tail);
            assert(spec_bounds_of(tail, r) == spec_bounds_of(rest, r));
        }
    }
}

/// The scroll state of one log region.
pub struct LogViewportState<B, O, L> {
    word_wrap: bool,
    /// A scrollbar drag target that waits for its rows to be prepared.
    pending_scrollbar_offset: Option<O>,
    /// The key of the wrapped layout the measured heights belong to.
    layout_key: Option<L>,
    /// The rows painted in the last frame, ascending, with their geometry.
    row_bounds: Vec<(usize, B)>,
}

impl<B: Copy, O: Copy, L> LogViewportState<B, O, L> {
    /// The painted rows ascend.
    pub open spec fn wf(self) -> bool {
        spec_rows_ascend(self.spec_rows())
    }

    pub closed spec fn spec_word_wrap(self) -> bool {
        self.word_wrap
    }

    pub closed spec fn spec_pending(self) -> Option<O> {
        self.pending_scrollbar_offset
    }

    pub closed spec fn spec_layout_key(self) -> Option<L> {
        self.layout_key
    }

    /// The rows painted in the last frame with their geometry.
    pub closed spec fn spec_rows(self) -> Seq<(usize, B)> {
        self.row_bounds@
    }

    /// A viewport that has painted no row yet.
    pub fn new(word_wrap: bool) -> (state: Self)
        ensures
            state.wf(),
            state.spec_word_wrap() == word_wrap,
            state.spec_pending() is None,
            state.spec_layout_key() is None,
            state.spec_rows() == Seq::<(usize, B)>::empty(),
    {
        LogViewportState { word_wrap, pending_scrollbar_offset: None, layout_key: None, row_bounds: Vec::new() }
    }

    /// Whether rows wrap.
    pub fn is_wrapped(&self) -> (wrapped: bool)
        ensures
            wrapped == self.spec_word_wrap(),
    {
        self.word_wrap
    }

    /// The key of the current wrapped layout.
    pub fn layout_key(&self) -> (key: &Option<L>)
        ensures
            *key == self.spec_layout_key(),
    {
        &self.layout_key
    }

    /// Turns word wrap on or off. The scroll position stays with the same row; the buffered
    /// scrollbar request, the painted geometry and (by the caller) the measured heights and
    /// text selections are dropped. Returns whether the horizontal offset must go back to 0,
    /// which it must when rows start to wrap.
    pub fn set_word_wrap(&mut self, enabled: bool) -> (reset_horizontal: bool)
        ensures
            final(self).wf(),
            final(self).spec_word_wrap() == enabled,
            final(self).spec_pending() is None,
            final(self).spec_rows() == Seq::<(usize, B)>::empty(),
            final(self).spec_layout_key() == old(self).spec_layout_key(),
            reset_horizontal == enabled,
    {
        self.word_wrap = enabled;
        self.pending_scrollbar_offset = None;
        self.row_bounds = Vec::new();
        enabled
    }

    /// Buffers a scrollbar drag target until its rows are prepared; a later request replaces
    /// an earlier one.
    pub fn request_scrollbar_offset(&mut self, offset: O)
        ensures
            final(self).spec_pending() == Some(offset),
            final(self).spec_word_wrap() == old(self).spec_word_wrap(),
            final(self).spec_rows() == old(self).spec_rows(),
            final(self).spec_layout_key() == old(self).spec_layout_key(),
    {
        self.pending_scrollbar_offset = Some(offset);
    }

    /// Hands out the buffered scrollbar target, once.
    pub fn take_pending_scrollbar_offset(&mut self) -> (offset: Option<O>)
        ensures
            offset == old(self).spec_pending(),
            final(self).spec_pending() is None,
            final(self).spec_word_wrap() == old(self).spec_word_wrap(),
            final(self).spec_rows() == old(self).spec_rows(),
            final(self).spec_layout_key() == old(self).spec_layout_key(),
    {
        let offset = self.pending_scrollbar_offset;
        self.pending_scrollbar_offset = None;
        offset
    }

    /// Forgets the geometry of the previous frame: only rows painted in this frame take part in
    /// hit testing and anchoring.
    pub fn begin_row_layout(&mut self)
        ensures
            final(self).wf(),
            final(self).spec_rows() == Seq::<(usize, B)>::empty(),
            final(self).spec_word_wrap() == old(self).spec_word_wrap(),
            final(self).spec_pending() == old(self).spec_pending(),
            final(self).spec_layout_key() == old(self).spec_layout_key(),
    {
        self.row_bounds = Vec::new();
    }

    /// Records the geometry of a row painted in this frame, replacing an earlier entry of the
    /// same row.
    pub fn record_row_bounds(&mut self, row_ix: usize, bounds: B)
        requires
            old(self).wf(),
        ensures
            final(self).wf(),
            final(self).spec_rows() == spec_rows_insert(old(self).spec_rows(), row_ix, bounds),
            spec_bounds_of(final(self).spec_rows(), row_ix) == Some(bounds),
            forall|r: usize| r != row_ix ==> spec_bounds_of(final(self).spec_rows(), r) == #[trigger] spec_bounds_of(old(self).spec_rows(), r),
            final(self).spec_word_wrap() == old(self).spec_word_wrap(),
            final(self).spec_pending() == old(self).spec_pending(),
            final(self).spec_layout_key() == old(self).spec_layout_key(),
    {
        proof { lemma_rows_insert(self.row_bounds@, row_ix, bounds); }
        let ghost rows = self.row_bounds@;
        let mut i: usize = 0;
        while i < self.row_bounds.len() && self.row_bounds[i].0 < row_ix
            invariant
                i <= self.row_bounds.len(),
                self.row_bounds@ == rows,
                forall|j: int| 0 <= j < i ==> rows[j].0 < row_ix,
            decreases self.row_bounds.len() - i,
        {
            i = i + 1;
        }
        proof { lemma_rows_insert_at(rows, row_ix, bounds, i as int); }
        if i < self.row_bounds.len() && self.row_bounds[i].0 == row_ix {
            self.row_bounds.set(i, (row_ix, bounds));
        } else {
            self.row_bounds.insert(i, (row_ix, bounds));
        }
    }

    /// The first painted row whose geometry `contains` reports as hit by the pointer.
    pub fn row_at_position<F: Fn(B) -> bool>(&self, contains: F) -> (hit: Option<usize>)
        requires
            forall|b: B| contains.requires((b,)),
        ensures
            spec_hit_row(self.spec_rows(), contains, hit),
            self.spec_rows().len() == 0 ==> hit is None,
    {
        let mut i: usize = 0;
        while i < self.row_bounds.len()
            invariant
                i <= self.row_bounds.len(),
                forall|b: B| contains.requires((b,)),
                forall|j: int| 0 <= j < i ==> #[trigger] contains.ensures((self.row_bounds@[j].1,), false),
            decreases self.row_bounds.len() - i,
        {
            let (row_ix, bounds) = self.row_bounds[i];
            if contains(bounds) {
                return Some(row_ix);
            }
            i = i + 1;
        }
        None
    }

    /// The last painted row (`after`) or the first one.
    pub fn visible_row_edge(&self, after: bool) -> (edge: Option<usize>)
        requires
            self.wf(),
        ensures
            self.spec_rows().len() == 0 <==> edge is None,
            match edge {
                Some(r) => if after {
                    r == self.spec_rows().last().0 && forall|j: int| 0 <= j < self.spec_rows().len() ==> #[trigger] self.spec_rows()[j].0 <= r
                } else {
                    r == self.spec_rows()[0].0 && forall|j: int| 0 <= j < self.spec_rows().len() ==> #[trigger] self.spec_rows()[j].0 >= r
                },
                None => true,
            },
    {
        let n = self.row_bounds.len();
        if n == 0 {
            None
        } else if after {
            Some(self.row_bounds[n - 1].0)
        } else {
            Some(self.row_bounds[0].0)
        }
    }

    /// Where the viewport stands: the preferred row where it was painted and `locate` finds its
    /// geometry visible (giving its position), else the viewport's first row, clamped to the
    /// row count. Nothing without rows.
    #[verifier::loop_isolation(false)]
    pub fn capture_viewport_position<Y: Copy, F: Fn(B) -> Option<Y>>(
        &self,
        row_count: usize,
        preferred_row: Option<usize>,
        first: RowViewportPosition<Y>,
        locate: F,
    ) -> (captured: Option<RowViewportPosition<Y>>)
        requires
            self.wf(),
            forall|b: B| locate.requires((b,)),
        ensures
            spec_captured(self.spec_rows(), row_count, preferred_row, first, locate, captured),
    {
        if row_count == 0 {
            return None;
        }
        let fallback = RowViewportPosition {
            row_ix: if first.row_ix < row_count { first.row_ix } else { row_count - 1 },
            viewport_y: first.viewport_y,
        };
        let row_ix = match preferred_row {
            Some(row_ix) => row_ix,
            None => return Some(fallback),
        };
        let mut i: usize = 0;
        while i < self.row_bounds.len()
            invariant
                i <= self.row_bounds.len(),
                spec_rows_ascend(self.row_bounds@),
                forall|j: int| 0 <= j < i ==> self.row_bounds@[j].0 != row_ix,
            decreases self.row_bounds.len() - i,
        {
            if self.row_bounds[i].0 == row_ix {
                proof { lemma_bounds_of(self.row_bounds@, i as int); }
                let located = locate(self.row_bounds[i].1);
                return match located {
                    Some(viewport_y) => {
                        assert(locate.ensures((self.row_bounds@[i as int].1,), Some(viewport_y)));
                        Some(RowViewportPosition { row_ix, viewport_y })
                    },
                    None => Some(fallback),
                };
            }
            i = i + 1;
        }
        proof { lemma_bounds_of_absent(self.row_bounds@, row_ix); }
        Some(fallback)
    }

    /// The first visible row, clamped to the row count; 0 without rows.
    pub fn first_visible(&self, row_count: usize, first_row: usize) -> (row_ix: usize)
        ensures
            row_count == 0 ==> row_ix == 0,
            row_count > 0 ==> row_ix == if first_row < row_count { first_row } else { (row_count - 1) as usize },
    {
        if row_count == 0 {
            0
        } else if first_row < row_count {
            first_row
        } else {
            row_count - 1
        }
    }

    /// Puts a row back at a position relative to the viewport top, or at the end when the
    /// viewport was at the end. The list must count at least the row.
    pub fn restore_viewport<Y: Copy>(&self, item_count: usize, row_ix: usize, viewport_y: Y, at_end: bool) -> (scroll: ViewportScroll<Y>)
        ensures
            scroll.item_count == if item_count >= row_ix + 1 { item_count as int } else { (row_ix + 1) as int }
                || (row_ix == usize::MAX && scroll.item_count == usize::MAX),
            scroll.item_count >= item_count,
            scroll.command == if at_end { ViewportCommand::ScrollToEnd } else { ViewportCommand::ScrollRowToViewportY { row_ix, viewport_y } },
    {
        let needed = row_ix.saturating_add(1);
        let item_count = if item_count >= needed { item_count } else { needed };
        let command = if at_end { ViewportCommand::ScrollToEnd } else { ViewportCommand::ScrollRowToViewportY { row_ix, viewport_y } };
        ViewportScroll { item_count, command }
    }

    /// Puts a row at the top of the viewport. The list must count at least the row.
    pub fn place_at_top<Y: Copy>(&self, item_count: usize, row_ix: usize) -> (scroll: ViewportScroll<Y>)
        ensures
            scroll.item_count == if item_count >= row_ix + 1 { item_count as int } else { (row_ix + 1) as int }
                || (row_ix == usize::MAX && scroll.item_count == usize::MAX),
            scroll.item_count >= item_count,
            scroll.command == ViewportCommand::<Y>::ScrollRowToTop(row_ix),
    {
        let needed = row_ix.saturating_add(1);
        let item_count = if item_count >= needed { item_count } else { needed };
        ViewportScroll { item_count, command: ViewportCommand::ScrollRowToTop(row_ix) }
    }

    /// The rows a page moves by: the fixed-height count, or the count the viewport's measured
    /// height holds where that is larger, and at least one.
    pub fn page_size(&self, fixed_visible_rows: usize, measured_rows: usize) -> (rows: usize)
        ensures
            rows >= 1,
            rows >= fixed_visible_rows,
            rows >= measured_rows,
            rows == fixed_visible_rows || rows == measured_rows || rows == 1,
    {
        let rows = if fixed_visible_rows >= measured_rows { fixed_visible_rows } else { measured_rows };
        if rows >= 1 { rows } else { 1 }
    }

    /// Drops the painted geometry; the caller drops the measured heights and text selections.
    pub fn invalidate_wrapped(&mut self)
        ensures
            final(self).wf(),
            final(self).spec_rows() == Seq::<(usize, B)>::empty(),
            final(self).spec_word_wrap() == old(self).spec_word_wrap(),
            final(self).spec_pending() == old(self).spec_pending(),
            final(self).spec_layout_key() == old(self).spec_layout_key(),
    {
        self.row_bounds = Vec::new();
    }

    /// The position of the wrapped viewport over all its `item_count` rows.
    pub fn capture_wrapped_viewport_position<Y: Copy, F: Fn(B) -> Option<Y>>(
        &self,
        item_count: usize,
        preferred_row: Option<usize>,
        first: RowViewportPosition<Y>,
        locate: F,
    ) -> (captured: Option<RowViewportPosition<Y>>)
        requires
            self.wf(),
            forall|b: B| locate.requires((b,)),
        ensures
            spec_captured(self.spec_rows(), item_count, preferred_row, first, locate, captured),
    {
        self.capture_viewport_position(item_count, preferred_row, first, locate)
    }

    /// The row whose screen position must survive a re-measure: the captured position, unless
    /// the viewport sits at the end and the position is not that of the preferred row.
    pub fn ensure_wrapped_measurement_anchor<Y: Copy, F: Fn(B) -> Option<Y>>(
        &self,
        item_count: usize,
        preferred_row: Option<usize>,
        first: RowViewportPosition<Y>,
        at_end: bool,
        locate: F,
    ) -> (anchor: Option<RowViewportPosition<Y>>)
        requires
            self.wf(),
            forall|b: B| locate.requires((b,)),
        ensures
            exists|captured: Option<RowViewportPosition<Y>>| spec_captured(self.spec_rows(), item_count, preferred_row, first, locate, captured)
                && anchor == match captured {
                    Some(p) => if !at_end || preferred_row == Some(p.row_ix) { Some(p) } else { None },
                    None => None,
                },
    {
        let captured = self.capture_wrapped_viewport_position(item_count, preferred_row, first, locate);
        match captured {
            Some(p) => if !at_end || preferred_row == Some(p.row_ix) { Some(p) } else { None },
            None => None,
        }
    }

    /// Adopts a new wrapped layout. Nothing changes for a layout without width or one
    /// equivalent to the current one (`same_layout`, which compares with `layout_key`).
    /// Otherwise the row to keep in place is captured first, the key is replaced and the painted
    /// geometry is dropped; the result tells the caller to drop the measured heights and to keep
    /// the returned row in place.
    pub fn invalidate_wrapped_layout_preserving_position<Y: Copy, F: Fn(B) -> Option<Y>>(
        &mut self,
        key: L,
        has_width: bool,
        same_layout: bool,
        item_count: usize,
        preferred_row: Option<usize>,
        first: RowViewportPosition<Y>,
        at_end: bool,
        locate: F,
    ) -> (outcome: Option<Option<RowViewportPosition<Y>>>)
        requires
            old(self).wf(),
            forall|b: B| locate.requires((b,)),
        ensures
            final(self).wf(),
            final(self).spec_word_wrap() == old(self).spec_word_wrap(),
            final(self).spec_pending() == old(self).spec_pending(),
            if !has_width || (old(self).spec_layout_key() is Some && same_layout) {
                outcome is None && final(self).spec_rows() == old(self).spec_rows()
                    && final(self).spec_layout_key() == old(self).spec_layout_key()
            } else {
                &&& final(self).spec_layout_key() == Some(key)
                &&& final(self).spec_rows() == Seq::<(usize, B)>::empty()
                &&& exists|captured: Option<RowViewportPosition<Y>>|
                    spec_captured(old(self).spec_rows(), item_count, preferred_row, first, locate, captured)
                    && outcome == Some(match captured {
                        Some(p) => if !at_end || preferred_row == Some(p.row_ix) { Some(p) } else { None },
                        None => None,
                    })
            },
    {
        if !has_width || (self.layout_key.is_some() && same_layout) {
            return None;
        }
        let anchor = self.ensure_wrapped_measurement_anchor(item_count, preferred_row, first, at_end, locate);
        self.layout_key = Some(key);
        self.row_bounds = Vec::new();
        Some(anchor)
    }
}

} // verus!
