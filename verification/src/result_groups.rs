//! Grouping the selected rows of the multi-file results by the open tab they belong to.
use vstd::prelude::*;
use crate::global_targets::SelectedRows;

verus! {

/// `row` is a selected row of a file that resolved to `target`.
pub open spec fn spec_in_group(selected: Seq<SelectedRows>, targets: Seq<u64>, target: u64, row: usize) -> bool {
    exists|i: int| 0 <= i < selected.len() && targets[i] == target && #[trigger] selected[i].rows@.contains(row)
}

/// Some selected file resolved to `target`.
pub open spec fn spec_has_member(targets: Seq<u64>, target: u64) -> bool {
    exists|i: int| 0 <= i < targets.len() && targets[i] == target
}

/// Some group is that of `target`.
pub open spec fn spec_has_group(groups: Seq<SelectedRows>, target: u64) -> bool {
    exists|h: int| 0 <= h < groups.len() && groups[h].document_id == target
}

/// `groups` holds one entry per resolved target, with the rows of every selected file that
/// resolved to it.
pub open spec fn spec_grouped(selected: Seq<SelectedRows>, targets: Seq<u64>, groups: Seq<SelectedRows>) -> bool {
    &&& forall|a: int, b: int| 0 <= a < b < groups.len() ==> groups[a].document_id != groups[b].document_id
    &&& forall|g: int| 0 <= g < groups.len() ==> spec_has_member(targets, #[trigger] groups[g].document_id)
    &&& forall|i: int| 0 <= i < targets.len() ==> spec_has_group(groups, #[trigger] targets[i])
    &&& forall|g: int, r: usize| 0 <= g < groups.len() ==> ((#[trigger] groups[g].rows@.contains(r)) <==> spec_in_group(selected, targets, groups[g].document_id, r))
}

/// Adds the rows of `rows` missing from `into`.
fn merge_rows(into: &mut Vec<usize>, rows: &Vec<usize>)
    ensures
        forall|r: usize| #[trigger] final(into)@.contains(r) <==> old(into)@.contains(r) || rows@.contains(r),
{
    let mut k: usize = 0;
    while k < rows.len()
        invariant
            k <= rows.len(),
            forall|r: usize| #[trigger] into@.contains(r) <==> old(into)@.contains(r) || rows@.take(k as int).contains(r),
        decreases rows.len() - k,
    {
        let row = rows[k];
        let mut j: usize = 0;
        let mut present = false;
        while j < into.len()
            invariant
                j <= into.len(),
                present ==> into@.contains(row),
                !present ==> forall|m: int| 0 <= m < j ==> into@[m] != row,
            decreases into.len() - j,
        {
            if into[j] == row {
                present = true;
            }
            j = j + 1;
        }
        let ghost before = into@;
        if !present {
            into.push(row);
        }
        proof {
            assert(rows@.take(k + 1) =~= rows@.take(k as int).push(row));
            assert forall|r: usize| #[trigger] into@.contains(r) <==> before.contains(r) || r == row by {
                if !present {
                    if into@.contains(r) {
                        let m = choose|m: int| 0 <= m < into@.len() && into@[m] == r;
                        if m < before.len() {
                            assert(before[m] == r);
                        }
                    }
                    if before.contains(r) {
                        let m = choose|m: int| 0 <= m < before.len() && before[m] == r;
                        assert(into@[m] == r);
                    }
                    assert(into@[before.len() as int] == row);
                }
            }
            assert forall|r: usize| #[trigger] rows@.take(k + 1).contains(r) <==> rows@.take(k as int).contains(r) || r == row by {
                let t1 = rows@.take(k + 1);
                let t0 = rows@.take(k as int);
                if t1.contains(r) {
                    let m = choose|m: int| 0 <= m < t1.len() && t1[m] == r;
                    if m < k {
                        assert(t0[m] == r);
                    }
                }
                if t0.contains(r) {
                    let m = choose|m: int| 0 <= m < t0.len() && t0[m] == r;
                    assert(t1[m] == r);
                }
                assert(t1[k as int] == row);
            }
        }
        k = k + 1;
    }
    proof { assert(rows@.take(rows.len() as int) =~= rows@); }
}

/// Adding a selected file: a row is grouped under a target where it was before, or where the
/// file resolved to that target and has the row.
proof fn lemma_in_group_push(selected: Seq<SelectedRows>, targets: Seq<u64>, next: SelectedRows, target: u64, t: u64, r: usize)
    requires
        targets.len() == selected.len(),
    ensures
        spec_in_group(selected.push(next), targets.push(target), t, r)
            <==> spec_in_group(selected, targets, t, r) || (t == target && next.rows@.contains(r)),
{
    let s2 = selected.push(next);
    let t2 = targets.push(target);
    if spec_in_group(s2, t2, t, r) {
        let i = choose|i: int| 0 <= i < s2.len() && t2[i] == t && #[trigger] s2[i].rows@.contains(r);
        if i < selected.len() {
            assert(s2[i] == selected[i] && t2[i] == targets[i]);
        }
    }
    if spec_in_group(selected, targets, t, r) {
        let i = choose|i: int| 0 <= i < selected.len() && targets[i] == t && #[trigger] selected[i].rows@.contains(r);
        assert(s2[i] == selected[i] && t2[i] == targets[i]);
    }
    if t == target && next.rows@.contains(r) {
        assert(s2[selected.len() as int] == next);
    }
}

/// Groups the selected rows of the multi-file results by the open tab `resolve` gives each
/// file; all or nothing: `None` as soon as one file does not resolve.
pub fn group_result_rows_by_document<F: Fn(&SelectedRows) -> Option<u64>>(
    selected: &Vec<SelectedRows>,
    resolve: F,
) -> (groups: Option<Vec<SelectedRows>>)
    requires
        forall|s: &SelectedRows| resolve.requires((s,)),
    ensures
        match groups {
            Some(g) => exists|targets: Seq<u64>| targets.len() == selected.len()
                && (forall|i: int| 0 <= i < selected.len() ==> #[trigger] resolve.ensures((&selected@[i],), Some(targets[i])))
                && spec_grouped(selected@, targets, g@),
            None => exists|i: int| 0 <= i < selected.len() && #[trigger] resolve.ensures((&selected@[i],), None),
        },
{
    let mut groups: Vec<SelectedRows> = Vec::new();
    let ghost mut targets: Seq<u64> = Seq::empty();
    let mut i: usize = 0;
    while i < selected.len()
        invariant
            i <= selected.len(),
            forall|s: &SelectedRows| resolve.requires((s,)),
            targets.len() == i,
            forall|j: int| 0 <= j < i ==> #[trigger] resolve.ensures((&selected@[j],), Some(targets[j])),
            spec_grouped(selected@.take(i as int), targets, groups@),
        decreases selected.len() - i,
    {
        let target = match resolve(&selected[i]) {
            Some(t) => t,
            None => return None,
        };
        let ghost pre_groups = groups@;
        let ghost pre_selected = selected@.take(i as int);
        let ghost pre_targets = targets;
        let mut g: usize = 0;
        while g < groups.len() && groups[g].document_id != target
            invariant
                g <= groups.len(),
                forall|m: int| 0 <= m < g ==> groups@[m].document_id != target,
            decreases groups.len() - g,
        {
            g = g + 1;
        }
        proof { targets = targets.push(target); }
        let ghost next_selected = selected@.take(i + 1);
        assert(next_selected =~= pre_selected.push(selected@[i as int]));
        if g < groups.len() {
            merge_rows(&mut groups[g].rows, &selected[i].rows);
            proof {
                lemma_group_step(pre_selected, pre_targets, pre_groups, selected@[i as int], target, groups@, g as int);
            }
        } else {
            let mut rows: Vec<usize> = Vec::new();
            merge_rows(&mut rows, &selected[i].rows);
            groups.push(SelectedRows { document_id: target, rows });
            proof {
                lemma_group_new(pre_selected, pre_targets, pre_groups, selected@[i as int], target, groups@);
            }
        }
        i = i + 1;
    }
    proof { assert(selected@.take(selected.len() as int) =~= selected@); }
    Some(groups)
}

/// Adding a file whose target has a group merges its rows into that group.
proof fn lemma_group_step(
    selected: Seq<SelectedRows>,
    targets: Seq<u64>,
    groups: Seq<SelectedRows>,
    next: SelectedRows,
    target: u64,
    post: Seq<SelectedRows>,
    g: int,
)
    requires
        targets.len() == selected.len(),
        spec_grouped(selected, targets, groups),
        0 <= g < groups.len(),
        groups[g].document_id == target,
        post.len() == groups.len(),
        forall|m: int| 0 <= m < groups.len() && m != g ==> post[m] == groups[m],
        post[g].document_id == target,
        forall|r: usize| #[trigger] post[g].rows@.contains(r) <==> groups[g].rows@.contains(r) || next.rows@.contains(r),
    ensures
        spec_grouped(selected.push(next), targets.push(target), post),
{
    let t2 = targets.push(target);
    assert forall|m: int| 0 <= m < post.len() implies #[trigger] post[m].document_id == groups[m].document_id by {
        if m != g {
            assert(post[m] == groups[m]);
        }
    }
    assert forall|i: int| 0 <= i < t2.len() implies spec_has_group(post, #[trigger] t2[i]) by {
        if i < targets.len() {
            assert(t2[i] == targets[i]);
            assert(spec_has_group(groups, targets[i]));
            let h = choose|h: int| 0 <= h < groups.len() && groups[h].document_id == targets[i];
            assert(post[h].document_id == groups[h].document_id);
        } else {
            assert(post[g].document_id == t2[i]);
        }
    }
    assert forall|m: int| 0 <= m < post.len() implies spec_has_member(t2, #[trigger] post[m].document_id) by {
        assert(spec_has_member(targets, groups[m].document_id));
        let i = choose|i: int| 0 <= i < targets.len() && targets[i] == groups[m].document_id;
        assert(t2[i] == targets[i]);
    }
    assert forall|h: int, r: usize| 0 <= h < post.len() implies ((#[trigger] post[h].rows@.contains(r))
        <==> spec_in_group(selected.push(next), t2, post[h].document_id, r)) by {
        lemma_in_group_push(selected, targets, next, target, post[h].document_id, r);
        if h != g {
            assert(post[h] == groups[h]);
        }
    }
}

/// Adding a file with a new target starts a group with its rows.
proof fn lemma_group_new(
    selected: Seq<SelectedRows>,
    targets: Seq<u64>,
    groups: Seq<SelectedRows>,
    next: SelectedRows,
    target: u64,
    post: Seq<SelectedRows>,
)
    requires
        targets.len() == selected.len(),
        spec_grouped(selected, targets, groups),
        forall|m: int| 0 <= m < groups.len() ==> groups[m].document_id != target,
        post.len() == groups.len() + 1,
        forall|m: int| 0 <= m < groups.len() ==> post[m] == groups[m],
        post[groups.len() as int].document_id == target,
        forall|r: usize| #[trigger] post[groups.len() as int].rows@.contains(r) <==> next.rows@.contains(r),
    ensures
        spec_grouped(selected.push(next), targets.push(target), post),
{
    let n = groups.len() as int;
    let t2 = targets.push(target);
    assert forall|a: int, b: int| 0 <= a < b < post.len() implies post[a].document_id != post[b].document_id by {
        assert(post[a] == groups[a]);
        if b < n {
            assert(post[b] == groups[b]);
        }
    }
    assert forall|i: int| 0 <= i < t2.len() implies spec_has_group(post, #[trigger] t2[i]) by {
        if i < targets.len() {
            assert(t2[i] == targets[i]);
            assert(spec_has_group(groups, targets[i]));
            let h = choose|h: int| 0 <= h < groups.len() && groups[h].document_id == targets[i];
            assert(post[h] == groups[h]);
        } else {
            assert(post[n].document_id == t2[i]);
        }
    }
    assert forall|m: int| 0 <= m < post.len() implies spec_has_member(t2, #[trigger] post[m].document_id) by {
        if m < n {
            assert(post[m] == groups[m]);
            assert(spec_has_member(targets, groups[m].document_id));
            let i = choose|i: int| 0 <= i < targets.len() && targets[i] == groups[m].document_id;
            assert(t2[i] == targets[i]);
        } else {
            assert(t2[targets.len() as int] == target);
        }
    }
    assert forall|h: int, r: usize| 0 <= h < post.len() implies ((#[trigger] post[h].rows@.contains(r))
        <==> spec_in_group(selected.push(next), t2, post[h].document_id, r)) by {
        lemma_in_group_push(selected, targets, next, target, post[h].document_id, r);
        if h < n {
            assert(post[h] == groups[h]);
        } else if spec_in_group(selected, targets, target, r) {
            let i = choose|i: int| 0 <= i < selected.len() && targets[i] == target && #[trigger] selected[i].rows@.contains(r);
            assert(spec_has_group(groups, targets[i]));
        }
    }
}

} // verus!
