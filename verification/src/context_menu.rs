//! The items of a log table's context menu: what it offers for a text selection, a row
//! selection or none, which color label it shows as checked, and the result exports.
use vstd::prelude::*;
use crate::global_targets::MarkLabel;
use crate::line_tasks::{trim, trim_result};

verus! {

/// An item of the log's context menu.
#[derive(Clone, Debug)]
pub enum LogMenuItem {
    /// Copies the selected text, or the selected rows where no text is selected.
    Copy,
    /// The color label submenu: "None", checked where a text is selected and no label applies
    /// to it; each label by id, checked where it is the one that applies; then "Clear all
    /// colors".
    ColorLabels { none_checked: bool, labels: Vec<(String, bool)> },
    /// Marks or unmarks the selected rows.
    Mark(MarkLabel),
    Separator,
    /// Opens the search results in a new tab.
    OpenInNewTab { disabled: bool },
    /// Merges the multi-file results into a new tab.
    MergeInNewTab { disabled: bool },
    /// Saves the search results to a file.
    SaveToFile { disabled: bool },
}

/// What the menu is opened on.
#[derive(Clone, Debug)]
pub struct LogMenuContext {
    /// The text selected in the clicked row.
    pub selected_text: String,
    /// The menu is opened on a results table: it offers the result exports.
    pub include_results: bool,
    /// The results are multi-file results, which can also be merged.
    pub include_global_merge: bool,
    /// The results cannot be exported now.
    pub export_disabled: bool,
}

/// The result exports the menu offers.
pub open spec fn spec_export_items(context: LogMenuContext) -> Seq<LogMenuItem> {
    let d = context.export_disabled;
    seq![LogMenuItem::OpenInNewTab { disabled: d }]
        + if context.include_global_merge { seq![LogMenuItem::MergeInNewTab { disabled: d }] } else { Seq::empty() }
        + seq![LogMenuItem::SaveToFile { disabled: d }]
}

/// The color labels, each with whether it is the current one.
pub open spec fn spec_label_checks(label_ids: Seq<String>, current: Option<String>) -> Seq<(Seq<char>, bool)> {
    label_ids.map_values(|id: String| (id@, current is Some && current->0@ == id@))
}

/// The views of the submenu's labels.
pub open spec fn spec_label_views(labels: Seq<(String, bool)>) -> Seq<(Seq<char>, bool)> {
    labels.map_values(|l: (String, bool)| (l.0@, l.1))
}

/// The selected text a menu acts on: none where it is blank.
pub fn context_selected_text(selected_text: String) -> (text: Option<String>)
    ensures
        match text {
            Some(t) => trim_result(selected_text@).len() > 0 && t@ == selected_text@,
            None => trim_result(selected_text@).len() == 0,
        },
{
    if trim(selected_text.as_str()).is_empty() {
        None
    } else {
        Some(selected_text)
    }
}

/// The labels of the color submenu, each with whether it is `current`.
fn label_checks(label_ids: &Vec<String>, current: &Option<String>) -> (labels: Vec<(String, bool)>)
    ensures
        spec_label_views(labels@) == spec_label_checks(label_ids@, *current),
{
    let mut labels: Vec<(String, bool)> = Vec::new();
    let mut i: usize = 0;
    while i < label_ids.len()
        invariant
            i <= label_ids.len(),
            spec_label_views(labels@) == spec_label_checks(label_ids@.take(i as int), *current),
        decreases label_ids.len() - i,
    {
        let checked = match current {
            Some(c) => *c == label_ids[i],
            None => false,
        };
        let ghost before = labels@;
        labels.push((label_ids[i].clone(), checked));
        proof {
            assert(label_ids@.take(i + 1) =~= label_ids@.take(i as int).push(label_ids@[i as int]));
            assert(spec_label_views(labels@) =~= spec_label_views(before).push((label_ids@[i as int]@, checked)));
            assert(spec_label_checks(label_ids@.take(i + 1), *current)
                =~= spec_label_checks(label_ids@.take(i as int), *current).push((label_ids@[i as int]@, checked)));
        }
        i = i + 1;
    }
    proof {
        assert(label_ids@.take(label_ids.len() as int) =~= label_ids@);
    }
    labels
}

/// Appends the result exports.
fn push_exports(items: &mut Vec<LogMenuItem>, context: &LogMenuContext)
    ensures
        final(items)@ == old(items)@ + spec_export_items(*context),
{
    let d = context.export_disabled;
    items.push(LogMenuItem::OpenInNewTab { disabled: d });
    if context.include_global_merge {
        items.push(LogMenuItem::MergeInNewTab { disabled: d });
    }
    items.push(LogMenuItem::SaveToFile { disabled: d });
    proof {
        if context.include_global_merge {
            assert(final(items)@ =~= old(items)@ + spec_export_items(*context));
        } else {
            assert(final(items)@ =~= old(items)@ + spec_export_items(*context));
        }
    }
}

/// The items of a log table's context menu. Without a selected text or selected rows it
/// offers only the result exports of a results table. Else it offers copying, the color
/// labels (`current_label_id` being the label that applies to the selected text), marking
/// with `mark_label`, and, on a results table, the result exports after a separator.
pub fn build_log_context_menu(
    context: LogMenuContext,
    has_row_selection: bool,
    mark_label: MarkLabel,
    label_ids: &Vec<String>,
    current_label_id: Option<String>,
) -> (items: Vec<LogMenuItem>)
    ensures
        ({
            let has_text = trim_result(context.selected_text@).len() > 0;
            if !has_text && !has_row_selection {
                items@ == if context.include_results { spec_export_items(context) } else { Seq::empty() }
            } else {
                &&& items.len() >= 3
                &&& items@[0] is Copy
                &&& items@[1] matches LogMenuItem::ColorLabels { none_checked, labels }
                    && none_checked == (has_text && current_label_id is None)
                    && spec_label_views(labels@) == spec_label_checks(label_ids@, current_label_id)
                &&& items@[2] == LogMenuItem::Mark(mark_label)
                &&& items@.skip(3) == if context.include_results {
                    seq![LogMenuItem::Separator] + spec_export_items(context)
                } else {
                    Seq::empty()
                }
            }
        }),
{
    let text = context_selected_text(context.selected_text.clone());
    let has_text = text.is_some();
    let mut items: Vec<LogMenuItem> = Vec::new();
    if !has_text && !has_row_selection {
        if context.include_results {
            push_exports(&mut items, &context);
            assert(items@ =~= spec_export_items(context));
        }
        return items;
    }
    let labels = label_checks(label_ids, &current_label_id);
    let none_checked = has_text && current_label_id.is_none();
    items.push(LogMenuItem::Copy);
    items.push(LogMenuItem::ColorLabels { none_checked, labels });
    items.push(LogMenuItem::Mark(mark_label));
    let ghost head = items@;
    if context.include_results {
        items.push(LogMenuItem::Separator);
        push_exports(&mut items, &context);
        assert(items@.skip(3) =~= seq![LogMenuItem::Separator] + spec_export_items(context));
    } else {
        assert(items@.skip(3) =~= Seq::<LogMenuItem>::empty());
    }
    items
}

} // verus!
