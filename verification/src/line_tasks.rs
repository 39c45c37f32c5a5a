//! Background tasks that read source lines of documents: copying selected rows to the
//! clipboard, collecting color keywords, and resolving color rules in a batch. Each stops as
//! soon as it is cancelled, and fails where a document's source changed under it.
use vstd::prelude::*;
use crate::global_targets::{ColorKeywordSelection, ColorKeywordTarget};
use crate::workspace::KeywordColorRule;

verus! {

/// The outcome of a task that reads document lines.
#[derive(Clone, Debug)]
pub enum DocumentLineTask<T> {
    Completed(T),
    /// The task was cancelled before it finished.
    Cancelled,
    /// A document's source no longer holds the lines it was loaded with.
    SourceUnavailable,
}

impl<T> DocumentLineTask<T> {
    /// Whether the task was cancelled.
    pub fn is_cancelled(&self) -> (cancelled: bool)
        ensures
            cancelled == self is Cancelled,
    {
        match self {
            DocumentLineTask::Cancelled => true,
            _ => false,
        }
    }
}

/// Whether `c` is whitespace: the Unicode `White_Space` property, which `char::is_whitespace`
/// and `str::trim` go by.
pub open spec fn spec_white_space(c: char) -> bool {
    let u = c as int;
    ||| 0x9 <= u <= 0xD
    ||| u == 0x20 || u == 0x85 || u == 0xA0 || u == 0x1680
    ||| 0x2000 <= u <= 0x200A
    ||| u == 0x2028 || u == 0x2029 || u == 0x202F || u == 0x205F || u == 0x3000
}

/// `text` without its leading whitespace.
pub open spec fn spec_trim_start(text: Seq<char>) -> Seq<char>
    decreases text.len(),
{
    if text.len() > 0 && spec_white_space(text[0]) { spec_trim_start(text.drop_first()) } else { text }
}

/// `text` without its trailing whitespace.
pub open spec fn spec_trim_end(text: Seq<char>) -> Seq<char>
    decreases text.len(),
{
    if text.len() > 0 && spec_white_space(text.last()) { spec_trim_end(text.drop_last()) } else { text }
}

/// `text` without leading and trailing whitespace.
pub open spec fn trim_result(text: Seq<char>) -> Seq<char> {
    spec_trim_end(spec_trim_start(text))
}

/// Appends a character, by `String::push`, which appends the character at the end.
#[verifier::external_body]
pub(crate) fn append_char(s: &mut String, c: char)
    ensures
        final(s)@ == old(s)@.push(c),
{
    s.push(c);
}

/// The text without leading and trailing whitespace, by `str::trim`, which removes the leading
/// and trailing characters with the Unicode `White_Space` property.
#[verifier::external_body]
pub(crate) fn trim(text: &str) -> (trimmed: &str)
    ensures
        trimmed@ == trim_result(text@),
{
    text.trim()
}

/// The decimal digit of `d`.
pub open spec fn spec_digit(d: nat) -> char {
    if d == 0 { '0' } else if d == 1 { '1' } else if d == 2 { '2' } else if d == 3 { '3' } else if d == 4 { '4' }
    else if d == 5 { '5' } else if d == 6 { '6' } else if d == 7 { '7' } else if d == 8 { '8' } else { '9' }
}

/// The decimal digits of `n`, without leading zeros.
pub open spec fn spec_decimal(n: nat) -> Seq<char>
    decreases n,
{
    if n < 10 { seq![spec_digit(n)] } else { spec_decimal(n / 10).push(spec_digit(n % 10)) }
}

fn digit(d: usize) -> (c: char)
    requires
        d < 10,
    ensures
        c == spec_digit(d as nat),
{
    if d == 0 { '0' } else if d == 1 { '1' } else if d == 2 { '2' } else if d == 3 { '3' } else if d == 4 { '4' }
    else if d == 5 { '5' } else if d == 6 { '6' } else if d == 7 { '7' } else if d == 8 { '8' } else { '9' }
}

/// Appends the decimal digits of `n`.
fn append_decimal(s: &mut String, n: usize)
    ensures
        final(s)@ == old(s)@ + spec_decimal(n as nat),
    decreases n,
{
    if n >= 10 {
        append_decimal(s, n / 10);
    }
    append_char(s, digit(n % 10));
    proof {
        if n >= 10 {
            assert(old(s)@ + spec_decimal(n as nat) =~= (old(s)@ + spec_decimal((n / 10) as nat)).push(spec_digit((n % 10) as nat)));
        } else {
            assert(old(s)@ + spec_decimal(n as nat) =~= old(s)@.push(spec_digit((n % 10) as nat)));
        }
    }
}

/// Source rows copied to the clipboard.
#[derive(Clone, Debug)]
pub struct ClipboardLines {
    pub text: String,
    pub count: usize,
    pub first_source_row: Option<usize>,
}

/// `read_line` gave `line` for a row.
pub open spec fn spec_read<R: Fn(u64, usize) -> Option<String>>(read_line: R, document_id: u64, row: usize, line: Seq<char>) -> bool {
    exists|s: String| s@ == line && #[trigger] read_line.ensures((document_id, row), Some(s))
}

/// `read_line` gave a line for a row that trims to `trimmed`.
pub open spec fn spec_read_trimmed<R: Fn(usize) -> Option<String>>(read_line: R, row: usize, trimmed: Seq<char>) -> bool {
    exists|s: String| trim_result(s@) == trimmed && #[trigger] read_line.ensures((row,), Some(s))
}

/// One copied line: with its 1-based line number and a tab where `line_numbers` is set.
pub open spec fn spec_copied_line(row: usize, line: Seq<char>, line_numbers: bool) -> Seq<char> {
    if line_numbers { spec_decimal(row as nat + 1) + seq!['\t'] + line } else { line }
}

/// The copied lines joined by line breaks.
pub open spec fn spec_clipboard_text(rows: Seq<(u64, usize)>, lines: Seq<Seq<char>>, line_numbers: bool) -> Seq<char>
    decreases rows.len(),
{
    if rows.len() == 0 {
        Seq::empty()
    } else if rows.len() == 1 {
        spec_copied_line(rows[0].1, lines[0], line_numbers)
    } else {
        spec_clipboard_text(rows.drop_last(), lines.drop_last(), line_numbers) + seq!['\n']
            + spec_copied_line(rows.last().1, lines[rows.len() - 1], line_numbers)
    }
}

/// Copies source rows, given by document id and row in copy order, to clipboard text: each
/// line read by `read_line` (`None` where the document's source changed), with its line
/// number where asked, joined by line breaks. `is_cancelled` is asked before each row.
pub fn collect_log_lines_for_clipboard<C: Fn() -> bool, R: Fn(u64, usize) -> Option<String>>(
    rows: &Vec<(u64, usize)>,
    line_numbers: bool,
    is_cancelled: C,
    read_line: R,
) -> (task: DocumentLineTask<ClipboardLines>)
    requires
        is_cancelled.requires(()),
        forall|d: u64, r: usize| read_line.requires((d, r)),
        forall|k: int| 0 <= k < rows.len() ==> #[trigger] rows@[k].1 < usize::MAX,
    ensures
        match task {
            DocumentLineTask::Completed(c) => exists|lines: Seq<Seq<char>>| {
                &&& lines.len() == rows.len()
                &&& forall|k: int| 0 <= k < rows.len() ==> #[trigger] spec_read(read_line, rows@[k].0, rows@[k].1, lines[k])
                &&& c.text@ == spec_clipboard_text(rows@, lines, line_numbers)
                &&& c.count == rows.len()
                &&& c.first_source_row == if rows.len() > 0 { Some(rows@[0].1) } else { None }
            },
            DocumentLineTask::Cancelled => is_cancelled.ensures((), true),
            DocumentLineTask::SourceUnavailable => exists|k: int| 0 <= k < rows.len()
                && #[trigger] read_line.ensures((rows@[k].0, rows@[k].1), None),
        },
{
    let mut text = String::new();
    let ghost mut lines: Seq<Seq<char>> = Seq::empty();
    let mut k: usize = 0;
    while k < rows.len()
        invariant
            k <= rows.len(),
            is_cancelled.requires(()),
            forall|d: u64, r: usize| read_line.requires((d, r)),
            forall|m: int| 0 <= m < rows.len() ==> #[trigger] rows@[m].1 < usize::MAX,
            lines.len() == k,
            forall|m: int| 0 <= m < k ==> #[trigger] spec_read(read_line, rows@[m].0, rows@[m].1, lines[m]),
            text@ == spec_clipboard_text(rows@.take(k as int), lines, line_numbers),
        decreases rows.len() - k,
    {
        if is_cancelled() {
            return DocumentLineTask::Cancelled;
        }
        let (document_id, row) = rows[k];
        let line = match read_line(document_id, row) {
            Some(line) => line,
            None => return DocumentLineTask::SourceUnavailable,
        };
        let ghost pre_text = text@;
        if k > 0 {
            append_char(&mut text, '\n');
        }
        if line_numbers {
            append_decimal(&mut text, row + 1);
            append_char(&mut text, '\t');
        }
        text.append(line.as_str());
        proof {
            let taken = rows@.take(k + 1);
            assert(taken.drop_last() =~= rows@.take(k as int));
            assert(taken.last() == rows@[k as int]);
            let next_lines = lines.push(line@);
            assert(next_lines.drop_last() =~= lines);
            assert(read_line.ensures((rows@[k as int].0, rows@[k as int].1), Some(line)));
            assert(spec_read(read_line, rows@[k as int].0, rows@[k as int].1, line@));
            assert forall|m: int| 0 <= m < k + 1 implies #[trigger] spec_read(read_line, rows@[m].0, rows@[m].1, next_lines[m]) by {
                if m < k {
                    assert(next_lines[m] == lines[m]);
                }
            }
            if k == 0 {
                assert(text@ =~= spec_copied_line(row, line@, line_numbers));
            } else {
                assert(text@ =~= pre_text + seq!['\n'] + spec_copied_line(row, line@, line_numbers));
            }
            lines = next_lines;
        }
        k = k + 1;
    }
    proof { assert(rows@.take(rows.len() as int) =~= rows@); }
    let first_source_row = if rows.len() > 0 { Some(rows[0].1) } else { None };
    DocumentLineTask::Completed(ClipboardLines { text, count: rows.len(), first_source_row })
}

/// The keywords of a color action, and the document they were read from.
#[derive(Clone, Debug)]
pub struct PreparedColorKeywords {
    pub document_id: u64,
    pub snapshot: u64,
    pub keywords: Vec<String>,
}

/// `keywords` are the distinct non-empty lines of `lines`, in first-occurrence order.
pub open spec fn spec_keywords_of(lines: Seq<Seq<char>>, keywords: Seq<Seq<char>>) -> bool {
    &&& forall|a: int, b: int| 0 <= a < b < keywords.len() ==> keywords[a] != keywords[b]
    &&& forall|a: int| 0 <= a < keywords.len() ==> (#[trigger] keywords[a]).len() > 0 && lines.contains(keywords[a])
    &&& forall|l: int| 0 <= l < lines.len() && (#[trigger] lines[l]).len() > 0 ==> keywords.contains(lines[l])
}

/// The views of a list of strings.
pub open spec fn spec_views(strings: Seq<String>) -> Seq<Seq<char>> {
    strings.map_values(|s: String| s@)
}

/// The distinct non-empty lines of `lines`, in first-occurrence order.
pub fn collect_keywords(lines: Vec<String>) -> (keywords: Vec<String>)
    ensures
        spec_keywords_of(spec_views(lines@), spec_views(keywords@)),
{
    let ghost views = spec_views(lines@);
    let mut keywords: Vec<String> = Vec::new();
    let mut i: usize = 0;
    while i < lines.len()
        invariant
            i <= lines.len(),
            views == spec_views(lines@),
            spec_keywords_of(views.take(i as int), spec_views(keywords@)),
        decreases lines.len() - i,
    {
        let line = &lines[i];
        let ghost kv = spec_views(keywords@);
        let mut present = line.as_str().is_empty();
        let mut j: usize = 0;
        while j < keywords.len() && !present
            invariant
                j <= keywords.len(),
                present ==> (line@.len() == 0 || spec_views(keywords@).contains(line@)),
                !present ==> line@.len() > 0 && forall|m: int| 0 <= m < j ==> spec_views(keywords@)[m] != line@,
            decreases keywords.len() - j,
        {
            if keywords[j] == *line {
                assert(spec_views(keywords@)[j as int] == line@);
                present = true;
            }
            j = j + 1;
        }
        let ghost taken = views.take(i + 1);
        assert(taken =~= views.take(i as int).push(line@));
        if !present {
            keywords.push(line.clone());
            proof {
                let kv2 = spec_views(keywords@);
                assert(kv2 =~= kv.push(line@));
                assert forall|l: int| 0 <= l < taken.len() && (#[trigger] taken[l]).len() > 0 implies kv2.contains(taken[l]) by {
                    if l < i {
                        assert(views.take(i as int)[l] == taken[l]);
                        let m = choose|m: int| 0 <= m < kv.len() && kv[m] == taken[l];
                        assert(kv2[m] == kv[m]);
                    } else {
                        assert(kv2[kv.len() as int] == line@);
                    }
                }
                assert forall|a: int| 0 <= a < kv2.len() implies (#[trigger] kv2[a]).len() > 0 && taken.contains(kv2[a]) by {
                    if a < kv.len() {
                        assert(kv2[a] == kv[a]);
                        let l = choose|l: int| 0 <= l < views.take(i as int).len() && views.take(i as int)[l] == kv[a];
                        assert(taken[l] == kv[a]);
                    } else {
                        assert(taken[i as int] == line@);
                    }
                }
            }
        } else {
            proof {
                assert forall|l: int| 0 <= l < taken.len() && (#[trigger] taken[l]).len() > 0 implies kv.contains(taken[l]) by {
                    if l < i {
                        assert(views.take(i as int)[l] == taken[l]);
                    }
                }
                assert forall|a: int| 0 <= a < kv.len() implies (#[trigger] kv[a]).len() > 0 && taken.contains(kv[a]) by {
                    let l = choose|l: int| 0 <= l < views.take(i as int).len() && views.take(i as int)[l] == kv[a];
                    assert(taken[l] == kv[a]);
                }
            }
        }
        i = i + 1;
    }
    proof { assert(views.take(lines.len() as int) =~= views); }
    keywords
}

/// Reads the keywords of a color action off the workspace state. A text selection is its own
/// keyword; selected rows give their trimmed, non-empty, distinct lines, read by `read_line`.
/// Clearing rules (`collect` unset) reads nothing. `is_cancelled` is asked before each read.
#[verifier::loop_isolation(false)]
pub fn prepare_color_keywords<C: Fn() -> bool, R: Fn(usize) -> Option<String>>(
    target: ColorKeywordTarget,
    collect: bool,
    is_cancelled: C,
    read_line: R,
) -> (task: DocumentLineTask<PreparedColorKeywords>)
    requires
        is_cancelled.requires(()),
        forall|r: usize| read_line.requires((r,)),
    ensures
        match task {
            DocumentLineTask::Completed(p) => {
                &&& p.document_id == target.document_id
                &&& p.snapshot == target.snapshot
                &&& !collect ==> p.keywords.len() == 0
                &&& collect ==> match target.selection {
                    ColorKeywordSelection::Text(text) => spec_views(p.keywords@) == seq![trim_result(text@)]
                        || (trim_result(text@).len() == 0 && p.keywords.len() == 0),
                    ColorKeywordSelection::Rows(rows) => exists|lines: Seq<Seq<char>>| {
                        &&& lines.len() == rows.len()
                        &&& forall|k: int| 0 <= k < rows.len() ==> #[trigger] spec_read_trimmed(read_line, rows@[k], lines[k])
                        &&& spec_keywords_of(lines, spec_views(p.keywords@))
                    },
                }
            },
            DocumentLineTask::Cancelled => collect && is_cancelled.ensures((), true),
            DocumentLineTask::SourceUnavailable => collect && match target.selection {
                ColorKeywordSelection::Rows(rows) => exists|k: int| 0 <= k < rows.len() && #[trigger] read_line.ensures((rows@[k],), None),
                _ => false,
            },
        },
{
    let document_id = target.document_id;
    let snapshot = target.snapshot;
    if !collect {
        return DocumentLineTask::Completed(PreparedColorKeywords { document_id, snapshot, keywords: Vec::new() });
    }
    if is_cancelled() {
        return DocumentLineTask::Cancelled;
    }
    match target.selection {
        ColorKeywordSelection::Text(text) => {
            let keyword = trim(text.as_str()).to_owned();
            let mut keywords: Vec<String> = Vec::new();
            if !keyword.as_str().is_empty() {
                keywords.push(keyword);
                assert(spec_views(keywords@) =~= seq![trim_result(text@)]);
            }
            DocumentLineTask::Completed(PreparedColorKeywords { document_id, snapshot, keywords })
        },
        ColorKeywordSelection::Rows(rows) => {
            let mut lines: Vec<String> = Vec::new();
            let mut k: usize = 0;
            while k < rows.len()
                invariant
                    k <= rows.len(),
                    is_cancelled.requires(()),
                    forall|r: usize| read_line.requires((r,)),
                    lines.len() == k,
                    forall|m: int| 0 <= m < k ==> #[trigger] spec_read_trimmed(read_line, rows@[m], spec_views(lines@)[m]),
                decreases rows.len() - k,
            {
                if is_cancelled() {
                    return DocumentLineTask::Cancelled;
                }
                let line = match read_line(rows[k]) {
                    Some(line) => line,
                    None => return DocumentLineTask::SourceUnavailable,
                };
                let trimmed = trim(line.as_str()).to_owned();
                let ghost pre = lines@;
                lines.push(trimmed);
                proof {
                    assert(read_line.ensures((rows@[k as int],), Some(line)));
                    assert forall|m: int| 0 <= m < k + 1 implies #[trigger] spec_read_trimmed(read_line, rows@[m], spec_views(lines@)[m]) by {
                        if m < k {
                            assert(lines@[m] == pre[m]);
                            assert(spec_views(lines@)[m] == spec_views(pre)[m]);
                        } else {
                            assert(spec_views(lines@)[m] == lines@[m]@);
                            assert(lines@[m]@ == trim_result(line@));
                            assert(spec_read_trimmed(read_line, rows@[m], trim_result(line@)));
                        }
                    }
                }
                k = k + 1;
            }
            let ghost views = spec_views(lines@);
            let keywords = collect_keywords(lines);
            assert(views.len() == rows.len());
            assert(forall|m: int| 0 <= m < rows.len() ==> #[trigger] spec_read_trimmed(read_line, rows@[m], views[m]));
            DocumentLineTask::Completed(PreparedColorKeywords { document_id, snapshot, keywords })
        },
    }
}

/// The color rules of one document to resolve against the color labels.
#[derive(Clone, Debug)]
pub struct ColorRuleResolutionInput {
    pub document_id: u64,
    pub snapshot: u64,
    pub rules: Vec<KeywordColorRule>,
}

/// A document's rules with their resolved form.
#[derive(Clone, Debug)]
pub struct PreparedColorRules<M> {
    pub document_id: u64,
    pub snapshot: u64,
    pub rules: Vec<KeywordColorRule>,
    pub resolved: M,
}

/// Resolves the color rules of several documents, keeping each document's inputs with its
/// result; `None` as soon as the batch is cancelled (asked before each document).
pub fn prepare_color_rule_resolutions<M, C: Fn() -> bool, F: Fn(&Vec<KeywordColorRule>) -> M>(
    inputs: Vec<ColorRuleResolutionInput>,
    is_cancelled: C,
    resolve: F,
) -> (prepared: Option<Vec<PreparedColorRules<M>>>)
    requires
        is_cancelled.requires(()),
        forall|rules: &Vec<KeywordColorRule>| resolve.requires((rules,)),
    ensures
        match prepared {
            Some(p) => p.len() == inputs.len() && forall|k: int| 0 <= k < inputs.len() ==> {
                let out = #[trigger] p@[k];
                &&& out.document_id == inputs@[k].document_id
                &&& out.snapshot == inputs@[k].snapshot
                &&& out.rules@ == inputs@[k].rules@
                &&& resolve.ensures((&inputs@[k].rules,), out.resolved)
            },
            None => is_cancelled.ensures((), true),
        },
{
    let ghost given = inputs@;
    let mut inputs = inputs;
    let mut prepared: Vec<PreparedColorRules<M>> = Vec::new();
    let mut k: usize = 0;
    let n = inputs.len();
    while k < n
        invariant
            k <= n,
            n == given.len(),
            is_cancelled.requires(()),
            forall|rules: &Vec<KeywordColorRule>| resolve.requires((rules,)),
            prepared.len() == k,
            inputs.len() == n,
            forall|m: int| k <= m < n ==> inputs@[m] == given[m],
            forall|m: int| 0 <= m < k ==> {
                let out = #[trigger] prepared@[m];
                &&& out.document_id == given[m].document_id
                &&& out.snapshot == given[m].snapshot
                &&& out.rules@ == given[m].rules@
                &&& resolve.ensures((&given[m].rules,), out.resolved)
            },
        decreases n - k,
    {
        if is_cancelled() {
            return None;
        }
        let document_id = inputs[k].document_id;
        let snapshot = inputs[k].snapshot;
        let resolved = resolve(&inputs[k].rules);
        let mut rules: Vec<KeywordColorRule> = Vec::new();
        std::mem::swap(&mut rules, &mut inputs[k].rules);
        prepared.push(PreparedColorRules { document_id, snapshot, rules, resolved });
        k = k + 1;
    }
    Some(prepared)
}

} // verus!
