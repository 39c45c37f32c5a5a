//! The two editors of the search query: the multiline editor holds the query, and the
//! single-line editor shows it with line breaks as spaces.
use vstd::prelude::*;
use crate::line_tasks::append_char;

verus! {

/// The query as the single-line editor shows it: each line break a space.
pub open spec fn spec_single_line(text: Seq<char>) -> Seq<char> {
    text.map_values(|c: char| if c == '\r' || c == '\n' { ' ' } else { c })
}

/// The query as the single-line editor shows it: each carriage return and line feed becomes a
/// space.
pub fn single_line_query(text: &str) -> (line: String)
    ensures
        line@ == spec_single_line(text@),
{
    broadcast use vstd::string::axiom_spec_iter;
    let mut line = String::new();
    for c in it: text.chars()
        invariant
            it.seq() == text@,
            line@ == spec_single_line(text@.take(it.index() as int)),
    {
        let shown = if c == '\r' || c == '\n' { ' ' } else { c };
        append_char(&mut line, shown);
        proof {
            assert(text@.take(it.index() + 1) =~= text@.take(it.index() as int).push(c));
            assert(line@ =~= spec_single_line(text@.take(it.index() + 1)));
        }
    }
    proof { assert(text@.take(text@.len() as int) =~= text@); }
    line
}

/// The text the single-line editor has to show for `query`, where it shows something else.
pub fn sync_single_line_search(query: &str, shown: &str) -> (replace: Option<String>)
    ensures
        match replace {
            Some(text) => text@ == spec_single_line(query@) && shown@ != spec_single_line(query@),
            None => shown@ == spec_single_line(query@),
        },
{
    let line = single_line_query(query);
    let shown = shown.to_string();
    if line == shown {
        None
    } else {
        Some(line)
    }
}

/// The query the multiline editor takes from the single-line editor's `single` text: where the
/// single-line editor is the one in use and the user changed its text (it no longer shows
/// `query` with line breaks as spaces).
pub fn sync_search_query_from_input(multiline: bool, query: &str, single: &str) -> (replace: Option<String>)
    ensures
        match replace {
            Some(text) => !multiline && text@ == single@ && single@ != spec_single_line(query@),
            None => multiline || single@ == spec_single_line(query@),
        },
{
    if multiline {
        return None;
    }
    let line = single_line_query(query);
    let single = single.to_string();
    if line == single {
        None
    } else {
        Some(single)
    }
}

} // verus!
