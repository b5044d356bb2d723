use vstd::prelude::*;

use crate::pattern::{compile, is_match, pattern_compiles, pattern_matches};
use crate::text::{contains_text, is_substring};

verus! {

broadcast use vstd::seq_lib::group_seq_properties;

/// Why a search could not be carried out.
#[derive(Debug)]
pub enum SearchError {
    /// The query is not valid regular-expression syntax; carries the
    /// compiler's diagnostic.
    InvalidPattern(regex::Error),
}

/// The text of each line.
pub open spec fn texts(lines: Seq<String>) -> Seq<Seq<char>> {
    lines.map_values(|l: String| l@)
}

/// Whether `line` is selected by `query`: as a substring in literal mode, as a
/// regular expression matching anywhere in the line in pattern mode.
pub open spec fn line_matches(query: Seq<char>, line: Seq<char>, use_regex: bool) -> bool {
    if use_regex {
        pattern_matches(query, line)
    } else {
        is_substring(query, line)
    }
}

/// The lines that `query` selects, in their original order.
pub open spec fn matching_lines(query: Seq<char>, lines: Seq<Seq<char>>, use_regex: bool) -> Seq<
    Seq<char>,
> {
    lines.filter(|l: Seq<char>| line_matches(query, l, use_regex))
}

/// The search can be carried out: literal mode always, pattern mode when the
/// query compiles.
pub open spec fn query_usable(query: Seq<char>, use_regex: bool) -> bool {
    !use_regex || pattern_compiles(query)
}

/// What `search` returns on these inputs: the matching lines when the query is
/// usable, otherwise an invalid-pattern failure with no lines at all.
pub open spec fn search_outcome(
    query: Seq<char>,
    lines: Seq<Seq<char>>,
    use_regex: bool,
    r: Result<Vec<String>, SearchError>,
) -> bool {
    &&& r is Ok <==> query_usable(query, use_regex)
    &&& r is Err ==> r->Err_0 is InvalidPattern
    &&& r matches Ok(found) ==> texts(found@) == matching_lines(query, lines, use_regex)
}

/// The lines of `lines` that `query` selects, in their original order.
///
/// In literal mode a line is kept when it contains `query`; in pattern mode
/// `query` is compiled first, and an invalid pattern fails the whole search.
pub fn search(query: &str, lines: &Vec<String>, use_regex: bool) -> (r: Result<
    Vec<String>,
    SearchError,
>)
    ensures
        search_outcome(query@, texts(lines@), use_regex, r),
{
    let ghost all = texts(lines@);
    let ghost pred = |l: Seq<char>| line_matches(query@, l, use_regex);
    let compiled = if use_regex {
        match compile(query) {
            Ok(c) => Some(c),
            Err(e) => return Err(SearchError::InvalidPattern(e)),
        }
    } else {
        None
    };
    let mut found: Vec<String> = Vec::new();
    let mut i: usize = 0;
    while i < lines.len()
        invariant
            all == texts(lines@),
            pred == (|l: Seq<char>| line_matches(query@, l, use_regex)),
            use_regex ==> (compiled matches Some(c) && c.source() == query@),
            !use_regex ==> compiled is None,
            i <= lines@.len(),
            texts(found@) == all.take(i as int).filter(pred),
        decreases lines@.len() - i,
    {
        let line = &lines[i];
        let keep = match &compiled {
            Some(c) => is_match(c, line.as_str()),
            None => contains_text(line.as_str(), query),
        };
        let ghost before = found@;
        proof {
            assert(all[i as int] == line@);
            assert(keep == pred(all[i as int]));
            assert(all.take(i + 1) =~= all.take(i as int).push(all[i as int]));
            all.take(i as int).lemma_filter_push(all[i as int], pred);
        }
        if keep {
            found.push(line.clone());
            assert(texts(found@) =~= texts(before).push(line@));
        }
        i = i + 1;
    }
    assert(all.take(lines@.len() as int) =~= all);
    Ok(found)
}

/// The lines that could be read, in order; a line given as `None` (one that
/// failed to decode) is skipped rather than ending the scan.
pub open spec fn decoded(raw: Seq<Option<String>>) -> Seq<String>
    decreases raw.len(),
{
    if raw.len() == 0 {
        Seq::empty()
    } else {
        let rest = decoded(raw.drop_last());
        match raw.last() {
            Some(l) => rest.push(l),
            None => rest,
        }
    }
}

/// Keeps the lines that decoded, in order, and drops those that did not.
pub fn keep_decoded(raw: Vec<Option<String>>) -> (r: Vec<String>)
    ensures
        r@ == decoded(raw@),
{
    let mut out: Vec<String> = Vec::new();
    let mut i: usize = 0;
    while i < raw.len()
        invariant
            i <= raw@.len(),
            out@ == decoded(raw@.take(i as int)),
        decreases raw@.len() - i,
    {
        assert(raw@.take(i + 1).drop_last() =~= raw@.take(i as int));
        match &raw[i] {
            Some(l) => out.push(l.clone()),
            None => {},
        }
        i = i + 1;
    }
    assert(raw@.take(raw@.len() as int) =~= raw@);
    out
}

/// The result holds exactly the lines of the input that the query selects:
/// every line in it is selected and comes from the input, and every selected
/// input line is in it.
pub proof fn lemma_selects_exactly(query: Seq<char>, lines: Seq<Seq<char>>, use_regex: bool)
    ensures
        forall|k: int|
            0 <= k < matching_lines(query, lines, use_regex).len() ==> {
                let l = #[trigger] matching_lines(query, lines, use_regex)[k];
                line_matches(query, l, use_regex) && lines.contains(l)
            },
        forall|i: int|
            0 <= i < lines.len() && line_matches(query, lines[i], use_regex) ==> #[trigger]
            matching_lines(query, lines, use_regex).contains(lines[i]),
{
    let pred = |l: Seq<char>| line_matches(query, l, use_regex);
    assert forall|k: int|
        0 <= k < matching_lines(query, lines, use_regex).len() implies {
        let l = #[trigger] matching_lines(query, lines, use_regex)[k];
        line_matches(query, l, use_regex) && lines.contains(l)
    } by {
        lines.lemma_filter_pred(pred, k);
        lemma_kept_from_input(lines, pred, k);
    }
    assert forall|i: int|
        0 <= i < lines.len() && line_matches(query, lines[i], use_regex) implies #[trigger]
        matching_lines(query, lines, use_regex).contains(lines[i]) by {
        lines.lemma_filter_contains(pred, i);
    }
}

/// Every kept element comes from the input.
proof fn lemma_kept_from_input(s: Seq<Seq<char>>, pred: spec_fn(Seq<char>) -> bool, k: int)
    requires
        0 <= k < s.filter(pred).len(),
    ensures
        s.contains(s.filter(pred)[k]),
    decreases s.len(),
{
    reveal(Seq::filter);
    let rest = s.drop_last().filter(pred);
    if k < rest.len() {
        lemma_kept_from_input(s.drop_last(), pred, k);
        let j = choose|j: int| 0 <= j < s.drop_last().len() && s.drop_last()[j] == rest[k];
        assert(s[j] == s.filter(pred)[k]);
    } else {
        assert(s[s.len() - 1] == s.filter(pred)[k]);
    }
}

/// Selecting from a prefix of the input gives a prefix of the full selection.
proof fn lemma_prefix_selection(s: Seq<Seq<char>>, pred: spec_fn(Seq<char>) -> bool, n: int)
    requires
        0 <= n <= s.len(),
    ensures
        s.take(n).filter(pred).len() <= s.filter(pred).len(),
        s.filter(pred).take(s.take(n).filter(pred).len() as int) == s.take(n).filter(pred),
    decreases s.len() - n,
{
    if n < s.len() {
        lemma_prefix_selection(s, pred, n + 1);
        assert(s.take(n + 1) =~= s.take(n).push(s[n]));
        s.take(n).lemma_filter_push(s[n], pred);
        let a = s.take(n).filter(pred);
        let b = s.take(n + 1).filter(pred);
        let full = s.filter(pred);
        assert(full.take(a.len() as int) =~= b.take(a.len() as int));
        assert(b.take(a.len() as int) =~= a);
    } else {
        assert(s.take(n) =~= s);
        assert(s.filter(pred).take(s.filter(pred).len() as int) =~= s.filter(pred));
    }
}

/// The selection keeps the input order: when lines `i < j` are both selected,
/// line `i` stands in the result at position `a` and line `j` at a later
/// position `b`, where `a` and `b` count the selected lines before each.
pub proof fn lemma_order_kept(
    query: Seq<char>,
    lines: Seq<Seq<char>>,
    use_regex: bool,
    i: int,
    j: int,
)
    requires
        0 <= i < j < lines.len(),
        line_matches(query, lines[i], use_regex),
        line_matches(query, lines[j], use_regex),
    ensures
        ({
            let out = matching_lines(query, lines, use_regex);
            let a = matching_lines(query, lines.take(i), use_regex).len() as int;
            let b = matching_lines(query, lines.take(j), use_regex).len() as int;
            &&& a < b < out.len()
            &&& out[a] == lines[i]
            &&& out[b] == lines[j]
        }),
{
    let pred = |l: Seq<char>| line_matches(query, l, use_regex);
    let out = lines.filter(pred);
    let a = lines.take(i).filter(pred).len() as int;
    let b = lines.take(j).filter(pred).len() as int;
    assert(lines.take(i + 1) =~= lines.take(i).push(lines[i]));
    lines.take(i).lemma_filter_push(lines[i], pred);
    assert(lines.take(j + 1) =~= lines.take(j).push(lines[j]));
    lines.take(j).lemma_filter_push(lines[j], pred);
    lemma_prefix_selection(lines, pred, i + 1);
    lemma_prefix_selection(lines, pred, j + 1);
    assert(lines.take(j).take(i + 1) =~= lines.take(i + 1));
    lemma_prefix_selection(lines.take(j), pred, i + 1);
    assert(out.take(a + 1)[a] == lines[i]);
    assert(out.take(b + 1)[b] == lines[j]);
}

/// No selected line means an empty result, and that is a success whenever the
/// query is usable.
pub proof fn lemma_no_match_is_empty_success(
    query: Seq<char>,
    lines: Seq<Seq<char>>,
    use_regex: bool,
    r: Result<Vec<String>, SearchError>,
)
    requires
        search_outcome(query, lines, use_regex, r),
        query_usable(query, use_regex),
        forall|i: int| 0 <= i < lines.len() ==> !line_matches(query, #[trigger] lines[i], use_regex),
    ensures
        r matches Ok(found) && found@.len() == 0,
{
    let pred = |l: Seq<char>| line_matches(query, l, use_regex);
    let out = lines.filter(pred);
    if out.len() > 0 {
        lines.lemma_filter_pred(pred, 0);
        lemma_kept_from_input(lines, pred, 0);
    }
    let found = r->Ok_0;
    assert(texts(found@).len() == found@.len());
}

/// Searching twice with the same query, lines and mode gives the same outcome:
/// both succeed with the same lines, or both fail.
pub proof fn lemma_search_deterministic(
    query: Seq<char>,
    lines: Seq<Seq<char>>,
    use_regex: bool,
    r1: Result<Vec<String>, SearchError>,
    r2: Result<Vec<String>, SearchError>,
)
    requires
        search_outcome(query, lines, use_regex, r1),
        search_outcome(query, lines, use_regex, r2),
    ensures
        r1 is Ok <==> r2 is Ok,
        r1 is Ok ==> texts(r1->Ok_0@) == texts(r2->Ok_0@),
{
}

} // verus!
