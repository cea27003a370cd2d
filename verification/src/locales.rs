//! The list of generated locales: which lines of `locale -a` are offered,
//! in what order and under which label, and the lookups that the picker
//! makes in that list.
use vstd::prelude::*;
use vstd::string::StringExecFns;

use crate::names::{human_name, locale_to_human_name};
use crate::translit::{law_to_latin_idempotent, to_latin, transliterate};
use crate::text::{
    contains_str, lemma_lex_le_antisym, lemma_lex_le_total, lemma_lex_le_trans, lex_le, lines_of, occurs_in,
    split_lines, str_eq, str_le, trim, trim_str,
};

verus! {

broadcast use vstd::string::group_string_axioms;

/// Whether a trimmed line of `locale -a` names a locale that is offered:
/// it is not empty and not one of the plain `C`/`POSIX` locales.
pub open spec fn is_offered(locale: Seq<char>) -> bool {
    locale.len() > 0 && locale != "C"@ && locale != "POSIX"@ && locale != "C.utf8"@
}

/// The offered locales among `lines`, trimmed, in the order of the lines.
pub open spec fn offered(lines: Seq<Seq<char>>) -> Seq<Seq<char>>
    decreases lines.len(),
{
    if lines.len() == 0 {
        seq![]
    } else if is_offered(trim(lines.last())) {
        offered(lines.drop_last()).push(trim(lines.last()))
    } else {
        offered(lines.drop_last())
    }
}

/// The offered locales that the output of `locale -a` names.
pub open spec fn offered_locales(output: Seq<char>) -> Seq<Seq<char>> {
    offered(lines_of(output))
}

/// Whether `s` is in lexicographic order.
pub open spec fn sorted(s: Seq<Seq<char>>) -> bool {
    forall|i: int, j: int| 0 <= i < j < s.len() ==> lex_le(s[i], s[j])
}

/// Whether `rows` is the list shown for the output `output` of `locale -a`:
/// its locales are the offered ones, sorted, each paired with its label.
pub open spec fn is_locale_list(rows: Seq<(Seq<char>, Seq<char>)>, output: Seq<char>) -> bool {
    let locales = rows.map_values(|row: (Seq<char>, Seq<char>)| row.1);
    &&& sorted(locales)
    &&& locales.to_multiset() == offered_locales(output).to_multiset()
    &&& forall|i: int| 0 <= i < rows.len() ==> (#[trigger] rows[i]).0 == human_name(rows[i].1)
}

/// The offered locales that `output` names, trimmed, in the order of its lines.
pub fn offered_from_output(output: &str) -> (locales: Vec<String>)
    ensures
        locales.deep_view() == offered_locales(output@),
{
    let lines = split_lines(output);
    let n = lines.len();
    let mut out: Vec<String> = Vec::new();
    let mut i: usize = 0;
    while i < n
        invariant
            i <= n,
            n == lines@.len(),
            lines.deep_view() == lines_of(output@),
            out.deep_view() == offered(lines.deep_view().take(i as int)),
        decreases n - i,
    {
        let ghost seen = lines.deep_view().take(i + 1);
        assert(seen.drop_last() =~= lines.deep_view().take(i as int));
        assert(seen.last() == lines@[i as int]@);
        let t = trim_str(lines[i].as_str());
        let keep = !t.is_empty() && !str_eq(t, "C") && !str_eq(t, "POSIX") && !str_eq(t, "C.utf8");
        assert(t@.len() == 0 ==> t@ =~= Seq::<char>::empty());
        proof {
            if t@.len() == 0 {
                reveal_strlit("C");
                assert(t@ != "C"@);
            }
        }
        let ghost old_out = out.deep_view();
        if keep {
            out.push(String::from_str(t));
            assert(out.deep_view() =~= old_out.push(t@));
        }
        i = i + 1;
    }
    assert(lines.deep_view().take(n as int) =~= lines.deep_view());
    out
}

/// `items` in lexicographic order.
pub fn sort_strings(items: Vec<String>) -> (out: Vec<String>)
    ensures
        sorted(out.deep_view()),
        out.deep_view().to_multiset() == items.deep_view().to_multiset(),
{
    broadcast use vstd::seq_lib::group_to_multiset_ensures;
    broadcast use vstd::multiset::group_multiset_axioms;

    let n = items.len();
    let mut out: Vec<String> = Vec::new();
    let mut i: usize = 0;
    assert(items.deep_view().take(0) =~= Seq::<Seq<char>>::empty());
    while i < n
        invariant
            i <= n,
            n == items@.len(),
            sorted(out.deep_view()),
            out.deep_view().to_multiset() == items.deep_view().take(i as int).to_multiset(),
        decreases n - i,
    {
        let x = items[i].clone();
        let ghost old_out = out.deep_view();
        let m = out.len();
        let mut p: usize = 0;
        while p < m && str_le(out[p].as_str(), x.as_str())
            invariant
                p <= m,
                m == out@.len(),
                old_out == out.deep_view(),
                forall|k: int| 0 <= k < p ==> lex_le(#[trigger] old_out[k], x@),
            decreases m - p,
        {
            p = p + 1;
        }
        proof {
            if p < m {
                lemma_lex_le_total(old_out[p as int], x@);
                assert forall|k: int| p <= k < m implies lex_le(x@, #[trigger] old_out[k]) by {
                    if k > p {
                        lemma_lex_le_trans(x@, old_out[p as int], old_out[k]);
                    }
                }
            }
        }
        out.insert(p, x);
        let ghost new_out = out.deep_view();
        assert(new_out =~= old_out.insert(p as int, items@[i as int]@));
        assert forall|a: int, b: int| 0 <= a < b < new_out.len() implies lex_le(
            new_out[a],
            new_out[b],
        ) by {
            if a < p && b > p {
                assert(new_out[a] == old_out[a]);
                assert(new_out[b] == old_out[b - 1]);
            } else if a < p && b == p {
                assert(new_out[a] == old_out[a]);
            } else if a == p {
                assert(new_out[b] == old_out[b - 1]);
            } else if a > p {
                assert(new_out[a] == old_out[a - 1]);
                assert(new_out[b] == old_out[b - 1]);
            } else {
                assert(new_out[a] == old_out[a]);
                assert(new_out[b] == old_out[b]);
            }
        }
        assert(new_out.remove(p as int) =~= old_out);
        assert(new_out[p as int] == items.deep_view()[i as int]);
        let ghost xv = items.deep_view()[i as int];
        proof {
            new_out.to_multiset_ensures();
            items.deep_view().take(i as int).to_multiset_ensures();
        }
        assert(new_out.remove(p as int).to_multiset() == new_out.to_multiset().remove(new_out[p as int]));
        assert(new_out.contains(xv));
        assert(new_out.to_multiset().count(xv) > 0);
        assert(new_out.to_multiset() =~= new_out.to_multiset().remove(xv).insert(xv));
        assert(new_out.to_multiset() =~= old_out.to_multiset().insert(xv));
        assert(items.deep_view().take(i + 1) =~= items.deep_view().take(i as int).push(
            items.deep_view()[i as int],
        ));
        i = i + 1;
    }
    assert(items.deep_view().take(n as int) =~= items.deep_view());
    out
}


/// The list of locales offered for the output `output` of `locale -a`:
/// sorted, each with its label first (see `is_locale_list`).
pub fn parse_locale_list(output: &str) -> (rows: Vec<(String, String)>)
    ensures
        is_locale_list(rows.deep_view(), output@),
{
    let locales = sort_strings(offered_from_output(output));
    let n = locales.len();
    let mut rows: Vec<(String, String)> = Vec::new();
    let mut i: usize = 0;
    while i < n
        invariant
            i <= n,
            n == locales@.len(),
            sorted(locales.deep_view()),
            locales.deep_view().to_multiset() == offered_locales(output@).to_multiset(),
            rows@.len() == i,
            forall|k: int|
                0 <= k < i ==> (#[trigger] rows.deep_view()[k]) == (
                human_name(locales.deep_view()[k]),
                locales.deep_view()[k],
            ),
        decreases n - i,
    {
        let label = locale_to_human_name(locales[i].as_str());
        let ghost old_rows = rows.deep_view();
        rows.push((label, locales[i].clone()));
        assert forall|k: int| 0 <= k < i + 1 implies (#[trigger] rows.deep_view()[k]) == (
            human_name(locales.deep_view()[k]),
            locales.deep_view()[k],
        ) by {
            if k < i {
                assert(rows.deep_view()[k] == old_rows[k]);
            }
        }
        i = i + 1;
    }
    let ghost dv = rows.deep_view();
    assert(dv.map_values(|row: (Seq<char>, Seq<char>)| row.1) =~= locales.deep_view());
    rows
}

// ---------------------------------------------------------------------------
// Searching the list
// ---------------------------------------------------------------------------

/// `s` in lower case, as `str::to_lowercase` maps it (Unicode case mapping).
pub uninterp spec fn lowercase_of(s: Seq<char>) -> Seq<char>;

/// Calls `str::to_lowercase`, which maps each character of `s` to its
/// Unicode lower-case form; the result depends on `s` alone and is named
/// `lowercase_of`.
#[verifier::external_body]
fn to_lowercase_str(s: &str) -> (lower: String)
    ensures
        lower@ == lowercase_of(s@),
{
    s.to_lowercase()
}

/// Whether a lower-case label matches a lower-case search text: the search
/// text is empty or occurs in the label, either as written or with both
/// spelt in Latin (so that a search in Latin letters finds a Cyrillic label
/// and the other way round).
pub open spec fn lowered_match(lower_label: Seq<char>, lower_query: Seq<char>) -> bool {
    ||| lower_query.len() == 0
    ||| occurs_in(lower_query, lower_label)
    ||| occurs_in(to_latin(lower_query), to_latin(lower_label))
}

/// Whether a label is shown for the search text `query`: the two match once
/// both are in lower case (see `lowered_match`).
pub open spec fn matches_query(label: Seq<char>, query: Seq<char>) -> bool {
    lowered_match(lowercase_of(label), lowercase_of(query))
}

/// Whether a lower-case label matches a lower-case search text (see
/// `lowered_match`).
pub fn label_matches(lower_label: &str, lower_query: &str) -> (shown: bool)
    ensures
        shown == lowered_match(lower_label@, lower_query@),
        occurs_in(lower_query@, lower_label@) ==> shown,
        occurs_in(to_latin(lower_query@), to_latin(lower_label@)) ==> shown,
        lower_query@.len() == 0 ==> shown,
{
    lower_query.is_empty() || contains_str(lower_label, lower_query) || contains_str(
        transliterate(lower_label).as_str(),
        transliterate(lower_query).as_str(),
    )
}

/// The labels of `rows` that are shown for `query`, in order.
pub open spec fn shown_labels(rows: Seq<(Seq<char>, Seq<char>)>, query: Seq<char>) -> Seq<
    Seq<char>,
>
    decreases rows.len(),
{
    if rows.len() == 0 {
        seq![]
    } else if matches_query(rows.last().0, query) {
        shown_labels(rows.drop_last(), query).push(rows.last().0)
    } else {
        shown_labels(rows.drop_last(), query)
    }
}

/// The labels to show for the search text `query` (see `shown_labels`).
pub fn filter_labels(rows: &Vec<(String, String)>, query: &str) -> (labels: Vec<String>)
    ensures
        labels.deep_view() == shown_labels(rows.deep_view(), query@),
{
    let q = to_lowercase_str(query);
    let n = rows.len();
    let mut labels: Vec<String> = Vec::new();
    let mut i: usize = 0;
    while i < n
        invariant
            i <= n,
            n == rows@.len(),
            q@ == lowercase_of(query@),
            labels.deep_view() == shown_labels(rows.deep_view().take(i as int), query@),
        decreases n - i,
    {
        let ghost seen = rows.deep_view().take(i + 1);
        assert(seen.drop_last() =~= rows.deep_view().take(i as int));
        assert(seen.last() == rows.deep_view()[i as int]);
        let label = &rows[i].0;
        let lower = to_lowercase_str(label.as_str());
        let shown = label_matches(lower.as_str(), q.as_str());
        let ghost old_labels = labels.deep_view();
        if shown {
            labels.push(label.clone());
            assert(labels.deep_view() =~= old_labels.push(label@));
        }
        i = i + 1;
    }
    assert(rows.deep_view().take(n as int) =~= rows.deep_view());
    labels
}

/// The index of the first row whose locale is `locale`, if any.
pub fn position_of_locale(rows: &Vec<(String, String)>, locale: &str) -> (pos: Option<usize>)
    ensures
        match pos {
            Some(i) => i < rows@.len() && rows@[i as int].1@ == locale@ && forall|j: int|
                0 <= j < i ==> rows@[j].1@ != locale@,
            None => forall|j: int| 0 <= j < rows@.len() ==> rows@[j].1@ != locale@,
        },
{
    let n = rows.len();
    let mut i: usize = 0;
    while i < n
        invariant
            i <= n,
            n == rows@.len(),
            forall|j: int| 0 <= j < i ==> rows@[j].1@ != locale@,
        decreases n - i,
    {
        if str_eq(rows[i].1.as_str(), locale) {
            return Some(i);
        }
        i = i + 1;
    }
    None
}

/// The locale of the first row labelled `label`, if any.
pub fn locale_for_label(rows: &Vec<(String, String)>, label: &str) -> (locale: Option<String>)
    ensures
        match locale {
            Some(l) => exists|i: int|
                0 <= i < rows@.len() && rows@[i].0@ == label@ && l@ == rows@[i].1@ && forall|j: int|
                    0 <= j < i ==> rows@[j].0@ != label@,
            None => forall|j: int| 0 <= j < rows@.len() ==> rows@[j].0@ != label@,
        },
{
    let n = rows.len();
    let mut i: usize = 0;
    while i < n
        invariant
            i <= n,
            n == rows@.len(),
            forall|j: int| 0 <= j < i ==> rows@[j].0@ != label@,
        decreases n - i,
    {
        if str_eq(rows[i].0.as_str(), label) {
            return Some(rows[i].1.clone());
        }
        i = i + 1;
    }
    None
}


/// An empty search (empty once in lower case) shows every label, in order.
pub proof fn law_empty_query_shows_all(rows: Seq<(Seq<char>, Seq<char>)>, query: Seq<char>)
    requires
        lowercase_of(query).len() == 0,
    ensures
        shown_labels(rows, query) == rows.map_values(|row: (Seq<char>, Seq<char>)| row.0),
    decreases rows.len(),
{
    if rows.len() > 0 {
        law_empty_query_shows_all(rows.drop_last(), query);
        assert(rows.map_values(|row: (Seq<char>, Seq<char>)| row.0) =~= rows.drop_last().map_values(
            |row: (Seq<char>, Seq<char>)| row.0,
        ).push(rows.last().0));
    } else {
        assert(rows.map_values(|row: (Seq<char>, Seq<char>)| row.0) =~= Seq::<Seq<char>>::empty());
    }
}

/// A search text that occurs in a label, whatever its length, matches it,
/// as does one whose Latin spelling occurs in the label's Latin spelling.
pub proof fn law_occurring_query_matches(lower_label: Seq<char>, lower_query: Seq<char>)
    ensures
        occurs_in(lower_query, lower_label) ==> lowered_match(lower_label, lower_query),
        occurs_in(to_latin(lower_query), to_latin(lower_label)) ==> lowered_match(
            lower_label,
            lower_query,
        ),
{
}

/// Searching for the Latin spelling of a label finds the label, and
/// searching for a label in Cyrillic finds its Latin spelling.
pub proof fn law_latin_spelling_finds_label(lower_label: Seq<char>)
    ensures
        lowered_match(lower_label, to_latin(lower_label)),
        lowered_match(to_latin(lower_label), lower_label),
{
    law_to_latin_idempotent(lower_label);
    let t = to_latin(lower_label);
    assert(occurs_in(t, t)) by {
        assert(t.subrange(0, 0 + t.len() as int) =~= t);
    }
    assert(to_latin(t) == t);
}

/// A row whose label, in lower case, holds the search text in lower case
/// is shown.
pub proof fn law_found_row_is_shown(rows: Seq<(Seq<char>, Seq<char>)>, query: Seq<char>, i: int)
    requires
        0 <= i < rows.len(),
        occurs_in(lowercase_of(query), lowercase_of(rows[i].0)),
    ensures
        shown_labels(rows, query).contains(rows[i].0),
{
    law_shown_labels_match(rows, query, rows[i].0);
}

/// Every shown label is the label of a row and matches the search, and a
/// label that matches the search is shown.
pub proof fn law_shown_labels_match(
    rows: Seq<(Seq<char>, Seq<char>)>,
    query: Seq<char>,
    label: Seq<char>,
)
    ensures
        shown_labels(rows, query).contains(label) <==> exists|i: int|
            0 <= i < rows.len() && (#[trigger] rows[i]).0 == label && matches_query(label, query),
    decreases rows.len(),
{
    if rows.len() > 0 {
        let init = rows.drop_last();
        law_shown_labels_match(init, query, label);
        let shown_init = shown_labels(init, query);
        if shown_labels(rows, query).contains(label) {
            if !shown_init.contains(label) {
                let k = choose|k: int|
                    0 <= k < shown_labels(rows, query).len() && shown_labels(rows, query)[k]
                        == label;
                assert(k == shown_init.len());
                assert(rows[rows.len() - 1] == rows.last());
            } else {
                let i = choose|i: int|
                    0 <= i < init.len() && (#[trigger] init[i]).0 == label && matches_query(
                        label,
                        query,
                    );
                assert(rows[i] == init[i]);
            }
        }
        if exists|i: int|
            0 <= i < rows.len() && (#[trigger] rows[i]).0 == label && matches_query(label, query) {
            let i = choose|i: int|
                0 <= i < rows.len() && (#[trigger] rows[i]).0 == label && matches_query(
                    label,
                    query,
                );
            if i < rows.len() - 1 {
                assert(init[i] == rows[i]);
                let k = choose|k: int| 0 <= k < shown_init.len() && shown_init[k] == label;
                if matches_query(rows.last().0, query) {
                    assert(shown_labels(rows, query)[k] == label);
                }
            } else {
                assert(rows.last() == rows[i]);
                assert(shown_labels(rows, query)[shown_init.len() as int] == label);
            }
        }
    }
}


/// Two sequences in lexicographic order that hold the same items, as many
/// times each, are the same sequence.
pub proof fn lemma_sorted_permutation_unique(a: Seq<Seq<char>>, b: Seq<Seq<char>>)
    requires
        sorted(a),
        sorted(b),
        a.to_multiset() == b.to_multiset(),
    ensures
        a == b,
    decreases a.len(),
{
    broadcast use vstd::seq_lib::group_to_multiset_ensures;
    broadcast use vstd::multiset::group_multiset_axioms;

    a.to_multiset_ensures();
    b.to_multiset_ensures();
    if a.len() == 0 {
        assert(b.len() == 0);
        assert(a =~= b);
    } else {
        assert(b.len() == a.len());
        assert(a.contains(a[0]));
        assert(b.to_multiset().count(a[0]) > 0);
        assert(b.contains(a[0]));
        let k = choose|k: int| 0 <= k < b.len() && b[k] == a[0];
        assert(lex_le(b[0], a[0])) by {
            if k == 0 {
                lemma_lex_le_total(b[0], a[0]);
            }
        }
        assert(b.contains(b[0]));
        assert(a.to_multiset().count(b[0]) > 0);
        assert(a.contains(b[0]));
        let m = choose|m: int| 0 <= m < a.len() && a[m] == b[0];
        assert(lex_le(a[0], b[0])) by {
            if m == 0 {
                lemma_lex_le_total(a[0], b[0]);
            }
        }
        lemma_lex_le_antisym(a[0], b[0]);
        let a1 = a.drop_first();
        let b1 = b.drop_first();
        assert(a.remove(0) =~= a1);
        assert(b.remove(0) =~= b1);
        assert(a1.to_multiset() == a.to_multiset().remove(a[0]));
        assert(b1.to_multiset() == b.to_multiset().remove(b[0]));
        assert forall|i: int, j: int| 0 <= i < j < a1.len() implies lex_le(a1[i], a1[j]) by {
            assert(a1[i] == a[i + 1] && a1[j] == a[j + 1]);
        }
        assert forall|i: int, j: int| 0 <= i < j < b1.len() implies lex_le(b1[i], b1[j]) by {
            assert(b1[i] == b[i + 1] && b1[j] == b[j + 1]);
        }
        lemma_sorted_permutation_unique(a1, b1);
        assert(a =~= b) by {
            assert forall|i: int| 0 <= i < a.len() implies a[i] == b[i] by {
                if i > 0 {
                    assert(a[i] == a1[i - 1] && b[i] == b1[i - 1]);
                }
            }
        }
    }
}

/// The list offered for an output of `locale -a` is determined by that
/// output: any two lists that meet `is_locale_list` for it are equal.
pub proof fn law_locale_list_unique(
    rows1: Seq<(Seq<char>, Seq<char>)>,
    rows2: Seq<(Seq<char>, Seq<char>)>,
    output: Seq<char>,
)
    requires
        is_locale_list(rows1, output),
        is_locale_list(rows2, output),
    ensures
        rows1 == rows2,
{
    let l1 = rows1.map_values(|row: (Seq<char>, Seq<char>)| row.1);
    let l2 = rows2.map_values(|row: (Seq<char>, Seq<char>)| row.1);
    lemma_sorted_permutation_unique(l1, l2);
    assert(rows1.len() == l1.len() && rows2.len() == l2.len());
    assert forall|i: int| 0 <= i < rows1.len() implies rows1[i] == rows2[i] by {
        assert(l1[i] == rows1[i].1 && l2[i] == rows2[i].1);
        assert(rows1[i].0 == human_name(rows1[i].1));
        assert(rows2[i].0 == human_name(rows2[i].1));
    }
    assert(rows1 =~= rows2);
}

} // verus!
