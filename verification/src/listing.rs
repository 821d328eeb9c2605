//! Splitting a folder's entries into visible and hidden ones, each sorted.

use vstd::prelude::*;
use vstd::multiset::Multiset;
use crate::history::string_views;
use crate::paths::{folder_prefix, separator_of, PathStyle};
use crate::text::{
    chars_le, chars_match_at, lemma_lex_antisymmetric, lemma_lex_total, lemma_lex_transitive,
    lex_le, lex_sorted, starts_with, to_chars,
};

verus! {

broadcast use vstd::seq_lib::group_to_multiset_ensures;

/// Whether `path` is a hidden entry of `folder`: it begins with `folder`
/// followed by the separator `sep` and `.`.
pub open spec fn is_hidden_entry(folder: Seq<char>, sep: char, path: Seq<char>) -> bool {
    starts_with(path, folder + seq![sep, '.'])
}

/// The entries of `folder` that are not hidden, in their given order.
pub open spec fn visible_entries(folder: Seq<char>, sep: char, entries: Seq<Seq<char>>) -> Seq<Seq<char>> {
    entries.filter(|p: Seq<char>| !is_hidden_entry(folder, sep, p))
}

/// The hidden entries of `folder`, in their given order.
pub open spec fn hidden_entries(folder: Seq<char>, sep: char, entries: Seq<Seq<char>>) -> Seq<Seq<char>> {
    entries.filter(|p: Seq<char>| is_hidden_entry(folder, sep, p))
}

/// `out` holds exactly the elements of `of`, in sorted order.
pub open spec fn sorted_arrangement(out: Seq<Seq<char>>, of: Seq<Seq<char>>) -> bool {
    lex_sorted(out) && out.to_multiset() == of.to_multiset()
}

/// `keys` holds the characters of each string of `out`.
pub open spec fn keys_match(out: Seq<String>, keys: Seq<Vec<char>>) -> bool {
    keys.len() == out.len() && forall|k: int| 0 <= k < out.len() ==> #[trigger] keys[k]@ == out[k]@
}

/// Inserts `s` (whose characters are `key`) into the sorted list `out`.
fn insert_sorted(out: &mut Vec<String>, keys: &mut Vec<Vec<char>>, s: String, key: Vec<char>)
    requires
        key@ == s@,
        keys_match(old(out)@, old(keys)@),
        lex_sorted(string_views(old(out)@)),
    ensures
        keys_match(final(out)@, final(keys)@),
        lex_sorted(string_views(final(out)@)),
        string_views(final(out)@).to_multiset() == string_views(old(out)@).to_multiset().insert(
            s@,
        ),
{
    let n = out.len();
    let mut j: usize = 0;
    while j < n && chars_le(&keys[j], &key)
        invariant
            n == out.len(),
            j <= n,
            keys_match(out@, keys@),
            key@ == s@,
            forall|k: int| 0 <= k < j ==> lex_le(#[trigger] out@[k]@, s@),
        decreases n - j,
    {
        j = j + 1;
    }
    let ghost before = string_views(out@);
    proof {
        if j < n {
            lemma_lex_total(s@, out@[j as int]@);
            assert forall|k: int| j <= k < n implies lex_le(s@, #[trigger] out@[k]@) by {
                if k > j {
                    assert(lex_le(before[j as int], before[k]));
                    lemma_lex_transitive(s@, out@[j as int]@, out@[k]@);
                }
            }
        }
    }
    out.insert(j, s);
    keys.insert(j, key);
    let ghost after = string_views(out@);
    assert(after =~= before.insert(j as int, s@));
    assert forall|a: int, b: int| 0 <= a < b < after.len() implies lex_le(after[a], after[b]) by {
        if a < j && b < j {
            assert(lex_le(before[a], before[b]));
        } else if a < j && b > j {
            assert(lex_le(before[a], before[b - 1]));
        } else if a > j {
            assert(lex_le(before[a - 1], before[b - 1]));
        }
    }
}

/// The entries of `folder` split into the visible ones and the hidden ones
/// (under the path conventions `style`), each sorted.
pub fn split_listing(folder: &str, style: PathStyle, entries: &Vec<String>) -> (r: (
    Vec<String>,
    Vec<String>,
))
    ensures
        sorted_arrangement(
            string_views(r.0@),
            visible_entries(folder@, separator_of(style), string_views(entries@)),
        ),
        sorted_arrangement(
            string_views(r.1@),
            hidden_entries(folder@, separator_of(style), string_views(entries@)),
        ),
{
    let ghost sep = separator_of(style);
    let mut prefix = folder_prefix(folder, style);
    prefix.append(".");
    proof {
        reveal_strlit(".");
    }
    let prefix_chars = to_chars(prefix.as_str());
    let ghost views = string_views(entries@);
    let ghost vis = |p: Seq<char>| !is_hidden_entry(folder@, sep, p);
    let ghost hid = |p: Seq<char>| is_hidden_entry(folder@, sep, p);
    let mut files: Vec<String> = Vec::new();
    let mut file_keys: Vec<Vec<char>> = Vec::new();
    let mut dots: Vec<String> = Vec::new();
    let mut dot_keys: Vec<Vec<char>> = Vec::new();
    let n = entries.len();
    let mut i: usize = 0;
    proof {
        assert(string_views(files@) =~= Seq::<Seq<char>>::empty());
        assert(views.take(0) =~= Seq::<Seq<char>>::empty());
        reveal_with_fuel(Seq::filter, 1);
    }
    while i < n
        invariant
            n == entries.len(),
            i <= n,
            views == string_views(entries@),
            sep == separator_of(style),
            prefix_chars@ == folder@ + seq![sep, '.'],
            vis == (|p: Seq<char>| !is_hidden_entry(folder@, sep, p)),
            hid == (|p: Seq<char>| is_hidden_entry(folder@, sep, p)),
            keys_match(files@, file_keys@),
            keys_match(dots@, dot_keys@),
            lex_sorted(string_views(files@)),
            lex_sorted(string_views(dots@)),
            string_views(files@).to_multiset() == views.take(i as int).filter(vis).to_multiset(),
            string_views(dots@).to_multiset() == views.take(i as int).filter(hid).to_multiset(),
        decreases n - i,
    {
        let item = entries[i].clone();
        let key = to_chars(item.as_str());
        let hidden = chars_match_at(&key, 0, &prefix_chars);
        proof {
            assert(key@.skip(0) =~= key@);
            assert(views.take(i + 1) =~= views.take(i as int).push(views[i as int]));
            assert(views.take(i + 1).drop_last() =~= views.take(i as int));
            reveal_with_fuel(Seq::filter, 1);
        }
        if hidden {
            insert_sorted(&mut dots, &mut dot_keys, item, key);
        } else {
            insert_sorted(&mut files, &mut file_keys, item, key);
        }
        i = i + 1;
    }
    proof {
        assert(views.take(n as int) =~= views);
    }
    (files, dots)
}

/// The visible and the hidden entries together are all the entries.
pub proof fn law_listing_partitions(folder: Seq<char>, sep: char, entries: Seq<Seq<char>>)
    ensures
        visible_entries(folder, sep, entries).to_multiset().add(
            hidden_entries(folder, sep, entries).to_multiset(),
        ) == entries.to_multiset(),
    decreases entries.len(),
{
    reveal_with_fuel(Seq::filter, 1);
    if entries.len() == 0 {
        assert(visible_entries(folder, sep, entries) =~= entries);
        assert(hidden_entries(folder, sep, entries) =~= entries);
        assert(entries.to_multiset() =~= Multiset::empty());
        assert(Multiset::<Seq<char>>::empty().add(Multiset::empty()) =~= Multiset::empty());
    } else {
        let init = entries.drop_last();
        law_listing_partitions(folder, sep, init);
        assert(entries =~= init.push(entries.last()));
        assert(visible_entries(folder, sep, entries).to_multiset().add(
            hidden_entries(folder, sep, entries).to_multiset(),
        ) =~= entries.to_multiset());
    }
}

proof fn lemma_sorted_same_elements_equal(a: Seq<Seq<char>>, b: Seq<Seq<char>>)
    requires
        lex_sorted(a),
        lex_sorted(b),
        a.to_multiset() == b.to_multiset(),
    ensures
        a == b,
    decreases a.len(),
{
    assert(a.to_multiset().len() == a.len());
    assert(b.to_multiset().len() == b.len());
    if a.len() == 0 {
        assert(a =~= b);
    } else {
        assert(a.contains(a[0]));
        assert(b.to_multiset().count(a[0]) > 0);
        assert(b.contains(a[0]));
        let j = choose|j: int| 0 <= j < b.len() && b[j] == a[0];
        assert(b.contains(b[0]));
        assert(a.to_multiset().count(b[0]) > 0);
        assert(a.contains(b[0]));
        let i = choose|i: int| 0 <= i < a.len() && a[i] == b[0];
        if i != 0 && j != 0 {
            assert(lex_le(a[0], a[i]));
            assert(lex_le(b[0], b[j]));
            lemma_lex_antisymmetric(a[0], b[0]);
        }
        assert(a[0] == b[0]);
        assert(a.remove(0) =~= a.drop_first());
        assert(b.remove(0) =~= b.drop_first());
        assert(a.drop_first().to_multiset() == b.drop_first().to_multiset());
        assert(lex_sorted(a.drop_first())) by {
            assert forall|x: int, y: int| 0 <= x < y < a.drop_first().len() implies lex_le(
                a.drop_first()[x],
                a.drop_first()[y],
            ) by {
                assert(lex_le(a[x + 1], a[y + 1]));
            }
        }
        assert(lex_sorted(b.drop_first())) by {
            assert forall|x: int, y: int| 0 <= x < y < b.drop_first().len() implies lex_le(
                b.drop_first()[x],
                b.drop_first()[y],
            ) by {
                assert(lex_le(b[x + 1], b[y + 1]));
            }
        }
        lemma_sorted_same_elements_equal(a.drop_first(), b.drop_first());
        assert forall|k: int| 0 <= k < a.len() implies a[k] == b[k] by {
            if k > 0 {
                assert(a[k] == a.drop_first()[k - 1]);
                assert(b[k] == b.drop_first()[k - 1]);
            }
        }
        assert(a =~= b);
    }
}

/// A list has one sorted arrangement only, so the listing of a folder is
/// fully determined by its entries.
pub proof fn law_sorted_arrangement_unique(a: Seq<Seq<char>>, b: Seq<Seq<char>>, of: Seq<Seq<char>>)
    requires
        sorted_arrangement(a, of),
        sorted_arrangement(b, of),
    ensures
        a == b,
{
    lemma_sorted_same_elements_equal(a, b);
}

/// An entry is hidden exactly when it begins with the opened folder, the
/// separator and `.`, whatever the folder's own path holds: an entry made of
/// `folder`, `sep` and a name that does not begin with `.` is visible (and
/// among the visible entries, not the hidden ones), and one made of `folder`,
/// `sep`, `.` and any name is hidden (and among the hidden entries only).
pub proof fn law_hidden_means_dot_name(
    folder: Seq<char>,
    sep: char,
    name: Seq<char>,
    dot_name: Seq<char>,
    entries: Seq<Seq<char>>,
)
    requires
        name.len() == 0 || name[0] != '.',
    ensures
        !is_hidden_entry(folder, sep, folder + seq![sep] + name),
        is_hidden_entry(folder, sep, folder + seq![sep, '.'] + dot_name),
        entries.contains(folder + seq![sep] + name) ==> visible_entries(folder, sep, entries).contains(
            folder + seq![sep] + name,
        ) && !hidden_entries(folder, sep, entries).contains(folder + seq![sep] + name),
        entries.contains(folder + seq![sep, '.'] + dot_name) ==> hidden_entries(
            folder,
            sep,
            entries,
        ).contains(folder + seq![sep, '.'] + dot_name) && !visible_entries(
            folder,
            sep,
            entries,
        ).contains(folder + seq![sep, '.'] + dot_name),
{
    broadcast use vstd::seq_lib::group_filter_ensures;

    let p = folder + seq![sep, '.'];
    let v = folder + seq![sep] + name;
    let d = folder + seq![sep, '.'] + dot_name;
    assert(!starts_with(v, p)) by {
        if starts_with(v, p) {
            assert(v.take(p.len() as int)[p.len() - 1] == p[p.len() - 1]);
            assert(v[p.len() - 1] == name[0]);
        }
    }
    assert(d.take(p.len() as int) =~= p);
    let vis = |x: Seq<char>| !is_hidden_entry(folder, sep, x);
    let hid = |x: Seq<char>| is_hidden_entry(folder, sep, x);
    if entries.contains(v) {
        let i = choose|i: int| 0 <= i < entries.len() && entries[i] == v;
        entries.lemma_filter_contains(vis, i);
        if entries.filter(hid).contains(v) {
            let j = choose|j: int| 0 <= j < entries.filter(hid).len() && entries.filter(hid)[j] == v;
            entries.lemma_filter_pred(hid, j);
        }
    }
    if entries.contains(d) {
        let i = choose|i: int| 0 <= i < entries.len() && entries[i] == d;
        entries.lemma_filter_contains(hid, i);
        if entries.filter(vis).contains(d) {
            let j = choose|j: int| 0 <= j < entries.filter(vis).len() && entries.filter(vis)[j] == d;
            entries.lemma_filter_pred(vis, j);
        }
    }
}

} // verus!
