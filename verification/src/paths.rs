//! Path strings as the file manager handles them: the separator written
//! after a folder follows the platform ([`PathStyle`]); joining paths and
//! taking their file names follow the rules of `std::path` on Unix.

use vstd::prelude::*;
use crate::text::{chars_match_at, starts_with, strip_leading, to_chars};

verus! {

/// The path conventions of a platform.
#[derive(Debug, Clone, Copy, PartialEq, Eq, Structural)]
pub enum PathStyle {
    /// Paths separated by `/`.
    Unix,
    /// Paths separated by `\`.
    Windows,
}

/// The separator the file manager writes after a folder's path.
pub open spec fn separator_of(style: PathStyle) -> char {
    match style {
        PathStyle::Unix => '/',
        PathStyle::Windows => '\\',
    }
}

/// `folder` followed by the separator of `style`.
pub fn folder_prefix(folder: &str, style: PathStyle) -> (r: String)
    ensures
        r@ == folder@ + seq![separator_of(style)],
{
    let mut r = String::from_str(folder);
    match style {
        PathStyle::Unix => {
            r.append("/");
            proof {
                reveal_strlit("/");
            }
        },
        PathStyle::Windows => {
            r.append("\\");
            proof {
                reveal_strlit("\\");
            }
        },
    }
    r
}

/// `item` with every leading repetition of `home` removed.
pub fn remove_home_start(item: &str, home: String) -> (r: String)
    ensures
        r@ == strip_leading(item@, home@),
{
    let s = to_chars(item);
    let p = to_chars(home.as_str());
    let n = s.len();
    let mut k: usize = 0;
    assert(item@.skip(0) =~= item@);
    while p.len() > 0 && chars_match_at(&s, k, &p)
        invariant
            n == s.len(),
            k <= n,
            s@ == item@,
            p@ == home@,
            strip_leading(item@, home@) == strip_leading(item@.skip(k as int), home@),
        decreases n - k,
    {
        proof {
            let rest = item@.skip(k as int);
            assert(rest.skip(p.len() as int) =~= item@.skip(k + p.len()));
        }
        k = k + p.len();
    }
    proof {
        assert(s@.skip(k as int) == item@.skip(k as int));
    }
    let tail = item.substring_char(k, n);
    assert(tail@ =~= item@.skip(k as int));
    tail.to_owned()
}

/// `name` joined onto `base` as `Path::join` does on Unix: an absolute
/// `name` replaces `base`; otherwise a `/` is put between them unless `base`
/// is empty or already ends with one.
pub open spec fn joined(base: Seq<char>, name: Seq<char>) -> Seq<char> {
    if name.len() > 0 && name[0] == '/' {
        name
    } else if base.len() == 0 || base.last() == '/' {
        base + name
    } else {
        base + seq!['/'] + name
    }
}

/// `name` joined onto `base` (see [`joined`]).
pub fn join_path(base: &str, name: &str) -> (r: String)
    ensures
        r@ == joined(base@, name@),
{
    let name_len = name.unicode_len();
    if name_len > 0 && name.get_char(0) == '/' {
        return name.to_owned();
    }
    let base_len = base.unicode_len();
    let mut r = String::from_str(base);
    if base_len > 0 && base.get_char(base_len - 1) != '/' {
        r.append("/");
        proof {
            reveal_strlit("/");
        }
    }
    r.append(name);
    r
}

/// `s` without the `/` characters it ends with.
pub open spec fn trim_trailing_slashes(s: Seq<char>) -> Seq<char>
    decreases s.len(),
{
    if s.len() > 0 && s.last() == '/' {
        trim_trailing_slashes(s.drop_last())
    } else {
        s
    }
}

/// The index just after the last `/` of `s`, or 0 where it has none.
pub open spec fn after_last_slash(s: Seq<char>) -> nat
    decreases s.len(),
{
    if s.len() == 0 {
        0
    } else if s.last() == '/' {
        s.len()
    } else {
        after_last_slash(s.drop_last())
    }
}

pub proof fn lemma_trim_trailing_slashes(s: Seq<char>)
    ensures
        trim_trailing_slashes(s).len() <= s.len(),
        trim_trailing_slashes(s) == s.take(trim_trailing_slashes(s).len() as int),
        trim_trailing_slashes(s).len() > 0 ==> trim_trailing_slashes(s).last() != '/',
    decreases s.len(),
{
    if s.len() > 0 && s.last() == '/' {
        lemma_trim_trailing_slashes(s.drop_last());
        assert(s.drop_last().take(trim_trailing_slashes(s).len() as int) =~= s.take(
            trim_trailing_slashes(s).len() as int,
        ));
    } else {
        assert(s.take(s.len() as int) =~= s);
    }
}

pub proof fn lemma_after_last_slash(s: Seq<char>)
    ensures
        after_last_slash(s) <= s.len(),
        after_last_slash(s) > 0 ==> s[after_last_slash(s) - 1] == '/',
        forall|i: int| after_last_slash(s) <= i < s.len() ==> s[i] != '/',
    decreases s.len(),
{
    if s.len() > 0 && s.last() != '/' {
        lemma_after_last_slash(s.drop_last());
        assert forall|i: int| after_last_slash(s) <= i < s.len() implies s[i] != '/' by {
            if i < s.len() - 1 {
                assert(s.drop_last()[i] == s[i]);
            }
        }
    }
}

/// The last component of `s` that is neither empty nor `.`.
pub open spec fn last_component(s: Seq<char>) -> Option<Seq<char>>
    decreases s.len(),
{
    let t = trim_trailing_slashes(s);
    if t.len() == 0 {
        None
    } else {
        let k = after_last_slash(t);
        if t.skip(k as int) == seq!['.'] {
            proof {
                lemma_trim_trailing_slashes(s);
                lemma_after_last_slash(t);
            }
            last_component(t.take(k as int))
        } else {
            Some(t.skip(k as int))
        }
    }
}

/// The final component of a path, as `Path::file_name` gives it on Unix:
/// none where the path ends in `..`, is a root, or has no components.
pub open spec fn file_name_of(path: Seq<char>) -> Option<Seq<char>> {
    match last_component(path) {
        Some(p) => if p == seq!['.', '.'] {
            None
        } else {
            Some(p)
        },
        None => None,
    }
}

/// The final component of `path` (see [`file_name_of`]).
pub fn file_name(path: &str) -> (r: Option<String>)
    ensures
        r matches Some(n) ==> file_name_of(path@) == Some(n@),
        r is None <==> file_name_of(path@) is None,
{
    let c = to_chars(path);
    let mut end: usize = c.len();
    assert(path@.take(end as int) =~= path@);
    loop
        invariant
            c@ == path@,
            end <= c.len(),
            last_component(path@) == last_component(path@.take(end as int)),
        decreases end,
    {
        let ghost orig = path@.take(end as int);
        let ghost end0 = end;
        while end > 0 && c[end - 1] == '/'
            invariant
                c@ == path@,
                end <= end0 <= c.len(),
                trim_trailing_slashes(orig) == trim_trailing_slashes(path@.take(end as int)),
            decreases end,
        {
            assert(path@.take(end as int).drop_last() =~= path@.take(end - 1));
            end = end - 1;
        }
        let ghost t = path@.take(end as int);
        assert(trim_trailing_slashes(t) == t);
        if end == 0 {
            return None;
        }
        let mut start: usize = end;
        while start > 0 && c[start - 1] != '/'
            invariant
                c@ == path@,
                start <= end <= c.len(),
                after_last_slash(t) == after_last_slash(path@.take(start as int)),
                forall|i: int| start <= i < end ==> path@[i] != '/',
            decreases start,
        {
            assert(path@.take(start as int).drop_last() =~= path@.take(start - 1));
            start = start - 1;
        }
        assert(after_last_slash(path@.take(start as int)) == start);
        assert(t.skip(start as int) =~= path@.subrange(start as int, end as int));
        if end - start == 1 && c[start] == '.' {
            assert(t.skip(start as int) =~= seq!['.']);
            assert(t.take(start as int) =~= path@.take(start as int));
            end = start;
        } else {
            assert(t.skip(start as int) != seq!['.']) by {
                if end - start == 1 {
                    assert(t.skip(start as int)[0] == c@[start as int]);
                }
            }
            if end - start == 2 && c[start] == '.' && c[start + 1] == '.' {
                assert(t.skip(start as int) =~= seq!['.', '.']);
                return None;
            }
            assert(t.skip(start as int) != seq!['.', '.']) by {
                if end - start == 2 {
                    assert(t.skip(start as int)[0] == c@[start as int]);
                    assert(t.skip(start as int)[1] == c@[start + 1]);
                }
            }
            let piece = path.substring_char(start, end);
            return Some(piece.to_owned());
        }
    }
}

/// A single path component: not empty, without `/`, and neither `.` nor `..`.
pub open spec fn is_plain_name(name: Seq<char>) -> bool {
    &&& name.len() > 0
    &&& forall|i: int| 0 <= i < name.len() ==> name[i] != '/'
    &&& name != seq!['.']
    &&& name != seq!['.', '.']
}

proof fn lemma_after_last_slash_of_suffix(a: Seq<char>, name: Seq<char>)
    requires
        a.len() == 0 || a.last() == '/',
        forall|i: int| 0 <= i < name.len() ==> name[i] != '/',
    ensures
        after_last_slash(a + name) == a.len(),
    decreases name.len(),
{
    if name.len() > 0 {
        assert((a + name).drop_last() =~= a + name.drop_last());
        lemma_after_last_slash_of_suffix(a, name.drop_last());
    } else {
        assert(a + name =~= a);
    }
}

/// Joining a plain name onto a folder gives a path whose file name is that name.
pub proof fn law_file_name_of_joined(base: Seq<char>, name: Seq<char>)
    requires
        is_plain_name(name),
    ensures
        file_name_of(joined(base, name)) == Some(name),
{
    let a = if base.len() == 0 || base.last() == '/' {
        base
    } else {
        base + seq!['/']
    };
    assert(joined(base, name) =~= a + name);
    let s = a + name;
    assert(s.last() == name.last());
    assert(trim_trailing_slashes(s) == s);
    lemma_after_last_slash_of_suffix(a, name);
    assert(s.skip(a.len() as int) =~= name);
}

/// What [`remove_home_start`] gives is the end of `item`, and no longer
/// begins with `home` (where `home` is not empty).
pub proof fn law_strip_leading_is_suffix(item: Seq<char>, home: Seq<char>)
    ensures
        strip_leading(item, home).len() <= item.len(),
        item.skip(item.len() - strip_leading(item, home).len()) == strip_leading(item, home),
        home.len() > 0 ==> !starts_with(strip_leading(item, home), home),
    decreases item.len(),
{
    if home.len() > 0 && starts_with(item, home) {
        let rest = item.skip(home.len() as int);
        law_strip_leading_is_suffix(rest, home);
        assert(item.skip(item.len() - strip_leading(item, home).len()) =~= rest.skip(
            rest.len() - strip_leading(rest, home).len(),
        ));
    } else {
        assert(item.skip(0) =~= item);
    }
}

/// Removing the leading `home`s a second time changes nothing.
pub proof fn law_strip_leading_idempotent(item: Seq<char>, home: Seq<char>)
    ensures
        strip_leading(strip_leading(item, home), home) == strip_leading(item, home),
{
    law_strip_leading_is_suffix(item, home);
}

/// With `folder` and the separator removed, an entry `folder`, separator,
/// `name` leaves `name`.
pub proof fn law_entry_label_is_name(folder: Seq<char>, sep: char, name: Seq<char>)
    requires
        name.len() > 0,
        forall|i: int| 0 <= i < name.len() ==> name[i] != sep,
    ensures
        strip_leading(folder + seq![sep] + name, folder + seq![sep]) == name,
{
    let p = folder + seq![sep];
    let item = p + name;
    assert(item.take(p.len() as int) =~= p);
    assert(item.skip(p.len() as int) =~= name);
    assert(!starts_with(name, p)) by {
        if starts_with(name, p) {
            assert(p[p.len() - 1] == sep);
            assert(name[p.len() - 1] == name.take(p.len() as int)[p.len() - 1]);
        }
    }
    assert(strip_leading(name, p) == name);
    assert(strip_leading(item, p) == strip_leading(name, p));
}

/// `h` written `k` times over.
pub open spec fn repeated(h: Seq<char>, k: nat) -> Seq<char>
    decreases k,
{
    if k == 0 {
        Seq::empty()
    } else {
        h + repeated(h, (k - 1) as nat)
    }
}

/// Removing the leading `home`s takes off exactly the copies of `home` the
/// item begins with and keeps the rest whole: `k` copies of a non-empty
/// `home` followed by a rest that does not begin with `home` leave that rest.
pub proof fn law_strip_leading_removes_only_copies(home: Seq<char>, rest: Seq<char>, k: nat)
    requires
        home.len() > 0,
        !starts_with(rest, home),
    ensures
        strip_leading(repeated(home, k) + rest, home) == rest,
    decreases k,
{
    if k == 0 {
        assert(repeated(home, k) + rest =~= rest);
    } else {
        let s = repeated(home, k) + rest;
        let tail = repeated(home, (k - 1) as nat) + rest;
        assert(s =~= home + tail);
        assert(s.take(home.len() as int) =~= home);
        assert(s.skip(home.len() as int) =~= tail);
        law_strip_leading_removes_only_copies(home, rest, (k - 1) as nat);
    }
}

/// With an empty `home` nothing is removed.
pub proof fn law_strip_leading_empty_home(item: Seq<char>)
    ensures
        strip_leading(item, Seq::empty()) == item,
{
}

} // verus!
