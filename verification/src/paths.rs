//! Unix path text: the final component of a path, and joining a relative name.

use crate::text::{chars_of, last_segment};
use vstd::prelude::*;
use vstd::string::StringExecFns;

verus! {

/// The name of the launcher's own download cache directory.
pub open spec fn download_cache_name() -> Seq<char> {
    "_download"@
}

/// `s` without its last segment (what follows the last `'/'`) and without that
/// `'/'`; empty when `s` holds no `'/'`.
pub open spec fn before_last_segment(s: Seq<char>) -> Seq<char> {
    let n = s.len() - last_segment(s).len();
    if n > 0 {
        s.take(n - 1)
    } else {
        Seq::empty()
    }
}

/// The final component of a Unix path, as std's `Path::file_name` gives it:
/// trailing `'/'`s and `"."` components are skipped; a path that ends in
/// `".."`, or has no normal component left, has none.
pub open spec fn path_file_name(s: Seq<char>) -> Option<Seq<char>>
    decreases s.len(),
{
    let seg = last_segment(s);
    if seg.len() == 0 || seg == "."@ {
        if seg.len() < s.len() {
            path_file_name(before_last_segment(s))
        } else {
            None
        }
    } else if seg == ".."@ {
        None
    } else {
        Some(seg)
    }
}

/// The path `dir` joined with the relative name `name`, as std's
/// `Path::join` writes it: a `'/'` goes between them unless `dir` is empty or
/// already ends with one.
pub open spec fn join_relative(dir: Seq<char>, name: Seq<char>) -> Seq<char> {
    if dir.len() > 0 && dir.last() != '/' {
        dir + "/"@ + name
    } else {
        dir + name
    }
}

proof fn lemma_last_segment_props(s: Seq<char>)
    ensures
        last_segment(s).len() <= s.len(),
        last_segment(s) == s.skip(s.len() - last_segment(s).len()),
        last_segment(s).len() < s.len() ==> s[s.len() - last_segment(s).len() - 1] == '/',
        forall|i: int|
            s.len() - last_segment(s).len() <= i < s.len() ==> #[trigger] s[i] != '/',
    decreases s.len(),
{
    if s.len() > 0 && s.last() != '/' {
        lemma_last_segment_props(s.drop_last());
        assert(s.drop_last().skip(s.len() - 1 - last_segment(s.drop_last()).len()).push(s.last())
            =~= s.skip(s.len() - last_segment(s).len()));
        assert forall|i: int| s.len() - last_segment(s).len() <= i < s.len() implies #[trigger] s[i]
            != '/' by {
            if i < s.len() - 1 {
                assert(s.drop_last()[i] == s[i]);
            }
        }
    } else if s.len() > 0 {
        assert(s.skip(s.len() as int) =~= Seq::<char>::empty());
    } else {
        assert(s.skip(0) =~= s);
    }
}

/// Index of the first character after the last `'/'` at or before `end`
/// (zero when there is none), with the characters in `v`.
fn segment_start(v: &Vec<char>, end: usize) -> (k: usize)
    requires
        end <= v.len(),
    ensures
        k <= end,
        v@.take(end as int).len() - last_segment(v@.take(end as int)).len() == k,
{
    proof {
        lemma_last_segment_props(v@.take(end as int));
    }
    let mut k: usize = end;
    while k > 0 && v[k - 1] != '/'
        invariant
            k <= end <= v.len(),
            forall|i: int| k <= i < end ==> v@[i] != '/',
        decreases k,
    {
        k = k - 1;
    }
    proof {
        let t = v@.take(end as int);
        let seg = last_segment(t);
        let m = t.len() - seg.len();
        if k < m {
            assert(t[m - 1] == '/');
            assert(v@[m - 1] != '/');
        } else if k > m {
            assert(t[k - 1] != '/');
            assert(v@[k - 1] == '/');
        }
    }
    k
}

fn is_text(v: &Vec<char>, from: usize, to: usize, lit: &str) -> (b: bool)
    requires
        from <= to <= v.len(),
    ensures
        b == (v@.subrange(from as int, to as int) == lit@),
{
    let l = chars_of(lit);
    if l.len() != to - from {
        assert(v@.subrange(from as int, to as int).len() != lit@.len());
        return false;
    }
    let mut i: usize = 0;
    while i < l.len()
        invariant
            from <= to <= v.len(),
            l.len() == to - from,
            l@ == lit@,
            i <= l.len(),
            forall|j: int| 0 <= j < i ==> v@[from + j] == l@[j],
        decreases l.len() - i,
    {
        if v[from + i] != l[i] {
            assert(v@.subrange(from as int, to as int)[i as int] != lit@[i as int]);
            return false;
        }
        i = i + 1;
    }
    assert(v@.subrange(from as int, to as int) =~= lit@);
    true
}

/// The final component of a Unix path (see `path_file_name`).
pub fn file_name_of(path: &str) -> (r: Option<String>)
    ensures
        match r {
            Some(n) => path_file_name(path@) == Some(n@),
            None => path_file_name(path@) is None,
        },
{
    let v = chars_of(path);
    let mut end: usize = v.len();
    assert(v@.take(end as int) =~= path@);
    loop
        invariant
            end <= v.len(),
            v@ == path@,
            path_file_name(v@.take(end as int)) == path_file_name(path@),
        decreases end,
    {
        let ghost t = v@.take(end as int);
        let k = segment_start(&v, end);
        assert(last_segment(t) =~= v@.subrange(k as int, end as int)) by {
            lemma_last_segment_props(t);
        }
        if k == end || is_text(&v, k, end, ".") {
            if k > 0 {
                assert(before_last_segment(t) =~= v@.take(k - 1));
                end = k - 1;
            } else {
                return None;
            }
        } else if is_text(&v, k, end, "..") {
            return None;
        } else {
            let mut out = String::new();
            let mut j: usize = k;
            while j < end
                invariant
                    k <= j <= end <= v.len(),
                    out@ == v@.subrange(k as int, j as int),
                decreases end - j,
            {
                out.push(v[j]);
                assert(v@.subrange(k as int, (j + 1) as int) =~= v@.subrange(k as int, j as int).push(
                    v@[j as int],
                ));
                j = j + 1;
            }
            return Some(out);
        }
    }
}

/// Whether a path names the launcher's own download cache: its final
/// component is `_download`.
pub fn is_download_cache(path: &str) -> (b: bool)
    ensures
        b == (path_file_name(path@) == Some(download_cache_name())),
{
    match file_name_of(path) {
        Some(n) => crate::text::same_text(n.as_str(), "_download"),
        None => false,
    }
}

/// `dir` joined with the relative name `name` (see `join_relative`).
pub fn join_name(dir: &str, name: &str) -> (r: String)
    ensures
        r@ == join_relative(dir@, name@),
{
    let v = chars_of(dir);
    let mut r = String::from_str(dir);
    if v.len() > 0 && v[v.len() - 1] != '/' {
        r.append("/");
    }
    r.append(name);
    r
}

/// The download cache directory inside a game directory.
pub fn download_cache_in(game_dir: &str) -> (r: String)
    ensures
        r@ == join_relative(game_dir@, download_cache_name()),
{
    join_name(game_dir, "_download")
}

} // verus!
