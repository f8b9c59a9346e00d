//! The package name declared in a `PKGBUILD` script: the value of the first
//! line of the form `pkgname=<value>` that is not a comment.
use vstd::prelude::*;
use crate::text::{chars_of, matches_at, string_of};

verus! {

/// Index of the first `c` in `s` at or after `i`, or `s.len()` if there is none.
pub open spec fn first_index_of(s: Seq<char>, c: char, i: int) -> int
    decreases s.len() - i,
{
    if i >= s.len() || s[i] == c {
        i
    } else {
        first_index_of(s, c, i + 1)
    }
}

/// `first_index_of` lies between `i` and the end and finds no `c` before it.
pub proof fn lemma_first_index_of(s: Seq<char>, c: char, i: int)
    requires
        0 <= i <= s.len(),
    ensures
        i <= first_index_of(s, c, i) <= s.len(),
        forall|k: int| i <= k < first_index_of(s, c, i) ==> s[k] != c,
        first_index_of(s, c, i) < s.len() ==> s[first_index_of(s, c, i)] == c,
    decreases s.len() - i,
{
    if i < s.len() && s[i] != c {
        lemma_first_index_of(s, c, i + 1);
    }
}

/// The key that names the package.
pub open spec fn pkgname_key() -> Seq<char> {
    seq!['p', 'k', 'g', 'n', 'a', 'm', 'e']
}

/// The package name declared by one line: a line that does not start with
/// `#` and whose text before its first `=` is `pkgname` declares the text
/// after that `=`.
pub open spec fn line_value(line: Seq<char>) -> Option<Seq<char>> {
    let k = first_index_of(line, '=', 0);
    if line.len() > 0 && line[0] == '#' {
        None
    } else if k < line.len() && line.subrange(0, k) == pkgname_key() {
        Some(line.subrange(k + 1, line.len() as int))
    } else {
        None
    }
}

/// The line that starts at `i`, as `str::lines` gives it: up to the next
/// `\n`, without a `\r` that directly precedes that `\n`.
pub open spec fn line_at(s: Seq<char>, i: int) -> Seq<char> {
    let e = first_index_of(s, '\n', i);
    if e < s.len() && e > i && s[e - 1] == '\r' {
        s.subrange(i, e - 1)
    } else {
        s.subrange(i, e)
    }
}

/// The first package name declared by the lines that start at `i` or later.
pub open spec fn declared_name_from(s: Seq<char>, i: int) -> Option<Seq<char>>
    decreases s.len() - i,
{
    if i < 0 || i >= s.len() {
        None
    } else {
        // a further line starts after the `\n` that ends this one, if there is one
        let e = first_index_of(s, '\n', i);
        match line_value(line_at(s, i)) {
            Some(v) => Some(v),
            None => if i <= e < s.len() { declared_name_from(s, e + 1) } else { None },
        }
    }
}

/// The package name that a `PKGBUILD` text declares, if any.
pub open spec fn declared_name(text: Seq<char>) -> Option<Seq<char>> {
    declared_name_from(text, 0)
}

/// Searching in a text behind a prefix finds the same place, shifted.
proof fn lemma_first_index_of_shift(pre: Seq<char>, s: Seq<char>, c: char, i: int)
    requires
        0 <= i <= s.len(),
    ensures
        first_index_of(pre + s, c, pre.len() + i) == pre.len() + first_index_of(s, c, i),
    decreases s.len() - i,
{
    if i < s.len() && s[i] != c {
        assert((pre + s)[pre.len() + i] == s[i]);
        lemma_first_index_of_shift(pre, s, c, i + 1);
    } else if i < s.len() {
        assert((pre + s)[pre.len() + i] == s[i]);
    }
}

/// The lines of a text behind a prefix declare what they declare alone.
proof fn lemma_declared_name_shift(pre: Seq<char>, s: Seq<char>, i: int)
    requires
        0 <= i,
    ensures
        declared_name_from(pre + s, pre.len() + i) == declared_name_from(s, i),
    decreases s.len() - i,
{
    if i < s.len() {
        let t = pre + s;
        let k = pre.len() as int;
        lemma_first_index_of_shift(pre, s, '\n', i);
        lemma_first_index_of(s, '\n', i);
        let e = first_index_of(s, '\n', i);
        assert(t.subrange(k + i, k + e) =~= s.subrange(i, e));
        if e > i {
            assert(t.subrange(k + i, k + e - 1) =~= s.subrange(i, e - 1));
            assert(t[k + e - 1] == s[e - 1]);
        }
        assert(line_at(t, k + i) == line_at(s, i));
        if i <= e < s.len() {
            lemma_declared_name_shift(pre, s, e + 1);
        }
    }
}

/// A comment line declares nothing: putting one in front of a text leaves
/// the declared package name as it is.
pub proof fn lemma_comment_line_is_skipped(comment: Seq<char>, rest: Seq<char>)
    requires
        comment.len() > 0,
        comment[0] == '#',
        forall|k: int| 0 <= k < comment.len() ==> comment[k] != '\n',
    ensures
        declared_name(comment + seq!['\n'] + rest) == declared_name(rest),
{
    let pre = comment + seq!['\n'];
    let s = pre + rest;
    assert(comment + seq!['\n'] + rest == s);
    lemma_first_index_of(s, '\n', 0);
    assert(s[comment.len() as int] == '\n');
    assert forall|k: int| 0 <= k < comment.len() implies s[k] != '\n' by {
        assert(s[k] == comment[k]);
    }
    let e = first_index_of(s, '\n', 0);
    assert(e == comment.len());
    assert(line_at(s, 0)[0] == '#');
    lemma_declared_name_shift(pre, rest, 0);
}

/// Searches `c` in `v` from `i` on.
fn find_from(v: &Vec<char>, c: char, i: usize) -> (e: usize)
    requires
        i <= v.len(),
    ensures
        e == first_index_of(v@, c, i as int),
{
    let mut j = i;
    proof {
        lemma_first_index_of(v@, c, i as int);
    }
    while j < v.len() && v[j] != c
        invariant
            i <= j <= v.len(),
            first_index_of(v@, c, i as int) == first_index_of(v@, c, j as int),
        decreases v.len() - j,
    {
        j = j + 1;
    }
    j
}

/// The characters `v[from..to]`.
fn slice_of(v: &Vec<char>, from: usize, to: usize) -> (out: Vec<char>)
    requires
        from <= to <= v.len(),
    ensures
        out@ == v@.subrange(from as int, to as int),
{
    let mut out: Vec<char> = Vec::new();
    let mut i = from;
    while i < to
        invariant
            from <= i <= to <= v.len(),
            out@ == v@.subrange(from as int, i as int),
        decreases to - i,
    {
        out.push(v[i]);
        i = i + 1;
        assert(out@ =~= v@.subrange(from as int, i as int));
    }
    out
}

/// The package name that one line declares (see `line_value`).
fn value_of_line(line: &Vec<char>) -> (r: Option<String>)
    ensures
        line_value(line@) == (match r {
            Some(s) => Some(s@),
            None => None::<Seq<char>>,
        }),
{
    if line.len() > 0 && line[0] == '#' {
        return None;
    }
    let k = find_from(line, '=', 0);
    if k >= line.len() {
        return None;
    }
    let key: Vec<char> = vec!['p', 'k', 'g', 'n', 'a', 'm', 'e'];
    let head = slice_of(line, 0, k);
    if head.len() == key.len() && matches_at(&head, 0, &key) {
        assert(head@.subrange(0, head@.len() as int) =~= head@);
        assert(key@ =~= pkgname_key());
        Some(string_of(line, k + 1, line.len()))
    } else {
        proof {
            if line@.subrange(0, k as int) == pkgname_key() {
                assert(head@.subrange(0, head@.len() as int) =~= head@);
                assert(key@ =~= pkgname_key());
            }
        }
        None
    }
}

/// Reads the package name from the text of a `PKGBUILD` script: the value
/// after `pkgname=` on the first non-comment line that declares it.
pub fn package_name(text: &str) -> (r: Option<String>)
    ensures
        declared_name(text@) == (match r {
            Some(s) => Some(s@),
            None => None::<Seq<char>>,
        }),
{
    let v = chars_of(text);
    let mut i: usize = 0;
    while i < v.len()
        invariant
            i <= v.len(),
            v@ == text@,
            declared_name(text@) == declared_name_from(v@, i as int),
        decreases v.len() - i,
    {
        let e = find_from(&v, '\n', i);
        proof {
            lemma_first_index_of(v@, '\n', i as int);
        }
        let end = if e < v.len() && e > i && v[e - 1] == '\r' { e - 1 } else { e };
        let line = slice_of(&v, i, end);
        let r = value_of_line(&line);
        if r.is_some() {
            return r;
        }
        if e >= v.len() {
            return None;
        }
        i = e + 1;
    }
    None
}

} // verus!
