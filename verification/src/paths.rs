//! Path text: joining a relative or absolute part onto a directory, and the
//! parent directory of a path, both following `std::path` on Unix.
use vstd::prelude::*;
use crate::text::{chars_of, string_of};

verus! {

/// `PathBuf::push` on Unix, on path text: an absolute `part` replaces `base`;
/// otherwise `part` is appended, with a `/` in between unless `base` is empty
/// or already ends with one.
pub open spec fn path_join(base: Seq<char>, part: Seq<char>) -> Seq<char> {
    if part.len() > 0 && part[0] == '/' {
        part
    } else if base.len() == 0 || base.last() == '/' {
        base + part
    } else {
        base + seq!['/'] + part
    }
}

/// Joins `part` onto `base` as `PathBuf::push` does on Unix.
pub fn join_path(base: &str, part: &str) -> (res: String)
    ensures
        res@ == path_join(base@, part@),
{
    let b = chars_of(base);
    let p = chars_of(part);
    if p.len() > 0 && p[0] == '/' {
        return string_of(&p, 0, p.len());
    }
    let mut out = string_of(&b, 0, b.len());
    if b.len() > 0 && b[b.len() - 1] != '/' {
        crate::text::push_char(&mut out, '/');
    }
    let mut i: usize = 0;
    let ghost head = out@;
    while i < p.len()
        invariant
            i <= p.len(),
            out@ == head + p@.subrange(0, i as int),
        decreases p.len() - i,
    {
        crate::text::push_char(&mut out, p[i]);
        i = i + 1;
        assert(out@ =~= head + p@.subrange(0, i as int));
    }
    assert(p@.subrange(0, p.len() as int) =~= p@);
    assert(b@.subrange(0, b.len() as int) =~= b@);
    out
}

/// What `std::path::Path::parent` gives for the path text `path`.
pub uninterp spec fn parent_of(path: Seq<char>) -> Option<Seq<char>>;

/// The path ends in a name: its text after the last `/` is neither empty
/// nor `.`.
pub open spec fn ends_in_name(path: Seq<char>) -> bool {
    exists|i: int|
        0 <= i < path.len() && (i == 0 || path[i - 1] == '/') && (forall|k: int|
            i <= k < path.len() ==> path[k] != '/') && path.subrange(i, path.len() as int) != seq!['.']
}

/// A name has no `/`, is not empty and is not `.`, as the name of a
/// directory entry.
pub open spec fn is_entry_name(name: Seq<char>) -> bool {
    &&& name.len() > 0
    &&& forall|k: int| 0 <= k < name.len() ==> name[k] != '/'
    &&& name != seq!['.']
}

/// Joining an entry name onto a directory gives a path that ends in that name.
pub proof fn lemma_join_ends_in_name(dir: Seq<char>, name: Seq<char>)
    requires
        is_entry_name(name),
    ensures
        ends_in_name(path_join(dir, name)),
{
    let p = path_join(dir, name);
    let i = p.len() - name.len();
    assert(p.subrange(i, p.len() as int) =~= name);
    assert(forall|k: int| i <= k < p.len() ==> p[k] == name[k - i]);
}

/// Calls `std::path::Path::parent` on `path`. The result is the name
/// `parent_of` applied to the path text. `Path::parent` gives `None` only for
/// an empty path or one that ends in the root, so a path that ends in a name
/// has a parent. The parent is the path without its last component and the
/// separator before it, as a prefix of the given text, so its conversion back
/// to text loses nothing; for a directory that ends in a name, joined with an
/// entry name, that is the directory itself.
#[verifier::external_body]
pub(crate) fn path_parent(path: &str) -> (res: Option<String>)
    ensures
        parent_of(path@) == (match res {
            Some(p) => Some(p@),
            None => None::<Seq<char>>,
        }),
        ends_in_name(path@) ==> res is Some,
        forall|dir: Seq<char>, name: Seq<char>|
            #![trigger path_join(dir, name)]
            path@ == path_join(dir, name) && ends_in_name(dir) && is_entry_name(name)
                ==> res is Some && res->0@ == dir,
{
    match std::path::Path::new(path).parent() {
        Some(p) => Some(p.to_string_lossy().into_owned()),
        None => None,
    }
}

} // verus!
