//! Paths as text.
//!
//! A path is a sequence of characters in which `/` separates the segments.
//! The functions here cut such text and put it together; none of them
//! touches a file system.

use vstd::prelude::*;

verus! {

/// The index of the last `/` in `path`, or -1 where it holds none.
pub open spec fn last_slash(path: Seq<char>) -> int
    decreases path.len(),
{
    if path.len() == 0 {
        -1
    } else if path.last() == '/' {
        path.len() - 1
    } else {
        last_slash(path.drop_last())
    }
}

/// The final segment of `path`: what follows its last `/`, or all of it.
pub open spec fn base_name(path: Seq<char>) -> Seq<char> {
    path.subrange(last_slash(path) + 1, path.len() as int)
}

/// What precedes the final segment of `path`, the `/` included.
pub open spec fn dir_part(path: Seq<char>) -> Seq<char> {
    path.subrange(0, last_slash(path) + 1)
}

/// `name` below the directory `dir`.
pub open spec fn joined(dir: Seq<char>, name: Seq<char>) -> Seq<char> {
    if dir.len() == 0 || dir.last() == '/' {
        dir + name
    } else {
        dir + seq!['/'] + name
    }
}

/// The path that differs from `path` in its final segment only, which is
/// `name`.
pub open spec fn beside(path: Seq<char>, name: Seq<char>) -> Seq<char> {
    dir_part(path) + name
}

/// The index of the last `.` in `name`, or -1 where it holds none.
pub open spec fn last_dot(name: Seq<char>) -> int
    decreases name.len(),
{
    if name.len() == 0 {
        -1
    } else if name.last() == '.' {
        name.len() - 1
    } else {
        last_dot(name.drop_last())
    }
}

/// A file name without its extension: what precedes the last `.`, unless
/// that dot comes first or there is none.
pub open spec fn stem_of(name: Seq<char>) -> Seq<char> {
    if last_dot(name) <= 0 {
        name
    } else {
        name.subrange(0, last_dot(name))
    }
}

/// No segment boundary occurs in `name`.
pub open spec fn is_plain(name: Seq<char>) -> bool {
    forall|i: int| 0 <= i < name.len() ==> name[i] != '/'
}

/// `last_slash` is the one index that holds a `/` with none behind it.
pub proof fn lemma_last_slash(path: Seq<char>, at: int)
    requires
        -1 <= at < path.len(),
        at >= 0 ==> path[at] == '/',
        forall|j: int| at < j < path.len() ==> path[j] != '/',
    ensures
        last_slash(path) == at,
    decreases path.len(),
{
    if path.len() > 0 && path.last() != '/' {
        lemma_last_slash(path.drop_last(), at);
    }
}

/// Where `last_slash` points, and that nothing behind it is a `/`.
pub proof fn lemma_last_slash_bounds(path: Seq<char>)
    ensures
        -1 <= last_slash(path) < path.len(),
        last_slash(path) >= 0 ==> path[last_slash(path)] == '/',
        forall|j: int| last_slash(path) < j < path.len() ==> path[j] != '/',
    decreases path.len(),
{
    if path.len() > 0 && path.last() != '/' {
        let front = path.drop_last();
        lemma_last_slash_bounds(front);
        assert forall|j: int| last_slash(path) < j < path.len() implies path[j] != '/' by {
            if j < front.len() {
                assert(front[j] == path[j]);
            }
        }
    }
}

/// `last_dot` is the one index that holds a `.` with none behind it.
pub proof fn lemma_last_dot(name: Seq<char>, at: int)
    requires
        -1 <= at < name.len(),
        at >= 0 ==> name[at] == '.',
        forall|j: int| at < j < name.len() ==> name[j] != '.',
    ensures
        last_dot(name) == at,
    decreases name.len(),
{
    if name.len() > 0 && name.last() != '.' {
        lemma_last_dot(name.drop_last(), at);
    }
}

/// Where `last_dot` points.
pub proof fn lemma_last_dot_bounds(name: Seq<char>)
    ensures
        -1 <= last_dot(name) < name.len(),
        last_dot(name) >= 0 ==> name[last_dot(name)] == '.',
    decreases name.len(),
{
    if name.len() > 0 && name.last() != '.' {
        lemma_last_dot_bounds(name.drop_last());
    }
}

/// Two paths beside the same path are the same only if their names are.
pub proof fn lemma_beside_differs(path: Seq<char>, name: Seq<char>, other: Seq<char>)
    requires
        name != other,
    ensures
        beside(path, name) != beside(path, other),
{
    let dir = dir_part(path);
    if beside(path, name) == beside(path, other) {
        assert(name =~= (dir + name).subrange(dir.len() as int, (dir + name).len() as int));
        assert(other =~= (dir + other).subrange(dir.len() as int, (dir + other).len() as int));
    }
}

/// A path falls into its directory part and its final segment.
pub proof fn lemma_split(path: Seq<char>)
    ensures
        dir_part(path) + base_name(path) == path,
        is_plain(base_name(path)),
{
    lemma_last_slash_bounds(path);
    assert(dir_part(path) + base_name(path) =~= path);
}

/// The final segment of a path made with `joined` is the name it was made
/// with, as long as that name holds no `/`.
pub proof fn lemma_base_name_of_joined(dir: Seq<char>, name: Seq<char>)
    requires
        is_plain(name),
    ensures
        base_name(joined(dir, name)) == name,
        dir_part(joined(dir, name)) == joined(dir, Seq::<char>::empty()),
{
    let path = joined(dir, name);
    let at = path.len() - name.len() - 1;
    assert forall|j: int| at < j < path.len() implies path[j] != '/' by {
        assert(path[j] == name[j - at - 1]);
    }
    lemma_last_slash(path, at);
    assert(base_name(path) =~= name);
    assert(dir_part(path) =~= joined(dir, Seq::<char>::empty()));
}

/// Whether two texts hold the same characters.
pub fn same_text(a: &str, b: &str) -> (same: bool)
    ensures
        same == (a@ == b@),
{
    let n: usize = a.unicode_len();
    if b.unicode_len() != n {
        return false;
    }
    let mut i: usize = 0;
    while i < n
        invariant
            i <= n,
            n == a@.len(),
            n == b@.len(),
            forall|j: int| 0 <= j < i ==> a@[j] == b@[j],
        decreases n - i,
    {
        if a.get_char(i) != b.get_char(i) {
            return false;
        }
        i = i + 1;
    }
    assert(a@ =~= b@);
    true
}

/// Whether `text` begins with `prefix`.
pub fn starts_with(text: &str, prefix: &str) -> (found: bool)
    ensures
        found == prefix@.is_prefix_of(text@),
{
    let n: usize = prefix.unicode_len();
    if text.unicode_len() < n {
        return false;
    }
    let mut i: usize = 0;
    while i < n
        invariant
            i <= n,
            n == prefix@.len(),
            n <= text@.len(),
            forall|j: int| 0 <= j < i ==> text@[j] == prefix@[j],
        decreases n - i,
    {
        if text.get_char(i) != prefix.get_char(i) {
            assert(text@.subrange(0, n as int)[i as int] != prefix@[i as int]);
            return false;
        }
        i = i + 1;
    }
    assert(text@.subrange(0, n as int) =~= prefix@);
    true
}

/// `text` without its first `count` characters, or without all of them
/// where it has fewer.
pub fn skip(text: &str, count: usize) -> (rest: String)
    ensures
        count <= text@.len() ==> rest@ == text@.skip(count as int),
        count > text@.len() ==> rest@ == Seq::<char>::empty(),
{
    let n: usize = text.unicode_len();
    if count > n {
        String::new()
    } else {
        String::from_str(text.substring_char(count, n))
    }
}

/// `left` followed by `right`.
pub fn append(left: &str, right: &str) -> (both: String)
    ensures
        both@ == left@ + right@,
{
    String::from_str(left).concat(right)
}

/// The final segment of `path`.
pub fn file_name(path: &str) -> (name: String)
    ensures
        name@ == base_name(path@),
{
    let n: usize = path.unicode_len();
    let mut i: usize = n;
    while i > 0 && path.get_char(i - 1) != '/'
        invariant
            i <= n,
            n == path@.len(),
            forall|j: int| i <= j < n ==> path@[j] != '/',
        decreases i,
    {
        i = i - 1;
    }
    proof {
        lemma_last_slash(path@, i as int - 1);
    }
    String::from_str(path.substring_char(i, n))
}

/// The path next to `path` whose final segment is `name`.
pub fn with_file_name(path: &str, name: &str) -> (changed: String)
    ensures
        changed@ == beside(path@, name@),
{
    let n: usize = path.unicode_len();
    let mut i: usize = n;
    while i > 0 && path.get_char(i - 1) != '/'
        invariant
            i <= n,
            n == path@.len(),
            forall|j: int| i <= j < n ==> path@[j] != '/',
        decreases i,
    {
        i = i - 1;
    }
    proof {
        lemma_last_slash(path@, i as int - 1);
    }
    String::from_str(path.substring_char(0, i)).concat(name)
}

/// The path of `name` below the directory `dir`.
pub fn join(dir: &str, name: &str) -> (path: String)
    ensures
        path@ == joined(dir@, name@),
{
    let n: usize = dir.unicode_len();
    if n == 0 || dir.get_char(n - 1) == '/' {
        String::from_str(dir).concat(name)
    } else {
        proof {
            reveal_strlit("/");
            assert("/"@ =~= seq!['/']);
        }
        String::from_str(dir).concat("/").concat(name)
    }
}

/// The file name `name` without its extension.
pub fn file_stem(name: &str) -> (stem: String)
    ensures
        stem@ == stem_of(name@),
{
    let n: usize = name.unicode_len();
    let mut i: usize = n;
    while i > 0 && name.get_char(i - 1) != '.'
        invariant
            i <= n,
            n == name@.len(),
            forall|j: int| i <= j < n ==> name@[j] != '.',
        decreases i,
    {
        i = i - 1;
    }
    proof {
        lemma_last_dot(name@, i as int - 1);
    }
    if i <= 1 {
        String::from_str(name)
    } else {
        String::from_str(name.substring_char(0, i - 1))
    }
}

} // verus!
