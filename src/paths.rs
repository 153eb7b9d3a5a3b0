//! Where the library lives and how its documents are named.
use vstd::prelude::*;

verus! {

/// Where the last component of `s[..e]` ends once trailing `/` and `/.`
/// are skipped, as `Path::file_name` does.
pub open spec fn name_end(s: Seq<char>, e: int) -> int
    decreases e,
{
    if e > 0 && s[e - 1] == '/' {
        name_end(s, e - 1)
    } else if e >= 2 && s[e - 1] == '.' && s[e - 2] == '/' {
        name_end(s, e - 2)
    } else {
        e
    }
}

/// Where the component that ends at `e` starts: just after the last `/`
/// before `e`, or 0.
pub open spec fn component_start(s: Seq<char>, e: int) -> int
    decreases e,
{
    if e <= 0 {
        0
    } else if s[e - 1] == '/' {
        e
    } else {
        component_start(s, e - 1)
    }
}

/// Where the stem of `s[a..e]` ends: at its first `.`, or at `e`.
pub open spec fn stem_end(s: Seq<char>, a: int, e: int) -> int
    decreases e - a,
{
    if a >= e {
        e
    } else if s[a] == '.' {
        a
    } else {
        stem_end(s, a + 1, e)
    }
}

/// The path has a file name: its last component is neither empty nor `.`
/// nor `..`.
pub open spec fn has_file_name(s: Seq<char>) -> bool {
    let e = name_end(s, s.len() as int);
    let a = component_start(s, e);
    &&& a < e
    &&& !(e - a == 1 && s[a] == '.')
    &&& !(e - a == 2 && s[a] == '.' && s[a + 1] == '.')
}

/// The name a document is known by: the file name of its path (trailing
/// `/` and `/.` skipped), up to its first `.`. `trees/get_tip.yaml`,
/// `get_tip.0.1.yaml` and `trees/get_tip.yaml/` all give `get_tip`.
pub fn name_from_path(path: &str) -> (r: String)
    requires
        has_file_name(path@),
    ensures
        r@ == path@.subrange(
            component_start(path@, name_end(path@, path@.len() as int)),
            stem_end(
                path@,
                component_start(path@, name_end(path@, path@.len() as int)),
                name_end(path@, path@.len() as int),
            ),
        ),
{
    let ghost s = path@;
    let n = path.unicode_len();
    let mut e: usize = n;
    loop
        invariant
            0 <= e <= n,
            n == s.len(),
            s == path@,
            name_end(s, e as int) == name_end(s, n as int),
        ensures
            e == name_end(s, n as int),
        decreases e,
    {
        if e > 0 && path.get_char(e - 1) == '/' {
            e = e - 1;
        } else if e >= 2 && path.get_char(e - 1) == '.' && path.get_char(e - 2) == '/' {
            e = e - 2;
        } else {
            break;
        }
    }
    let mut a: usize = e;
    loop
        invariant
            0 <= a <= e,
            e <= n,
            n == s.len(),
            s == path@,
            component_start(s, a as int) == component_start(s, e as int),
        ensures
            a == component_start(s, e as int),
        decreases a,
    {
        if a > 0 && path.get_char(a - 1) != '/' {
            a = a - 1;
        } else {
            break;
        }
    }
    let mut b: usize = a;
    loop
        invariant
            a <= b <= e,
            e <= n,
            n == s.len(),
            s == path@,
            stem_end(s, b as int, e as int) == stem_end(s, a as int, e as int),
        ensures
            b == stem_end(s, a as int, e as int),
        decreases e - b,
    {
        if b < e && path.get_char(b) != '.' {
            b = b + 1;
        } else {
            break;
        }
    }
    let stem = path.substring_char(a, b);
    String::from_str(stem)
}

/// The directory the library is read from by default.
pub fn root_library_path() -> (r: String)
    ensures
        r@ == "/tmp/tcr/genodatalib/library"@,
{
    String::from_str("/tmp/tcr/genodatalib/library")
}

} // verus!
