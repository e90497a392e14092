//! File paths as text: joining a directory and a name, and the last
//! component of a path.

use vstd::prelude::*;
use vstd::string::*;
use crate::binaries::Platform;
use crate::text::same_text;

verus! {

/// Whether a character parts the components of a path on a platform.
pub open spec fn is_separator(c: char, platform: Platform) -> bool {
    c == '/' || (platform == Platform::Windows && c == '\\')
}

/// The separator that a platform writes between a directory and a name.
pub open spec fn separator(platform: Platform) -> Seq<char> {
    match platform {
        Platform::Windows => "\\"@,
        _ => "/"@,
    }
}

/// The path of `name` in `dir`: the two with a separator between them,
/// unless `dir` is empty or ends with one.
pub open spec fn joined(dir: Seq<char>, name: Seq<char>, platform: Platform) -> Seq<char> {
    if dir.len() == 0 || is_separator(dir.last(), platform) {
        dir + name
    } else {
        dir + separator(platform) + name
    }
}

/// Joins a directory and a name into one path.
pub fn join_path(dir: &str, name: &str, platform: Platform) -> (path: String)
    ensures
        path@ == joined(dir@, name@, platform),
{
    let n = dir.unicode_len();
    let mut path = dir.to_owned();
    let closed = if n == 0 {
        true
    } else {
        let last = dir.get_char(n - 1);
        last == '/' || (matches!(platform, Platform::Windows) && last == '\\')
    };
    if !closed {
        match platform {
            Platform::Windows => path.append("\\"),
            _ => path.append("/"),
        }
    }
    path.append(name);
    assert(path@ =~= joined(dir@, name@, platform));
    path
}

/// Whether a character parts the components of an archive member's name.
pub open spec fn is_slash(c: char) -> bool {
    c == '/' || c == '\\'
}

/// Where the last component of a path begins: behind its last slash, or at
/// its start where it has none.
pub open spec fn base_start(path: Seq<char>) -> int
    decreases path.len(),
{
    if path.len() == 0 {
        0
    } else if is_slash(path.last()) {
        path.len() as int
    } else {
        base_start(path.drop_last())
    }
}

/// The last component of a path.
pub open spec fn base_name(path: Seq<char>) -> Seq<char> {
    path.skip(base_start(path))
}

/// The last component begins inside the path, and holds no slash.
pub proof fn lemma_base_start_bounds(path: Seq<char>)
    ensures
        0 <= base_start(path) <= path.len(),
        forall|i: int| base_start(path) <= i < path.len() ==> !is_slash(#[trigger] path[i]),
        base_start(path) > 0 ==> is_slash(path[base_start(path) - 1]),
    decreases path.len(),
{
    if path.len() > 0 && !is_slash(path.last()) {
        lemma_base_start_bounds(path.drop_last());
        assert forall|i: int| base_start(path) <= i < path.len() implies !is_slash(
            #[trigger] path[i],
        ) by {
            if i < path.len() - 1 {
                assert(path[i] == path.drop_last()[i]);
            }
        }
        if base_start(path) > 0 {
            assert(path[base_start(path) - 1] == path.drop_last()[base_start(path) - 1]);
        }
    }
}

/// Whether the last component of `path` is `name`.
pub fn has_base_name(path: &str, name: &str) -> (r: bool)
    ensures
        r == (base_name(path@) == name@),
{
    let n = path.unicode_len();
    let mut start: usize = n;
    while start > 0 && !is_slash_char(path.get_char(start - 1))
        invariant
            start <= n,
            n == path@.len(),
            forall|i: int| start <= i < n ==> !is_slash(#[trigger] path@[i]),
        decreases start,
    {
        start -= 1;
    }
    proof {
        let b = base_start(path@);
        lemma_base_start_bounds(path@);
        if b < start {
            assert(is_slash(path@[start - 1]));
        }
        if b > start {
            assert(is_slash(path@[b - 1]));
        }
        assert(b == start);
    }
    let tail = path.substring_char(start, n);
    same_text(tail, name)
}

/// Whether a character parts the components of an archive member's name.
fn is_slash_char(c: char) -> (r: bool)
    ensures
        r == is_slash(c),
{
    c == '/' || c == '\\'
}

} // verus!
