//! Paths inside a workspace: how a path that a caller names is resolved
//! under the directory of the workspace, so that it cannot lead out of it.

use vstd::prelude::*;
use vstd::string::StringExecFns;
use crate::error::Error;
use crate::strings::{str_eq, texts};

verus! {

/// The position of the first slash at or after `from`, or the end of the
/// text.
pub open spec fn next_slash(text: Seq<char>, from: int) -> int
    decreases text.len() - from,
{
    if from >= text.len() {
        text.len() as int
    } else if text[from] == '/' {
        from
    } else {
        next_slash(text, from + 1)
    }
}

/// Whether a part of a path counts as a component: empty parts and `.` never
/// do, `..` only where parent directories are kept.
pub open spec fn is_component(part: Seq<char>, keep_parent: bool) -> bool {
    part.len() > 0 && part != "."@ && (keep_parent || part != ".."@)
}

/// The components of the path from `from` on: its parts between slashes
/// that count as components.
pub open spec fn components_from(text: Seq<char>, from: int, keep_parent: bool) -> Seq<Seq<char>>
    decreases text.len() - from + 1,
{
    if from < 0 || from > text.len() {
        Seq::empty()
    } else {
        let end = next_slash(text, from);
        let part = text.subrange(from, end);
        let rest = if from <= end < text.len() {
            components_from(text, end + 1, keep_parent)
        } else {
            Seq::empty()
        };
        if is_component(part, keep_parent) {
            seq![part] + rest
        } else {
            rest
        }
    }
}

/// Whether the path starts at the root.
pub open spec fn is_absolute(path: Seq<char>) -> bool {
    path.len() > 0 && path[0] == '/'
}

/// The components, each after a slash.
pub open spec fn joined_path(parts: Seq<Seq<char>>) -> Seq<char>
    decreases parts.len(),
{
    if parts.len() == 0 {
        Seq::empty()
    } else {
        joined_path(parts.drop_last()) + "/"@ + parts.last()
    }
}

/// Whether the first sequence of components begins the second.
pub open spec fn begins(prefix: Seq<Seq<char>>, parts: Seq<Seq<char>>) -> bool {
    prefix.len() <= parts.len() && forall|i: int|
        0 <= i < prefix.len() ==> #[trigger] prefix[i] == parts[i]
}

/// The path that a named path resolves to under a directory, if it stays
/// under it. Parent directories in the named path are not followed but
/// dropped. A relative path is taken from the directory. An absolute path
/// is taken as it is, and must lie under the directory.
pub open spec fn resolved(dir: Seq<char>, path: Seq<char>) -> Option<Seq<char>> {
    let parts = components_from(path, 0, false);
    if !is_absolute(path) {
        Some(dir + joined_path(parts))
    } else if is_absolute(dir) && begins(components_from(dir, 0, true), parts) {
        Some(
            if parts.len() == 0 {
                "/"@
            } else {
                joined_path(parts)
            },
        )
    } else {
        None
    }
}

/// The components of a path.
pub fn components(path: &str, keep_parent: bool) -> (parts: Vec<String>)
    ensures
        texts(parts@) == components_from(path@, 0, keep_parent),
{
    let n = path.unicode_len();
    let mut parts: Vec<String> = Vec::new();
    let mut start: usize = 0;
    let mut done = false;
    assert(texts(parts@) + components_from(path@, 0, keep_parent) =~= components_from(
        path@,
        0,
        keep_parent,
    ));
    while !done
        invariant
            n == path@.len(),
            start <= n,
            !done ==> texts(parts@) + components_from(path@, start as int, keep_parent)
                == components_from(path@, 0, keep_parent),
            done ==> texts(parts@) == components_from(path@, 0, keep_parent),
        decreases n - start + (if done { 0int } else { 1int }),
    {
        let mut end: usize = start;
        while end < n && path.get_char(end) != '/'
            invariant
                n == path@.len(),
                start <= end <= n,
                next_slash(path@, start as int) == next_slash(path@, end as int),
            decreases n - end,
        {
            end += 1;
        }
        assert(next_slash(path@, start as int) == end);
        let part = path.substring_char(start, end);
        let ghost before = texts(parts@);
        let ghost rest = if end < n {
            components_from(path@, end + 1, keep_parent)
        } else {
            Seq::<Seq<char>>::empty()
        };
        assert(components_from(path@, start as int, keep_parent) == if is_component(
            part@,
            keep_parent,
        ) {
            seq![part@] + rest
        } else {
            rest
        });
        let kept = end > start && !str_eq(part, ".") && (keep_parent || !str_eq(part, ".."));
        assert(kept == is_component(part@, keep_parent));
        if kept {
            parts.push(part.to_owned());
            assert(texts(parts@) =~= before.push(part@));
            assert(texts(parts@) + rest =~= before + (seq![part@] + rest));
        }
        if end < n {
            start = end + 1;
        } else {
            assert(texts(parts@) + rest =~= texts(parts@));
            done = true;
        }
    }
    parts
}

/// The components, each after a slash.
pub fn join_path(parts: &Vec<String>) -> (path: String)
    ensures
        path@ == joined_path(texts(parts@)),
{
    let mut path = String::new();
    let mut i: usize = 0;
    assert(texts(parts@).subrange(0, 0) =~= Seq::<Seq<char>>::empty());
    while i < parts.len()
        invariant
            i <= parts.len(),
            path@ == joined_path(texts(parts@).subrange(0, i as int)),
        decreases parts.len() - i,
    {
        proof {
            let next = texts(parts@).subrange(0, i + 1);
            assert(next.drop_last() =~= texts(parts@).subrange(0, i as int));
            assert(next.last() == parts@[i as int]@);
        }
        path.append("/");
        path.append(parts[i].as_str());
        i += 1;
    }
    assert(texts(parts@).subrange(0, parts@.len() as int) =~= texts(parts@));
    path
}

/// Whether the first list of components begins the second.
pub fn components_begin(prefix: &Vec<String>, parts: &Vec<String>) -> (yes: bool)
    ensures
        yes == begins(texts(prefix@), texts(parts@)),
{
    if prefix.len() > parts.len() {
        return false;
    }
    let mut i: usize = 0;
    while i < prefix.len()
        invariant
            i <= prefix.len(),
            prefix.len() <= parts.len(),
            forall|j: int| 0 <= j < i ==> #[trigger] texts(prefix@)[j] == texts(parts@)[j],
        decreases prefix.len() - i,
    {
        if !str_eq(prefix[i].as_str(), parts[i].as_str()) {
            assert(texts(prefix@)[i as int] != texts(parts@)[i as int]);
            return false;
        }
        i += 1;
    }
    true
}

/// Whether the path starts at the root.
pub fn path_is_absolute(path: &str) -> (absolute: bool)
    ensures
        absolute == is_absolute(path@),
{
    path.unicode_len() > 0 && path.get_char(0) == '/'
}

/// Resolves a path under the directory of a workspace. A path that would
/// lie outside the directory is not allowed.
pub fn resolve_path(workspace_dir: &str, path: &str) -> (result: Result<String, Error>)
    ensures
        match resolved(workspace_dir@, path@) {
            Some(full) => result matches Ok(p) && p@ == full,
            None => result matches Err(Error::PathNotAllowed(refused)) && refused@ == path@,
        },
{
    let parts = components(path, false);
    if !path_is_absolute(path) {
        let mut full = workspace_dir.to_owned();
        full.append(join_path(&parts).as_str());
        return Ok(full);
    }
    if path_is_absolute(workspace_dir) && components_begin(&components(workspace_dir, true), &parts) {
        if parts.len() == 0 {
            Ok("/".to_owned())
        } else {
            Ok(join_path(&parts))
        }
    } else {
        Err(Error::PathNotAllowed(path.to_owned()))
    }
}

/// A path that was resolved under a directory is made of the directory and
/// components of the named path, none of which is a parent directory: it
/// does not lead out of the directory.
pub proof fn lemma_no_parent_components(path: Seq<char>, from: int, i: int)
    requires
        0 <= i < components_from(path, from, false).len(),
    ensures
        components_from(path, from, false)[i] != ".."@,
        components_from(path, from, false)[i] != "."@,
        components_from(path, from, false)[i].len() > 0,
        !components_from(path, from, false)[i].contains('/'),
    decreases path.len() - from + 1,
{
    if 0 <= from <= path.len() {
        let end = next_slash(path, from);
        lemma_next_slash(path, from);
        let part = path.subrange(from, end);
        if is_component(part, false) {
            if i > 0 {
                lemma_no_parent_components(path, end + 1, i - 1);
            } else {
                if part.contains('/') {
                    let k = choose|k: int| 0 <= k < part.len() && part[k] == '/';
                    assert(path[from + k] == '/');
                }
            }
        } else {
            lemma_no_parent_components(path, end + 1, i);
        }
    }
}

/// The next slash lies at or after `from`, and no slash lies between.
pub proof fn lemma_next_slash(text: Seq<char>, from: int)
    requires
        0 <= from <= text.len(),
    ensures
        from <= next_slash(text, from) <= text.len(),
        forall|k: int| from <= k < next_slash(text, from) ==> text[k] != '/',
        next_slash(text, from) < text.len() ==> text[next_slash(text, from)] == '/',
    decreases text.len() - from,
{
    if from < text.len() && text[from] != '/' {
        lemma_next_slash(text, from + 1);
    }
}

} // verus!
