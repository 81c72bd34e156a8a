//! Paths as texts: joining, resolving, and finding the parent directory.
//!
//! A path is a sequence of components joined by `/`. Nothing here touches
//! the file system.

use vstd::prelude::*;
use crate::text::{chars_of, ends_with, has_prefix, has_suffix, starts_with};

verus! {

/// Whether the path starts at the root of the file system.
pub open spec fn is_absolute(path: Seq<char>) -> bool {
    starts_with(path, "/"@)
}

/// The path of `name` inside the directory `dir`.
pub open spec fn joined(dir: Seq<char>, name: Seq<char>) -> Seq<char> {
    if dir.len() == 0 {
        name
    } else if ends_with(dir, "/"@) {
        dir + name
    } else {
        dir + "/"@ + name
    }
}

/// The path that `path` names when it is read in the directory `base`: itself
/// where it is absolute, and its place inside `base` where it is relative.
pub open spec fn resolved(base: Seq<char>, path: Seq<char>) -> Seq<char> {
    if is_absolute(path) {
        path
    } else {
        joined(base, path)
    }
}

/// Number of slashes at the end of `path`.
pub open spec fn trailing_slashes(path: Seq<char>) -> nat
    decreases path.len(),
{
    if path.len() > 0 && path.last() == '/' {
        1 + trailing_slashes(path.drop_last())
    } else {
        0
    }
}

/// The path without the slashes at its end.
pub open spec fn trimmed(path: Seq<char>) -> Seq<char> {
    path.take(path.len() - trailing_slashes(path))
}

/// Position of the last slash in `path`, or `-1` where it holds none.
pub open spec fn last_slash(path: Seq<char>) -> int
    decreases path.len(),
{
    if path.len() == 0 {
        -1
    } else if path.last() == '/' {
        path.len() - 1
    } else {
        last_slash(path.drop_last())
    }
}

/// The directory that holds `path`, where the text of the path shows one.
///
/// The root has no parent, and neither has the empty path or a path of one
/// relative component. The parent of a path directly under the root is `/`.
pub open spec fn parent_of(path: Seq<char>) -> Option<Seq<char>> {
    let body = trimmed(path);
    let cut = last_slash(body);
    if body.len() == 0 || cut < 0 {
        None
    } else {
        let head = trimmed(body.take(cut));
        if head.len() == 0 {
            Some("/"@)
        } else {
            Some(head)
        }
    }
}

/// Whether a file of this name is a markdown document: the name ends in
/// `.md`, with something before the dot.
pub open spec fn has_markdown_extension(name: Seq<char>) -> bool {
    name.len() >= 4 && ends_with(name, ".md"@)
}

/// Whether an entry of this name is hidden: the name begins with `~`.
pub open spec fn is_hidden_name(name: Seq<char>) -> bool {
    starts_with(name, "~"@)
}

/// The path to which the document at `file` is exported: `.html` in place
/// of a final `.md`, or after the whole name where there is none.
pub open spec fn export_target(file: Seq<char>) -> Seq<char> {
    if ends_with(file, ".md"@) {
        file.take(file.len() - 3) + ".html"@
    } else {
        file + ".html"@
    }
}

/// The slashes at the end of a path are counted from its end: they are all
/// slashes, and the character before them is none.
pub proof fn lemma_trailing_slashes(path: Seq<char>, end: int)
    requires
        0 <= end <= path.len(),
        forall|k: int| end <= k < path.len() ==> #[trigger] path[k] == '/',
        end > 0 ==> path[end - 1] != '/',
    ensures
        trailing_slashes(path) == path.len() - end,
        trimmed(path) == path.take(end),
    decreases path.len() - end,
{
    if end < path.len() {
        let shorter = path.drop_last();
        assert(path.last() == path[path.len() - 1]);
        assert forall|k: int| end <= k < shorter.len() implies #[trigger] shorter[k] == '/' by {
            assert(shorter[k] == path[k]);
        }
        if end > 0 {
            assert(shorter[end - 1] == path[end - 1]);
        }
        lemma_trailing_slashes(shorter, end);
    } else {
        if path.len() > 0 {
            assert(path.last() == path[end - 1]);
        }
    }
}

/// The last slash of a path is a slash with none after it.
pub proof fn lemma_last_slash(path: Seq<char>, cut: int)
    requires
        -1 <= cut < path.len(),
        forall|k: int| cut < k < path.len() ==> #[trigger] path[k] != '/',
        cut >= 0 ==> path[cut] == '/',
    ensures
        last_slash(path) == cut,
    decreases path.len(),
{
    if path.len() > 0 {
        assert(path.last() == path[path.len() - 1]);
        if cut < path.len() - 1 {
            let shorter = path.drop_last();
            assert forall|k: int| cut < k < shorter.len() implies #[trigger] shorter[k] != '/' by {
                assert(shorter[k] == path[k]);
            }
            if cut >= 0 {
                assert(shorter[cut] == path[cut]);
            }
            lemma_last_slash(shorter, cut);
        }
    }
}

/// Inside one directory, different names lie at different paths.
pub proof fn lemma_joined_is_injective(dir: Seq<char>, a: Seq<char>, b: Seq<char>)
    requires
        joined(dir, a) == joined(dir, b),
    ensures
        a == b,
{
    if dir.len() == 0 {
    } else if ends_with(dir, "/"@) {
        assert((dir + a).skip(dir.len() as int) =~= a);
        assert((dir + b).skip(dir.len() as int) =~= b);
    } else {
        let head = dir + "/"@;
        assert((head + a).skip(head.len() as int) =~= a);
        assert((head + b).skip(head.len() as int) =~= b);
    }
}

/// Inside a directory that has a name, nothing lies at the path `..`.
pub proof fn lemma_joined_is_not_the_parent(dir: Seq<char>, name: Seq<char>)
    requires
        dir.len() > 0,
    ensures
        joined(dir, name) != ".."@,
{
    reveal_strlit("..");
    reveal_strlit("/");
    let path = joined(dir, name);
    if path == ".."@ {
        if ends_with(dir, "/"@) {
            assert("/"@ =~= seq!['/']);
            assert(dir.skip(dir.len() - 1)[0] == '/');
            assert(dir[dir.len() - 1] == '/');
            assert(path.len() == 2);
            assert(dir.len() <= 2);
            assert(path[0] == '.' && path[1] == '.');
            assert(path[dir.len() - 1] == dir[dir.len() - 1]);
            assert(false);
        } else {
            assert("/"@ =~= seq!['/']);
            assert(path.len() == dir.len() + 1 + name.len());
            assert(dir.len() == 1);
            assert(path[1] == '/');
            assert(false);
        }
    }
}

/// The root of the file system has no parent, however many slashes spell
/// it, and neither has the empty path.
pub proof fn lemma_root_has_no_parent(path: Seq<char>)
    requires
        forall|k: int| 0 <= k < path.len() ==> #[trigger] path[k] == '/',
    ensures
        parent_of(path) is None,
{
    lemma_trailing_slashes(path, 0);
}

/// Whether the path starts at the root of the file system.
pub fn absolute(path: &str) -> (r: bool)
    ensures
        r == is_absolute(path@),
{
    has_prefix(path, "/")
}

/// The path of `name` inside the directory `dir`.
pub fn join(dir: &str, name: &str) -> (p: String)
    ensures
        p@ == joined(dir@, name@),
{
    if dir.is_empty() {
        return String::from_str(name);
    }
    let mut p = String::from_str(dir);
    if !has_suffix(dir, "/") {
        p.append("/");
    }
    p.append(name);
    p
}

/// Reads `path` in the directory `base`.
pub fn resolve(base: &str, path: &str) -> (p: String)
    ensures
        p@ == resolved(base@, path@),
{
    if absolute(path) {
        String::from_str(path)
    } else {
        join(base, path)
    }
}

/// Length of `chars[..end]` without the slashes at its end.
fn trimmed_length(chars: &Vec<char>, end: usize) -> (e: usize)
    requires
        end <= chars.len(),
    ensures
        e <= end,
        trimmed(chars@.take(end as int)) == chars@.take(e as int),
{
    let mut e = end;
    while e > 0 && chars[e - 1] == '/'
        invariant
            e <= end,
            end <= chars.len(),
            forall|k: int| e <= k < end ==> #[trigger] chars@[k] == '/',
        decreases e,
    {
        e -= 1;
    }
    proof {
        let path = chars@.take(end as int);
        assert forall|k: int| e <= k < path.len() implies #[trigger] path[k] == '/' by {
            assert(path[k] == chars@[k]);
        }
        if e > 0 {
            assert(path[e - 1] == chars@[e - 1]);
        }
        lemma_trailing_slashes(path, e as int);
        assert(path.take(e as int) =~= chars@.take(e as int));
    }
    e
}

/// The directory that holds `path`, or `None` where the text shows none:
/// at the root, for the empty path and for one relative component.
pub fn parent(path: &str) -> (p: Option<String>)
    ensures
        p is Some == parent_of(path@) is Some,
        p matches Some(d) ==> parent_of(path@) == Some(d@),
{
    let chars = chars_of(path);
    let n = chars.len();
    assert(chars@.take(n as int) =~= path@);
    let end = trimmed_length(&chars, n);
    if end == 0 {
        return None;
    }
    let mut cut = end;
    while cut > 0 && chars[cut - 1] != '/'
        invariant
            cut <= end,
            end <= chars.len(),
            forall|k: int| cut <= k < end ==> #[trigger] chars@[k] != '/',
        decreases cut,
    {
        cut -= 1;
    }
    let ghost body = chars@.take(end as int);
    proof {
        assert forall|k: int| cut - 1 < k < body.len() implies #[trigger] body[k] != '/' by {
            assert(body[k] == chars@[k]);
        }
        if cut > 0 {
            assert(body[cut - 1] == chars@[cut - 1]);
        }
        lemma_last_slash(body, cut - 1);
    }
    if cut == 0 {
        return None;
    }
    let head = trimmed_length(&chars, cut - 1);
    proof {
        assert(body.take(cut - 1) =~= chars@.take(cut - 1));
    }
    if head == 0 {
        Some(String::from_str("/"))
    } else {
        proof {
            assert(chars@.take(head as int) =~= path@.subrange(0, head as int));
        }
        Some(path.substring_char(0, head).to_owned())
    }
}

/// Whether a file of this name is a markdown document.
pub fn markdown_extension(name: &str) -> (r: bool)
    ensures
        r == has_markdown_extension(name@),
{
    name.unicode_len() >= 4 && has_suffix(name, ".md")
}

/// Whether an entry of this name is hidden.
pub fn hidden_name(name: &str) -> (r: bool)
    ensures
        r == is_hidden_name(name@),
{
    has_prefix(name, "~")
}

/// The path to which the document at `file` is exported.
pub fn export_path(file: &str) -> (p: String)
    ensures
        p@ == export_target(file@),
{
    let mut p = if has_suffix(file, ".md") {
        proof {
            reveal_strlit(".md");
        }
        let n = file.unicode_len();
        proof {
            assert(file@.subrange(0, n - 3) =~= file@.take(n - 3));
        }
        file.substring_char(0, n - 3).to_owned()
    } else {
        String::from_str(file)
    };
    p.append(".html");
    p
}

} // verus!
