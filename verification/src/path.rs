//! Paths as sequences of characters, read by components as a Unix system
//! reads them: segments between separators `/`, where repeated separators,
//! separators at the end and segments that are a single dot do not count, and
//! `..` names no file.

use vstd::prelude::*;
use vstd::string::*;
use crate::text::str_eq;

verus! {

/// The index of the last `mark` in `text`, or -1 where there is none.
pub open spec fn last_index_of(text: Seq<char>, mark: char) -> int
    decreases text.len(),
{
    if text.len() == 0 {
        -1
    } else if text.last() == mark {
        text.len() - 1
    } else {
        last_index_of(text.drop_last(), mark)
    }
}

/// `path` ends in a segment that is a single dot.
pub open spec fn ends_in_dot_segment(path: Seq<char>) -> bool {
    path.len() > 0 && path.last() == '.' && (path.len() == 1 || path[path.len() - 2] == '/')
}

/// The length of `path` up to the end of its last component: separators and
/// single-dot segments at the end of the path are left out. It is 0 where the
/// path has no component but a root or a dot.
pub open spec fn trimmed_len(path: Seq<char>) -> nat
    decreases path.len(),
{
    if path.len() > 0 && (path.last() == '/' || ends_in_dot_segment(path)) {
        trimmed_len(path.drop_last())
    } else {
        path.len()
    }
}

/// `path` up to the end of its last component.
pub open spec fn trim_path(path: Seq<char>) -> Seq<char> {
    path.take(trimmed_len(path) as int)
}

/// The last component of `path`: the last segment that is neither empty nor a
/// single dot. It is empty where the path has none.
pub open spec fn last_component(path: Seq<char>) -> Seq<char> {
    let trimmed = trim_path(path);
    trimmed.skip(last_index_of(trimmed, '/') + 1)
}

/// The path names a file: it has a last component, and that is not `..`.
pub open spec fn has_file_name(path: Seq<char>) -> bool {
    trimmed_len(path) > 0 && last_component(path) != ".."@
}

/// A file name without its extension: the part before the last dot. A name
/// without a dot, one whose only dot is its first character, and `..` are
/// their own stem.
pub open spec fn spec_file_stem(name: Seq<char>) -> Seq<char> {
    if name == ".."@ || last_index_of(name, '.') <= 0 {
        name
    } else {
        name.take(last_index_of(name, '.'))
    }
}

/// The stem of the file name of `path`.
pub open spec fn spec_extract_filename(path: Seq<char>) -> Seq<char> {
    spec_file_stem(last_component(path))
}

/// The path without its last component, and without what does not count
/// before it. A path of one component has the empty path as parent, or the
/// root or the dot that it starts with. A path without a component has no
/// parent, unless it starts with a dot: that dot is then what is left out.
pub open spec fn spec_parent_dir(path: Seq<char>) -> Option<Seq<char>> {
    let trimmed = trim_path(path);
    let cut = last_index_of(trimmed, '/');
    if trimmed.len() == 0 {
        if path.len() > 0 && path[0] == '.' {
            Some(Seq::<char>::empty())
        } else {
            None
        }
    } else if cut < 0 {
        Some(Seq::<char>::empty())
    } else if trimmed_len(trimmed.take(cut)) > 0 {
        Some(trim_path(trimmed.take(cut)))
    } else if path[0] == '/' {
        Some("/"@)
    } else {
        Some("."@)
    }
}

/// `name` starts at the root.
pub open spec fn is_absolute(name: Seq<char>) -> bool {
    name.len() > 0 && name[0] == '/'
}

/// `name` placed under the directory `base`: a name that starts at the root
/// stands for itself, any other is put behind `base` and one separator.
pub open spec fn spec_join(base: Seq<char>, name: Seq<char>) -> Seq<char> {
    if is_absolute(name) || base.len() == 0 {
        name
    } else if base.last() == '/' {
        base + name
    } else {
        base + "/"@ + name
    }
}

/// The `plugins` directory beside the binary at `binary`.
pub open spec fn spec_plugins_dir(binary: Seq<char>) -> Seq<char> {
    spec_join(spec_parent_dir(binary).unwrap(), "plugins"@)
}

/// Where the last `mark` of a text stands: on a `mark`, with none after it.
pub proof fn lemma_last_index_of(text: Seq<char>, mark: char)
    ensures
        -1 <= last_index_of(text, mark) < text.len(),
        last_index_of(text, mark) >= 0 ==> text[last_index_of(text, mark)] == mark,
        forall|i: int| last_index_of(text, mark) < i < text.len() ==> text[i] != mark,
    decreases text.len(),
{
    if text.len() > 0 && text.last() != mark {
        let shorter = text.drop_last();
        lemma_last_index_of(shorter, mark);
        assert forall|i: int| last_index_of(text, mark) < i < text.len() implies text[i]
            != mark by {
            if i < shorter.len() {
                assert(shorter[i] == text[i]);
            }
        }
    }
}

/// What trimming leaves: a prefix that ends in a character of a component,
/// followed by separators and dots only.
pub proof fn lemma_trimmed_len(path: Seq<char>)
    ensures
        trimmed_len(path) <= path.len(),
        trimmed_len(path) > 0 ==> path[trimmed_len(path) - 1] != '/' && !ends_in_dot_segment(
            trim_path(path),
        ),
        forall|i: int| trimmed_len(path) <= i < path.len() ==> path[i] == '/' || path[i] == '.',
    decreases path.len(),
{
    if path.len() > 0 && (path.last() == '/' || ends_in_dot_segment(path)) {
        let shorter = path.drop_last();
        lemma_trimmed_len(shorter);
        assert(trim_path(path) =~= trim_path(shorter));
        assert forall|i: int| trimmed_len(path) <= i < path.len() implies path[i] == '/'
            || path[i] == '.' by {
            if i < shorter.len() {
                assert(shorter[i] == path[i]);
            }
        }
    } else {
        assert(trim_path(path) =~= path);
    }
}

/// The last component of a path that has one is not empty, holds no
/// separator and is not a single dot.
pub proof fn lemma_last_component(path: Seq<char>)
    requires
        trimmed_len(path) > 0,
    ensures
        last_component(path).len() > 0,
        forall|i: int| 0 <= i < last_component(path).len() ==> last_component(path)[i] != '/',
        last_component(path) != "."@,
{
    reveal_strlit(".");
    lemma_trimmed_len(path);
    let trimmed = trim_path(path);
    lemma_last_index_of(trimmed, '/');
    let start = last_index_of(trimmed, '/') + 1;
    let component = last_component(path);
    if component.len() == 1 && component[0] == '.' {
        assert(trimmed.last() == component[0]);
        if trimmed.len() > 1 {
            assert(trimmed[trimmed.len() - 2] == trimmed[start - 1]);
        }
        assert(ends_in_dot_segment(trimmed));
    }
}

/// The last `mark` of a text made of two parts is the last one of the second
/// part, or else the last one of the first part.
pub proof fn lemma_last_index_of_concat(head: Seq<char>, tail: Seq<char>, mark: char)
    ensures
        last_index_of(head + tail, mark) == if last_index_of(tail, mark) >= 0 {
            head.len() + last_index_of(tail, mark)
        } else {
            last_index_of(head, mark)
        },
    decreases tail.len(),
{
    if tail.len() == 0 {
        assert(head + tail =~= head);
    } else {
        assert((head + tail).drop_last() =~= head + tail.drop_last());
        assert((head + tail).last() == tail.last());
        if tail.last() != mark {
            lemma_last_index_of_concat(head, tail.drop_last(), mark);
        }
    }
}

/// A text without `mark` has no last `mark`.
pub proof fn lemma_last_index_of_none(text: Seq<char>, mark: char)
    requires
        forall|i: int| 0 <= i < text.len() ==> text[i] != mark,
    ensures
        last_index_of(text, mark) == -1,
    decreases text.len(),
{
    if text.len() > 0 {
        let shorter = text.drop_last();
        assert forall|i: int| 0 <= i < shorter.len() implies shorter[i] != mark by {
            assert(shorter[i] == text[i]);
        }
        lemma_last_index_of_none(shorter, mark);
    }
}

/// The parent of a name placed under a directory is that directory, where
/// the path of the directory ends in a component and the name is a single
/// segment that does not end in a dot.
pub proof fn lemma_parent_of_joined(dir: Seq<char>, name: Seq<char>)
    requires
        dir.len() > 0,
        dir.last() != '/',
        !ends_in_dot_segment(dir),
        name.len() > 0,
        name.last() != '.',
        forall|i: int| 0 <= i < name.len() ==> name[i] != '/',
    ensures
        spec_join(dir, name) == dir + "/"@ + name,
        spec_parent_dir(spec_join(dir, name)) == Some(dir),
{
    reveal_strlit("/");
    let joined = dir + "/"@ + name;
    assert(joined.last() == name.last());
    assert(trimmed_len(joined) == joined.len());
    assert(trim_path(joined) =~= joined);
    lemma_last_index_of_none(name, '/');
    lemma_last_index_of_concat(dir + "/"@, name, '/');
    assert((dir + "/"@).last() == '/');
    assert(last_index_of(dir + "/"@, '/') == dir.len());
    assert(joined.take(dir.len() as int) =~= dir);
    assert(trimmed_len(dir) == dir.len());
    assert(trim_path(dir) =~= dir);
}

/// The last `mark` among the characters of `text`.
fn find_last(text: &str, mark: char) -> (found: Option<usize>)
    ensures
        match found {
            Some(at) => at as int == last_index_of(text@, mark),
            None => last_index_of(text@, mark) == -1,
        },
{
    let total = text.unicode_len();
    let mut found: Option<usize> = None;
    let mut seen: usize = 0;
    for c in it: text.chars()
        invariant
            it.seq() == text@,
            total == text@.len(),
            seen == it.index(),
            seen <= total,
            match found {
                Some(at) => at as int == last_index_of(text@.take(seen as int), mark),
                None => last_index_of(text@.take(seen as int), mark) == -1,
            },
    {
        proof {
            let longer = text@.take(seen + 1);
            assert(longer.drop_last() =~= text@.take(seen as int));
            assert(longer.last() == c);
        }
        if c == mark {
            found = Some(seen);
        }
        seen = seen + 1;
    }
    proof {
        assert(text@.take(seen as int) =~= text@);
    }
    found
}

/// The number of characters of `path` up to the end of its last component.
fn measure_trimmed(path: &str) -> (len: usize)
    ensures
        len == trimmed_len(path@),
{
    let total = path.unicode_len();
    let mut len: usize = 0;
    let mut seen: usize = 0;
    let mut at_start = true;
    for c in it: path.chars()
        invariant
            it.seq() == path@,
            total == path@.len(),
            seen == it.index(),
            seen <= total,
            len == trimmed_len(path@.take(seen as int)),
            at_start == (seen == 0 || path@[seen - 1] == '/'),
    {
        proof {
            let longer = path@.take(seen + 1);
            assert(longer.drop_last() =~= path@.take(seen as int));
            assert(longer.last() == c);
            if seen > 0 {
                assert(longer[longer.len() - 2] == path@[seen - 1]);
            }
        }
        seen = seen + 1;
        if c != '/' && !(c == '.' && at_start) {
            len = seen;
        }
        at_start = c == '/';
    }
    proof {
        assert(path@.take(seen as int) =~= path@);
    }
    len
}

/// The last component of `path`, if it has one.
fn find_last_component(path: &str) -> (found: Option<String>)
    ensures
        match found {
            Some(component) => trimmed_len(path@) > 0 && component@ == last_component(path@),
            None => trimmed_len(path@) == 0,
        },
{
    let end = measure_trimmed(path);
    proof {
        lemma_trimmed_len(path@);
    }
    if end == 0 {
        return None;
    }
    let trimmed = path.substring_char(0, end);
    let cut = find_last(trimmed, '/');
    proof {
        lemma_last_index_of(trimmed@, '/');
    }
    let start: usize = match cut {
        Some(at) => at + 1,
        None => 0,
    };
    proof {
        assert(trimmed@.subrange(start as int, end as int) =~= trimmed@.skip(start as int));
    }
    Some(String::from_str(trimmed.substring_char(start, end)))
}

/// The stem of a file name: the name without its extension.
pub fn file_stem(name: &str) -> (stem: String)
    ensures
        stem@ == spec_file_stem(name@),
{
    if str_eq(name, "..") {
        return String::from_str(name);
    }
    match find_last(name, '.') {
        Some(dot) => {
            if dot == 0 {
                String::from_str(name)
            } else {
                proof {
                    lemma_last_index_of(name@, '.');
                }
                String::from_str(name.substring_char(0, dot))
            }
        },
        None => String::from_str(name),
    }
}

/// Whether `path` names a file, that is whether a file name can be extracted
/// from it.
pub fn names_a_file(path: &str) -> (named: bool)
    ensures
        named == has_file_name(path@),
{
    match find_last_component(path) {
        Some(component) => !str_eq(component.as_str(), ".."),
        None => false,
    }
}

/// The name under which the object at `path` is stored: the file name of the
/// path without its extension, `hello` for `a/b/c/hello.zstd`.
pub fn extract_filename(path: &str) -> (name: String)
    requires
        has_file_name(path@),
    ensures
        name@ == spec_extract_filename(path@),
{
    match find_last_component(path) {
        Some(component) => file_stem(component.as_str()),
        None => vstd::pervasive::unreached(),
    }
}

/// The directory that holds what `path` names, if there is one.
pub fn parent_dir(path: &str) -> (parent: Option<String>)
    ensures
        match spec_parent_dir(path@) {
            Some(dir) => parent matches Some(found) && found@ == dir,
            None => parent is None,
        },
{
    let total = path.unicode_len();
    let end = measure_trimmed(path);
    proof {
        lemma_trimmed_len(path@);
    }
    if end == 0 {
        if total > 0 && path.get_char(0) == '.' {
            return Some(String::new());
        }
        return None;
    }
    let trimmed = path.substring_char(0, end);
    match find_last(trimmed, '/') {
        None => Some(String::new()),
        Some(cut) => {
            proof {
                lemma_last_index_of(trimmed@, '/');
            }
            let before = trimmed.substring_char(0, cut);
            let keep = measure_trimmed(before);
            proof {
                lemma_trimmed_len(before@);
            }
            if keep > 0 {
                Some(String::from_str(before.substring_char(0, keep)))
            } else if path.get_char(0) == '/' {
                Some(String::from_str("/"))
            } else {
                Some(String::from_str("."))
            }
        },
    }
}

/// `name` placed under the directory `base`.
pub fn join(base: &str, name: &str) -> (joined: String)
    ensures
        joined@ == spec_join(base@, name@),
{
    let len = base.unicode_len();
    if len == 0 || (name.unicode_len() > 0 && name.get_char(0) == '/') {
        return String::from_str(name);
    }
    let mut joined = String::from_str(base);
    if base.get_char(len - 1) != '/' {
        joined.append("/");
    }
    joined.append(name);
    joined
}

} // verus!
