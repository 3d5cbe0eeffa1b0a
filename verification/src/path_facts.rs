//! Paths as texts: their parts, and what the file system said about them.

use vstd::prelude::*;

use crate::json;
use crate::text;
use crate::text::{
    cat2, cat3, contains_text, ends_with, from_chars, join, same, slice_text, starts_with, to_chars,
};
use crate::text_map::TextMap;

verus! {

/// What the file system said: the canonical form of paths, and which canonical
/// paths are files. A path that it was not asked about is its own canonical form.
pub struct PathFacts {
    pub canonical: TextMap<String>,
    pub files: Vec<String>,
}

impl PathFacts {
    /// No path is listed twice.
    pub open spec fn wf(self) -> bool {
        self.canonical.wf()
    }

    /// The canonical form of a path.
    pub open spec fn canonical_of(self, path: Seq<char>) -> Seq<char> {
        if self.canonical@.contains_key(path) {
            self.canonical@[path]@
        } else {
            path
        }
    }

    /// The path, in its canonical form, is a file.
    pub open spec fn is_file_path(self, path: Seq<char>) -> bool {
        text::holds_text(self.files@, self.canonical_of(path))
    }

    /// Nothing is known.
    pub fn none() -> (r: Self)
        ensures
            r.wf(),
            forall|path: Seq<char>| r.canonical_of(path) == path,
            r.files@.len() == 0,
    {
        PathFacts { canonical: TextMap::new(), files: Vec::new() }
    }

    /// The canonical form of a path.
    pub fn canonical(&self, path: &str) -> (r: String)
        requires
            self.wf(),
        ensures
            r@ == self.canonical_of(path@),
    {
        match self.canonical.get(path) {
            Some(known) => known.clone(),
            None => path.to_owned(),
        }
    }

    /// Whether the path is a file.
    pub fn is_file(&self, path: &str) -> (r: bool)
        requires
            self.wf(),
        ensures
            r == self.is_file_path(path@),
    {
        let canonical = self.canonical(path);
        contains_text(&self.files, &canonical)
    }
}

/// The path without separators and `.` parts at its end; the root stays.
pub open spec fn without_tail(path: Seq<char>) -> Seq<char>
    decreases path.len(),
{
    if path.len() > 1 && path.last() == '/' {
        without_tail(path.drop_last())
    } else if path.len() > 1 && path.last() == '.' && path[path.len() - 2] == '/' {
        without_tail(path.drop_last())
    } else {
        path
    }
}

/// Where the last separator stands; -1 where there is none.
pub open spec fn last_separator(path: Seq<char>) -> int
    decreases path.len(),
{
    if path.len() == 0 {
        -1
    } else if path.last() == '/' {
        path.len() - 1
    } else {
        last_separator(path.drop_last())
    }
}

/// The directory that holds the last part of a path; empty where there is none.
pub open spec fn parent_of(path: Seq<char>) -> Seq<char> {
    let whole = without_tail(path);
    let at = last_separator(whole);
    if at < 0 || whole == seq!['/'] {
        Seq::empty()
    } else if at == 0 {
        seq!['/']
    } else {
        without_tail(whole.take(at))
    }
}

/// The last part of a path; empty for the root and where the last part leads
/// upwards.
pub open spec fn name_of(path: Seq<char>) -> Seq<char> {
    let whole = without_tail(path);
    let name = whole.skip(last_separator(whole) + 1);
    if name == seq!['.'] || name == seq!['.', '.'] {
        Seq::empty()
    } else {
        name
    }
}

fn tail_end(chars: &Vec<char>, end: usize) -> (r: usize)
    requires
        end <= chars.len(),
    ensures
        r <= end,
        chars@.take(r as int) == without_tail(chars@.take(end as int)),
{
    let mut to: usize = end;
    while to > 1 && (chars[to - 1] == '/' || (chars[to - 1] == '.' && chars[to - 2] == '/'))
        invariant
            to <= end <= chars.len(),
            without_tail(chars@.take(end as int)) == without_tail(chars@.take(to as int)),
        decreases to,
    {
        assert(chars@.take(to as int).drop_last() =~= chars@.take(to - 1));
        to -= 1;
    }
    to
}

proof fn last_separator_bounds(path: Seq<char>)
    ensures
        -1 <= last_separator(path) < path.len(),
    decreases path.len(),
{
    if path.len() > 0 && path.last() != '/' {
        last_separator_bounds(path.drop_last());
    }
}

/// One more than the position of the last separator.
fn after_last_separator(chars: &Vec<char>, end: usize) -> (r: usize)
    requires
        end <= chars.len(),
    ensures
        r == last_separator(chars@.take(end as int)) + 1,
        r <= end,
{
    let mut to: usize = end;
    while to > 0 && chars[to - 1] != '/'
        invariant
            to <= end <= chars.len(),
            last_separator(chars@.take(end as int)) == last_separator(chars@.take(to as int)),
        decreases to,
    {
        assert(chars@.take(to as int).drop_last() =~= chars@.take(to - 1));
        to -= 1;
    }
    to
}

/// The directory that holds the last part of a path.
pub fn dirname_of(path: &str) -> (r: String)
    ensures
        r@ == parent_of(path@),
{
    let chars = to_chars(path);
    let end: usize = tail_end(&chars, chars.len());
    assert(chars@.take(chars@.len() as int) =~= chars@);
    let after: usize = after_last_separator(&chars, end);
    let ghost whole = without_tail(path@);
    assert(whole == seq!['/'] ==> end == 1 && whole[0] == '/');
    if after == 0 {
        return String::new();
    }
    if end == 1 {
        assert(whole =~= seq!['/']) by {
            separator_at(whole);
            assert(whole.len() == 1);
        }
        return String::new();
    }
    if after == 1 {
        let r = slice_text(&chars, 0, 1);
        assert(chars@[0] == '/') by {
            separator_at(whole);
            assert(whole[0] == chars@[0]);
        }
        assert(r@ =~= seq!['/']);
        return r;
    }
    let stop: usize = tail_end(&chars, after - 1);
    assert(chars@.take(after - 1) =~= whole.take(after - 1));
    let r = slice_text(&chars, 0, stop);
    assert(r@ =~= chars@.take(stop as int));
    r
}

proof fn separator_at(path: Seq<char>)
    requires
        last_separator(path) >= 0,
    ensures
        last_separator(path) < path.len(),
        path[last_separator(path)] == '/',
    decreases path.len(),
{
    if path.len() > 0 && path.last() != '/' {
        separator_at(path.drop_last());
    }
}

/// The last part of a path.
pub fn basename_of(path: &str) -> (r: String)
    ensures
        r@ == name_of(path@),
{
    let chars = to_chars(path);
    let end: usize = tail_end(&chars, chars.len());
    assert(chars@.take(chars@.len() as int) =~= chars@);
    let after: usize = after_last_separator(&chars, end);
    let ghost whole = without_tail(path@);
    let r = slice_text(&chars, after, end);
    assert(r@ =~= whole.skip(last_separator(whole) + 1));
    let dot: bool = end - after == 1 && chars[after] == '.';
    let up: bool = end - after == 2 && chars[after] == '.' && chars[after + 1] == '.';
    proof {
        assert(r@.len() == end - after);
        assert(forall|i: int| 0 <= i < r@.len() ==> r@[i] == chars@[after + i]);
        if dot {
            assert(r@ =~= seq!['.']);
        }
        if up {
            assert(r@ =~= seq!['.', '.']);
        }
        if r@ == seq!['.'] {
            assert(r@[0] == '.');
        }
        if r@ == seq!['.', '.'] {
            assert(r@[0] == '.' && r@[1] == '.');
        }
    }
    if dot || up {
        return String::new();
    }
    r
}

/// The text without `suffix` at its end, where it ends so.
pub open spec fn without_suffix(text: Seq<char>, suffix: Seq<char>) -> Seq<char> {
    if text::ends(text, suffix) {
        text.take(text.len() - suffix.len())
    } else {
        text
    }
}

/// The text without `suffix` at its end, where it ends so.
pub fn strip_suffix(value: &str, suffix: &str) -> (r: String)
    ensures
        r@ == without_suffix(value@, suffix@),
{
    if !ends_with(value, suffix) {
        return value.to_owned();
    }
    let chars = to_chars(value);
    let part = to_chars(suffix);
    let r = slice_text(&chars, 0, chars.len() - part.len());
    assert(r@ =~= value@.take(value@.len() - suffix@.len()));
    r
}

/// A name below a directory.
pub open spec fn joined_path(dir: Seq<char>, name: Seq<char>) -> Seq<char> {
    if dir.len() == 0 || dir.last() == '/' {
        dir + name
    } else {
        dir + "/"@ + name
    }
}

/// A name below a directory.
pub fn join_dir(dir: &str, name: &str) -> (r: String)
    ensures
        r@ == joined_path(dir@, name@),
{
    proof {
        reveal_strlit("/");
        assert(text::ends(dir@, "/"@) == (dir@.len() > 0 && dir@.last() == '/')) by {
            if dir@.len() > 0 {
                let tail = dir@.subrange(dir@.len() - 1, dir@.len() as int);
                assert(tail.len() == 1 && tail[0] == dir@.last());
                if dir@.last() == '/' {
                    assert(tail =~= "/"@);
                } else {
                    assert("/"@[0] == '/');
                }
            }
        }
    }
    if dir.is_empty() || ends_with(dir, "/") {
        cat2(dir, name)
    } else {
        cat3(dir, "/", name)
    }
}

/// A path that does not begin at the root is taken from the current directory.
pub open spec fn resolved(path: Seq<char>, current_dir: Option<Seq<char>>) -> Seq<char> {
    if text::begins(path, "/"@) {
        path
    } else {
        match current_dir {
            Some(dir) => joined_path(dir, path),
            None => path,
        }
    }
}

/// A path that does not begin at the root is taken from the current directory.
pub fn resolve(path: &str, current_dir: Option<&str>) -> (r: String)
    ensures
        r@ == resolved(path@, json::opt_str_view(current_dir)),
{
    if starts_with(path, "/") {
        return path.to_owned();
    }
    match current_dir {
        Some(dir) => join_dir(dir, path),
        None => path.to_owned(),
    }
}

/// Whether the path is the root.
pub fn is_root(path: &str) -> (r: bool)
    ensures
        r == (without_tail(path@) == seq!['/']),
{
    let chars = to_chars(path);
    let end: usize = tail_end(&chars, chars.len());
    assert(chars@.take(chars@.len() as int) =~= chars@);
    let ghost whole = without_tail(path@);
    assert(whole == chars@.take(end as int));
    let r: bool = end == 1 && chars[0] == '/';
    proof {
        if r {
            assert(whole =~= seq!['/']);
        } else if whole == seq!['/'] {
            assert(whole.len() == 1 && whole[0] == '/');
        }
    }
    r
}

proof fn tail_is_no_longer(path: Seq<char>)
    ensures
        without_tail(path).len() <= path.len(),
    decreases path.len(),
{
    if path.len() > 1 && (path.last() == '/' || (path.last() == '.' && path[path.len() - 2]
        == '/')) {
        tail_is_no_longer(path.drop_last());
    }
}

/// The directory that holds a path's last part is shorter than the path.
pub proof fn parent_is_shorter(path: Seq<char>)
    requires
        path.len() > 0,
        without_tail(path) != seq!['/'],
    ensures
        parent_of(path).len() < path.len(),
{
    let whole = without_tail(path);
    tail_is_no_longer(path);
    last_separator_bounds(whole);
    let at = last_separator(whole);
    if at == 0 {
        if whole.len() == 1 {
            last_separator_is_one(whole);
            assert(whole =~= seq!['/']);
        }
    } else if at > 0 {
        tail_is_no_longer(whole.take(at));
    }
}

proof fn last_separator_is_one(path: Seq<char>)
    requires
        last_separator(path) >= 0,
    ensures
        last_separator(path) < path.len(),
        path[last_separator(path)] == '/',
    decreases path.len(),
{
    if path.len() > 0 && path.last() != '/' {
        last_separator_is_one(path.drop_last());
        assert(path.drop_last()[last_separator(path)] == path[last_separator(path)]);
    }
}

/// The parts of a path between its separators, but for the last one, and the last
/// one.
pub open spec fn split_path(path: Seq<char>) -> (Seq<Seq<char>>, Seq<char>)
    decreases path.len(),
{
    if path.len() == 0 {
        (Seq::empty(), Seq::empty())
    } else {
        let (done, current) = split_path(path.drop_last());
        if path.last() == '/' {
            (done.push(current), Seq::empty())
        } else {
            (done, current.push(path.last()))
        }
    }
}

/// The parts that are left after one more part: an empty part and `.` change
/// nothing, `..` takes the last part back, or stays where there is none and
/// `keep_up` says so.
pub open spec fn collapse_part(
    parts: Seq<Seq<char>>,
    part: Seq<char>,
    keep_up: bool,
) -> Seq<Seq<char>> {
    if part.len() == 0 || part == "."@ {
        parts
    } else if part == ".."@ {
        if parts.len() > 0 && parts.last() != ".."@ {
            parts.drop_last()
        } else if keep_up {
            parts.push(part)
        } else {
            parts
        }
    } else {
        parts.push(part)
    }
}

/// The parts that are left of these.
pub open spec fn collapse_parts(all: Seq<Seq<char>>, keep_up: bool) -> Seq<Seq<char>>
    decreases all.len(),
{
    if all.len() == 0 {
        Seq::empty()
    } else {
        collapse_part(collapse_parts(all.drop_last(), keep_up), all.last(), keep_up)
    }
}

/// The path without `.` and `..`, as far as that can be told from its text. A path
/// that does not begin at the root may lead upwards where `keep_up` says so.
pub open spec fn collapsed(path: Seq<char>, keep_up: bool) -> Seq<char> {
    let rooted = text::begins(path, "/"@);
    let (done, last) = split_path(path);
    let parts = collapse_parts(done.push(last), keep_up && !rooted);
    if rooted {
        "/"@ + text::joined(parts, "/"@)
    } else {
        text::joined(parts, "/"@)
    }
}

fn collapse_one(parts: &mut Vec<String>, part: String, keep_up: bool)
    ensures
        text::texts(final(parts)@) == collapse_part(text::texts(old(parts)@), part@, keep_up),
{
    let ghost before = parts@;
    proof {
        reveal_strlit(".");
        reveal_strlit("..");
    }
    if part.as_str().is_empty() || same(&part, ".") {
        return;
    }
    if same(&part, "..") {
        let count: usize = parts.len();
        if count > 0 && !same(&parts[count - 1], "..") {
            assert(text::texts(before).last() == before[count - 1]@);
            parts.pop();
            assert(text::texts(parts@) =~= text::texts(before).drop_last());
            return;
        }
        if count > 0 {
            assert(text::texts(before).last() == before[count - 1]@);
        }
        if keep_up {
            let ghost shown = part@;
            parts.push(part);
            assert(text::texts(parts@) =~= text::texts(before).push(shown));
        }
        return;
    }
    let ghost shown = part@;
    parts.push(part);
    assert(text::texts(parts@) =~= text::texts(before).push(shown));
}

/// The path without `.` and `..`, as far as that can be told from its text.
pub fn collapse(path: &str, keep_up: bool) -> (r: String)
    ensures
        r@ == collapsed(path@, keep_up),
{
    let rooted: bool = starts_with(path, "/");
    let keep: bool = keep_up && !rooted;
    let chars = to_chars(path);
    let mut parts: Vec<String> = Vec::new();
    let mut current: Vec<char> = Vec::new();
    let mut i: usize = 0;
    assert(chars@.take(0) =~= Seq::empty());
    assert(text::texts(parts@) =~= Seq::<Seq<char>>::empty());
    while i < chars.len()
        invariant
            i <= chars.len(),
            chars@ == path@,
            current@ == split_path(chars@.take(i as int)).1,
            text::texts(parts@) == collapse_parts(split_path(chars@.take(i as int)).0, keep),
        decreases chars.len() - i,
    {
        let ghost before = split_path(chars@.take(i as int));
        assert(chars@.take(i + 1).drop_last() =~= chars@.take(i as int));
        assert(chars@.take(i + 1).last() == chars@[i as int]);
        if chars[i] == '/' {
            let part = from_chars(&current);
            collapse_one(&mut parts, part, keep);
            current = Vec::new();
            proof {
                let more = before.0.push(before.1);
                assert(more.drop_last() =~= before.0);
                assert(more.last() == before.1);
                assert(current@ =~= Seq::<char>::empty());
            }
        } else {
            current.push(chars[i]);
        }
        i += 1;
    }
    assert(chars@.take(i as int) =~= chars@);
    let last = from_chars(&current);
    collapse_one(&mut parts, last, keep);
    proof {
        let (done, end) = split_path(path@);
        assert(done.push(end).drop_last() =~= done);
        assert(done.push(end).last() == end);
    }
    let whole = join(&parts, "/");
    if rooted {
        cat2("/", &whole)
    } else {
        whole
    }
}

/// A path that does not begin at the root is taken from a directory, and then
/// collapsed.
pub open spec fn lexically_resolved(
    path: Seq<char>,
    current_dir: Seq<char>,
    keep_up: bool,
) -> Seq<char> {
    collapsed(resolved(path, Some(current_dir)), keep_up)
}

/// A path that does not begin at the root is taken from a directory, and then
/// collapsed.
pub fn lexical_resolve(path: &str, current_dir: &str, keep_up: bool) -> (r: String)
    ensures
        r@ == lexically_resolved(path@, current_dir@, keep_up),
{
    let whole = resolve(path, Some(current_dir));
    collapse(&whole, keep_up)
}

} // verus!
