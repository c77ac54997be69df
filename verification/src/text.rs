//! Searching names and taking paths apart, character by character.

use vstd::prelude::*;
use crate::model::{lemma_views_push, views};

verus! {

/// Whether `pat` stands in `hay` at position `at`.
pub open spec fn occurs_at(hay: Seq<char>, pat: Seq<char>, at: int) -> bool {
    &&& 0 <= at
    &&& at + pat.len() <= hay.len()
    &&& hay.subrange(at, at + pat.len()) == pat
}

/// Whether `pat` stands somewhere in `hay` as a run of neighbouring characters.
pub open spec fn contains_seq(hay: Seq<char>, pat: Seq<char>) -> bool {
    exists|at: int| occurs_at(hay, pat, at)
}

/// Where the file name of a `/`-separated path starts: behind its last `/`,
/// or at 0 where it has none.
pub open spec fn file_name_start(path: Seq<char>) -> int
    decreases path.len(),
{
    if path.len() == 0 {
        0
    } else if path.last() == '/' {
        path.len() as int
    } else {
        file_name_start(path.drop_last())
    }
}

/// The file name of a `/`-separated path: what follows its last `/`.
pub open spec fn file_name(path: Seq<char>) -> Seq<char> {
    path.subrange(file_name_start(path), path.len() as int)
}

/// The file name of a header's path without its `.h`, where it ends in `.h`.
pub open spec fn header_stem(path: Seq<char>) -> Option<Seq<char>> {
    let file = file_name(path);
    if file.len() >= 2 && file[file.len() - 2] == '.' && file[file.len() - 1] == 'h' {
        Some(file.take(file.len() - 2))
    } else {
        None
    }
}

/// The segments of a `/`-separated path, first segment first. A path
/// without `/` is one segment; between two neighbouring `/`, before a
/// leading `/` and behind a trailing `/` stands an empty segment.
pub open spec fn segments(path: Seq<char>) -> Seq<Seq<char>>
    decreases path.len(),
{
    let start = file_name_start(path);
    if 1 <= start <= path.len() {
        segments(path.take(start - 1)).push(file_name(path))
    } else {
        seq![path]
    }
}

/// The path that `parts` are the segments of: the parts with a `/` between
/// each two neighbours.
pub open spec fn joined(parts: Seq<Seq<char>>) -> Seq<char>
    decreases parts.len(),
{
    if parts.len() == 0 {
        Seq::empty()
    } else if parts.len() == 1 {
        parts[0]
    } else {
        joined(parts.drop_last()) + seq!['/'] + parts.last()
    }
}

/// The file name starts inside the path, holds no `/`, and has a `/` just
/// before it unless it starts the path.
pub proof fn lemma_file_name_bounds(path: Seq<char>)
    ensures
        0 <= file_name_start(path) <= path.len(),
        forall|j: int| file_name_start(path) <= j < path.len() ==> path[j] != '/',
        file_name_start(path) == 0 || path[file_name_start(path) - 1] == '/',
    decreases path.len(),
{
    if path.len() != 0 && path.last() != '/' {
        let front = path.drop_last();
        lemma_file_name_bounds(front);
        assert forall|j: int| file_name_start(path) <= j < path.len() implies path[j] != '/' by {
            if j < front.len() {
                assert(front[j] == path[j]);
            }
        }
    }
}

/// `start` is the one position with no `/` from it on and a `/` just before
/// it, unless it is 0.
pub proof fn lemma_file_name_start(path: Seq<char>, start: int)
    requires
        0 <= start <= path.len(),
        forall|j: int| start <= j < path.len() ==> path[j] != '/',
        start == 0 || path[start - 1] == '/',
    ensures
        file_name_start(path) == start,
    decreases path.len(),
{
    if path.len() == 0 {
    } else if path.last() == '/' {
    } else {
        lemma_file_name_start(path.drop_last(), start);
    }
}

/// Splitting loses nothing: a path has at least one segment, no segment
/// holds a `/`, and the segments joined by `/` are the path again.
pub proof fn lemma_segments_rebuild_path(path: Seq<char>)
    ensures
        segments(path).len() >= 1,
        forall|k: int, j: int|
            0 <= k < segments(path).len() && 0 <= j < segments(path)[k].len() ==> segments(
                path,
            )[k][j] != '/',
        joined(segments(path)) == path,
    decreases path.len(),
{
    let start = file_name_start(path);
    lemma_file_name_bounds(path);
    if 1 <= start <= path.len() {
        let front = path.take(start - 1);
        lemma_segments_rebuild_path(front);
        assert(segments(path).drop_last() =~= segments(front));
        assert(front + seq!['/'] + file_name(path) =~= path);
    }
}

/// One more character on a path: a `/` opens a new, empty segment; any other
/// character goes to the end of the last segment.
pub proof fn lemma_segments_push(path: Seq<char>, c: char)
    ensures
        segments(path).len() >= 1,
        c == '/' ==> segments(path.push(c)) == segments(path).push(Seq::empty()),
        c != '/' ==> segments(path.push(c)) == segments(path).drop_last().push(
            segments(path).last().push(c),
        ),
        c != '/' ==> file_name_start(path.push(c)) == file_name_start(path),
        segments(path).last() == file_name(path),
{
    let more = path.push(c);
    lemma_file_name_bounds(path);
    lemma_segments_rebuild_path(path);
    assert(more.drop_last() =~= path);
    if c == '/' {
        assert(more.take(more.len() - 1) =~= path);
        assert(file_name(more) =~= Seq::empty());
    } else {
        let start = file_name_start(path);
        assert(file_name(more) =~= file_name(path).push(c));
        if 1 <= start <= path.len() {
            assert(more.take(start - 1) =~= path.take(start - 1));
            assert(segments(path).drop_last() =~= segments(path.take(start - 1)));
        } else {
            assert(segments(path).drop_last() =~= Seq::empty());
            assert(file_name(path) =~= path);
            assert(segments(more) =~= Seq::<Seq<char>>::empty().push(more));
        }
    }
}

/// The characters of `s`, in order.
pub fn chars_of(s: &str) -> (out: Vec<char>)
    ensures
        out@ == s@,
{
    let mut out: Vec<char> = Vec::new();
    for c in it: s.chars()
        invariant
            it.seq() == s@,
            out@ == it.seq().take(it.index() as int),
    {
        out.push(c);
    }
    out
}

fn matches_at(hay: &Vec<char>, pat: &Vec<char>, at: usize) -> (found: bool)
    requires
        at + pat.len() <= hay.len(),
    ensures
        found == occurs_at(hay@, pat@, at as int),
{
    let mut j: usize = 0;
    while j < pat.len()
        invariant
            j <= pat.len(),
            at + pat.len() <= hay.len(),
            forall|k: int| 0 <= k < j ==> hay@[at + k] == pat@[k],
        decreases pat.len() - j,
    {
        if hay[at + j] != pat[j] {
            assert(hay@.subrange(at as int, at + pat.len())[j as int] == hay@[at + j]);
            return false;
        }
        j += 1;
    }
    assert(hay@.subrange(at as int, at + pat.len()) =~= pat@);
    true
}

/// Whether `pat` occurs in `hay`.
pub fn contains(hay: &str, pat: &str) -> (found: bool)
    ensures
        found == contains_seq(hay@, pat@),
{
    let text = chars_of(hay);
    let word = chars_of(pat);
    if word.len() > text.len() {
        return false;
    }
    let last: usize = text.len() - word.len();
    let mut at: usize = 0;
    loop
        invariant
            text@ == hay@,
            word@ == pat@,
            last == text.len() - word.len(),
            at <= last,
            forall|k: int| 0 <= k < at ==> !occurs_at(hay@, pat@, k),
        decreases last - at,
    {
        if matches_at(&text, &word, at) {
            return true;
        }
        if at == last {
            return false;
        }
        at += 1;
    }
}

/// The file name of a header's path without its `.h`.
///
/// `None` where the file name does not end in `.h`.
pub fn stem_of_header(path: &str) -> (res: Option<String>)
    ensures
        match res {
            Some(stem) => header_stem(path@) == Some(stem@),
            None => header_stem(path@) is None,
        },
{
    let chars = chars_of(path);
    let n: usize = chars.len();
    let mut start: usize = n;
    while start > 0 && chars[start - 1] != '/'
        invariant
            start <= n,
            n == chars.len(),
            forall|j: int| start <= j < n ==> chars@[j] != '/',
        decreases start,
    {
        start -= 1;
    }
    proof {
        lemma_file_name_start(path@, start as int);
    }
    if n - start >= 2 && chars[n - 2] == '.' && chars[n - 1] == 'h' {
        let stem = path.substring_char(start, n - 2);
        assert(stem@ =~= file_name(path@).take(file_name(path@).len() - 2));
        Some(stem.to_owned())
    } else {
        None
    }
}

/// The segments of a `/`-separated path, first segment first.
pub fn split_path(path: &str) -> (parts: Vec<String>)
    ensures
        views(parts@) == segments(path@),
{
    let chars = chars_of(path);
    let n: usize = chars.len();
    let mut parts: Vec<String> = Vec::new();
    let mut start: usize = 0;
    let mut i: usize = 0;
    proof {
        assert(path@.take(0) =~= Seq::empty());
        assert(path@.subrange(0, 0) =~= Seq::empty());
        assert(views(parts@) =~= Seq::empty());
        assert(segments(path@.take(0)) =~= views(parts@).push(path@.subrange(0, 0)));
    }
    while i < n
        invariant
            chars@ == path@,
            n == chars.len(),
            start <= i <= n,
            start == file_name_start(path@.take(i as int)),
            segments(path@.take(i as int)) == views(parts@).push(
                path@.subrange(start as int, i as int),
            ),
        decreases n - i,
    {
        proof {
            let seen = path@.take(i as int);
            lemma_segments_push(seen, path@[i as int]);
            assert(path@.take(i + 1) =~= seen.push(path@[i as int]));
            assert(segments(seen).drop_last() =~= views(parts@));
            assert(path@.subrange(start as int, i + 1) =~= path@.subrange(
                start as int,
                i as int,
            ).push(path@[i as int]));
            assert(path@.subrange(i + 1, i + 1) =~= Seq::empty());
        }
        if chars[i] == '/' {
            let part = path.substring_char(start, i).to_owned();
            proof {
                lemma_views_push(parts@, part);
            }
            parts.push(part);
            start = i + 1;
        }
        i += 1;
    }
    let part = path.substring_char(start, n).to_owned();
    proof {
        lemma_views_push(parts@, part);
        assert(path@.take(n as int) =~= path@);
    }
    parts.push(part);
    parts
}

} // verus!
