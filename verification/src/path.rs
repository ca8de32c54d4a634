//! Paths as text.
//!
//! A path is the text that the operating system gave for it once resolved: components
//! separated by `/`, with nothing left to normalise. The functions here take a path apart
//! and put one together by its characters alone and never look at the file system.

use vstd::prelude::*;
use crate::text::{chars_of, slice_of, string_from};

verus! {

/// The index of the last `c` in `s`, or -1 if `s` holds none.
pub open spec fn last_index(s: Seq<char>, c: char) -> int
    decreases s.len(),
{
    if s.len() == 0 {
        -1
    } else if s.last() == c {
        s.len() - 1
    } else {
        last_index(s.drop_last(), c)
    }
}

/// The last component of `path`: what follows its last `/`.
pub open spec fn file_name(path: Seq<char>) -> Seq<char> {
    path.skip(last_index(path, '/') + 1)
}

/// The directory that holds the last component of `path`: what precedes its last `/`.
/// Directly under the root that is `/`; for a bare file name it is `./`.
pub open spec fn parent(path: Seq<char>) -> Seq<char> {
    let slash = last_index(path, '/');
    if slash < 0 {
        seq!['.', '/']
    } else if slash == 0 {
        seq!['/']
    } else {
        path.take(slash)
    }
}

/// The file name of `path` without its final extension: what precedes the last `.` of
/// the name. A name without a `.`, or with its only `.` in front, is its own stem.
/// A path that ends in `/`, `.` or `..` names no file and has no stem.
pub open spec fn file_stem(path: Seq<char>) -> Option<Seq<char>> {
    let name = file_name(path);
    let dot = last_index(name, '.');
    if name.len() == 0 || name == seq!['.'] || name == seq!['.', '.'] {
        None
    } else if dot <= 0 {
        Some(name)
    } else {
        Some(name.take(dot))
    }
}

/// `name` below the directory `base`.
pub open spec fn join(base: Seq<char>, name: Seq<char>) -> Seq<char> {
    if base.len() == 0 || base.last() == '/' {
        base + name
    } else {
        base + seq!['/'] + name
    }
}

/// What `last_index` finds: the place of a `c` with none after it.
pub proof fn lemma_last_index(s: Seq<char>, c: char)
    ensures
        -1 <= last_index(s, c) < s.len(),
        last_index(s, c) >= 0 ==> s[last_index(s, c)] == c,
        forall|j: int| last_index(s, c) < j < s.len() ==> s[j] != c,
    decreases s.len(),
{
    if s.len() > 0 && s.last() != c {
        let t = s.drop_last();
        lemma_last_index(t, c);
        assert forall|j: int| last_index(s, c) < j < s.len() implies s[j] != c by {
            if j < t.len() {
                assert(s[j] == t[j]);
            }
        }
    }
}

/// Where `c` stands between `head` and a `tail` that holds no `c`, that is its last place.
pub proof fn lemma_last_index_found(head: Seq<char>, c: char, tail: Seq<char>)
    requires
        !tail.contains(c),
    ensures
        last_index(head + seq![c] + tail, c) == head.len(),
    decreases tail.len(),
{
    let all = head + seq![c] + tail;
    if tail.len() == 0 {
        assert(all.last() == c);
    } else {
        assert(tail.contains(tail.last()));
        assert(all.last() == tail.last());
        assert(all.drop_last() == head + seq![c] + tail.drop_last());
        assert forall|i: int| 0 <= i < tail.drop_last().len() implies tail.drop_last()[i] != c by {
            assert(tail.contains(tail[i]));
        }
        lemma_last_index_found(head, c, tail.drop_last());
    }
}

/// A file name holds no `/`, and neither does a stem; a stem is never empty.
pub proof fn lemma_stem_is_a_component(path: Seq<char>)
    ensures
        !file_name(path).contains('/'),
        file_stem(path) matches Some(stem) ==> stem.len() > 0 && !stem.contains('/'),
{
    let name = file_name(path);
    lemma_last_index(path, '/');
    lemma_last_index(name, '.');
    assert forall|j: int| 0 <= j < name.len() implies name[j] != '/' by {
        assert(name[j] == path[last_index(path, '/') + 1 + j]);
    }
}

/// The index of the last `c` in `chars`, or `None` if it holds none.
pub fn find_last(chars: &Vec<char>, c: char) -> (r: Option<usize>)
    ensures
        match r {
            Some(i) => i == last_index(chars@, c) && i < chars.len(),
            None => last_index(chars@, c) == -1,
        },
{
    let mut i: usize = chars.len();
    assert(chars@.take(i as int) == chars@);
    while i > 0
        invariant
            i <= chars.len(),
            last_index(chars@, c) == last_index(chars@.take(i as int), c),
        decreases i,
    {
        if chars[i - 1] == c {
            return Some(i - 1);
        }
        assert(chars@.take(i as int).drop_last() == chars@.take(i - 1));
        i = i - 1;
    }
    None
}

/// The directory that holds the last component of the path.
pub fn parent_of(path: &Vec<char>) -> (r: Vec<char>)
    ensures
        r@ == parent(path@),
{
    match find_last(path, '/') {
        None => {
            let mut here: Vec<char> = Vec::new();
            here.push('.');
            here.push('/');
            assert(here@ == seq!['.', '/']);
            here
        },
        Some(slash) => {
            if slash == 0 {
                let mut root: Vec<char> = Vec::new();
                root.push('/');
                assert(root@ == seq!['/']);
                root
            } else {
                slice_of(path, 0, slash)
            }
        },
    }
}

/// The file name of the path without its final extension, if the path names a file.
pub fn stem_of(path: &Vec<char>) -> (r: Option<Vec<char>>)
    ensures
        match r {
            Some(stem) => file_stem(path@) == Some(stem@),
            None => file_stem(path@) is None,
        },
{
    let start: usize = match find_last(path, '/') {
        None => 0,
        Some(slash) => slash + 1,
    };
    let name = slice_of(path, start, path.len());
    assert(name@ == file_name(path@));
    let n = name.len();
    if n == 0 || (n == 1 && name[0] == '.') || (n == 2 && name[0] == '.' && name[1] == '.') {
        proof {
            if n == 1 {
                assert(name@ == seq!['.']);
            }
            if n == 2 {
                assert(name@ == seq!['.', '.']);
            }
        }
        return None;
    }
    proof {
        if name@ == seq!['.'] {
            assert(name@.len() == 1 && name@[0] == seq!['.'][0]);
        }
        if name@ == seq!['.', '.'] {
            assert(name@.len() == 2 && name@[0] == seq!['.', '.'][0] && name@[1] == seq![
                '.',
                '.',
            ][1]);
        }
    }
    match find_last(&name, '.') {
        None => Some(name),
        Some(dot) => {
            if dot == 0 {
                Some(name)
            } else {
                Some(slice_of(&name, 0, dot))
            }
        },
    }
}

/// `name` below the directory `base`.
pub fn join_path(base: &Vec<char>, name: &Vec<char>) -> (r: Vec<char>)
    ensures
        r@ == join(base@, name@),
{
    let mut out = slice_of(base, 0, base.len());
    assert(out@ == base@);
    if base.len() > 0 && base[base.len() - 1] != '/' {
        out.push('/');
    }
    let ghost head = out@;
    let mut i: usize = 0;
    while i < name.len()
        invariant
            i <= name.len(),
            out@ == head + name@.take(i as int),
        decreases name.len() - i,
    {
        out.push(name[i]);
        assert(name@.take(i + 1) == name@.take(i as int).push(name@[i as int]));
        i = i + 1;
    }
    assert(name@.take(name.len() as int) == name@);
    out
}

/// The path of `name` below the directory `base`.
pub fn child(base: &str, name: &str) -> (r: String)
    ensures
        r@ == join(base@, name@),
{
    string_from(&join_path(&chars_of(base), &chars_of(name)))
}

} // verus!
