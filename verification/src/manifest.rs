//! The manifest that a script carries.
//!
//! A script holds its manifest between two marker lines. Only the text is looked at:
//! each line is trimmed, the first line that then equals the opening marker starts the
//! block, and the first line after it that equals the closing marker ends it. What lies
//! between, trimmed line by line and joined by line feeds, is the manifest.

use vstd::prelude::*;
use crate::failure::{Failure, FailureModel};
use crate::text::{chars_of, join, join_range, lines, lines_of, same_text, trim, trimmed, views};

verus! {

/// The line that opens the manifest block.
pub open spec fn opening() -> Seq<char> {
    "/* Cargo.toml"@
}

/// The line that closes the manifest block.
pub open spec fn closing() -> Seq<char> {
    "*/"@
}

/// The lines of `text`, each trimmed.
pub open spec fn rows(text: Seq<char>) -> Seq<Seq<char>> {
    Seq::new(lines(text).len(), |i: int| trim(lines(text)[i]))
}

/// The rows that follow the first row equal to `mark`; none where no row equals it.
pub open spec fn after_first(rows: Seq<Seq<char>>, mark: Seq<char>) -> Seq<Seq<char>>
    decreases rows.len(),
{
    if rows.len() == 0 {
        Seq::empty()
    } else if rows.first() == mark {
        rows.drop_first()
    } else {
        after_first(rows.drop_first(), mark)
    }
}

/// The rows that precede the first row equal to `mark`; all of them where no row equals it.
pub open spec fn before_first(rows: Seq<Seq<char>>, mark: Seq<char>) -> Seq<Seq<char>>
    decreases rows.len(),
{
    if rows.len() == 0 || rows.first() == mark {
        Seq::empty()
    } else {
        seq![rows.first()] + before_first(rows.drop_first(), mark)
    }
}

/// The rows of the manifest block of `text`: those between the opening marker and the
/// closing marker that follows it, or the end of the text.
pub open spec fn block(text: Seq<char>) -> Seq<Seq<char>> {
    before_first(after_first(rows(text), opening()), closing())
}

/// The manifest of `text`: the rows of its block joined by line feeds, unless that is empty.
pub open spec fn manifest(text: Seq<char>) -> Option<Seq<char>> {
    let joined = join(block(text), seq!['\n']);
    if joined.len() == 0 {
        None
    } else {
        Some(joined)
    }
}

/// The lines of the text, each trimmed.
fn rows_of(chars: &Vec<char>) -> (r: Vec<Vec<char>>)
    ensures
        views(r@) == rows(chars@),
{
    let all = lines_of(chars);
    let mut out: Vec<Vec<char>> = Vec::new();
    let mut i: usize = 0;
    while i < all.len()
        invariant
            i <= all.len(),
            views(all@) == lines(chars@),
            views(out@) == rows(chars@).take(i as int),
        decreases all.len() - i,
    {
        let row = trimmed(&all[i]);
        proof {
            assert(views(all@)[i as int] == all@[i as int]@);
        }
        let ghost before = views(out@);
        out.push(row);
        proof {
            assert(views(out@) == before.push(row@));
            assert(rows(chars@).take(i + 1) == rows(chars@).take(i as int).push(
                rows(chars@)[i as int],
            ));
        }
        i = i + 1;
    }
    assert(rows(chars@).take(all.len() as int) == rows(chars@));
    out
}

/// The bounds of the block that `opening` and `closing` mark off among `rows`.
fn block_bounds(rows: &Vec<Vec<char>>, opening: &Vec<char>, closing: &Vec<char>) -> (r: (
    usize,
    usize,
))
    ensures
        r.0 <= r.1 <= rows.len(),
        views(rows@).subrange(r.0 as int, r.1 as int) == before_first(
            after_first(views(rows@), opening@),
            closing@,
        ),
{
    let ghost all = views(rows@);
    let mut i: usize = 0;
    assert(all.skip(0) == all);
    while i < rows.len() && !same_text(&rows[i], opening)
        invariant
            i <= rows.len(),
            all == views(rows@),
            after_first(all, opening@) == after_first(all.skip(i as int), opening@),
        decreases rows.len() - i,
    {
        assert(all.skip(i as int).first() == rows@[i as int]@);
        assert(all.skip(i as int).drop_first() == all.skip(i + 1));
        i = i + 1;
    }
    if i == rows.len() {
        assert(all.subrange(i as int, i as int) == Seq::<Seq<char>>::empty());
        return (i, i);
    }
    assert(all.skip(i as int).first() == rows@[i as int]@);
    assert(all.skip(i as int).drop_first() == all.skip(i + 1));
    let start: usize = i + 1;
    let ghost rest = all.skip(start as int);
    let mut j: usize = start;
    assert(all.subrange(start as int, start as int) == Seq::<Seq<char>>::empty());
    while j < rows.len() && !same_text(&rows[j], closing)
        invariant
            start <= j <= rows.len(),
            all == views(rows@),
            before_first(rest, closing@) == all.subrange(start as int, j as int) + before_first(
                all.skip(j as int),
                closing@,
            ),
        decreases rows.len() - j,
    {
        assert(all.skip(j as int).first() == rows@[j as int]@);
        assert(all.skip(j as int).drop_first() == all.skip(j + 1));
        assert(all.subrange(start as int, j + 1) == all.subrange(start as int, j as int) + seq![
            all[j as int],
        ]);
        j = j + 1;
    }
    proof {
        if j < rows.len() {
            assert(all.skip(j as int).first() == rows@[j as int]@);
        }
        assert(before_first(all.skip(j as int), closing@) == Seq::<Seq<char>>::empty());
    }
    (start, j)
}

/// The manifest that `script` carries.
///
/// Fails with `ManifestNotFound` where the script has no line that opens a manifest
/// block, and where the block is empty.
pub fn manifest_content(script: &str) -> (r: Result<String, Failure>)
    ensures
        match r {
            Ok(found) => manifest(script@) == Some(found@),
            Err(e) => manifest(script@) is None && e@ == FailureModel::ManifestNotFound,
        },
{
    let chars = chars_of(script);
    let rows = rows_of(&chars);
    let opening = chars_of("/* Cargo.toml");
    let closing = chars_of("*/");
    let (from, to) = block_bounds(&rows, &opening, &closing);
    let found = join_range(&rows, from, to, '\n');
    if found.as_str().is_empty() {
        Err(Failure::ManifestNotFound)
    } else {
        Ok(found)
    }
}

} // verus!
