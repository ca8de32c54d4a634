//! The event stream of the build driver.
//!
//! Asked for machine-readable messages, the build driver writes one JSON object per
//! line. A message about a built program carries the path of that program in a member
//! named `executable`. The artifact of a build is the program that the last such
//! message names: the stream is read from its end.

use vstd::prelude::*;
use crate::failure::{Failure, FailureModel};
use crate::json::{member, parse_value, parsed_strings};
use crate::text::{chars_of, lines, lines_of, string_from, trim, trimmed};

verus! {

/// What one line of the event stream says about the artifact.
#[derive(Debug, PartialEq, Eq)]
pub enum Reading {
    /// The line is not a JSON value.
    Malformed,
    /// The line is a message that names no program.
    Other,
    /// The line is a message about the program at this path.
    Executable(String),
}

/// A [`Reading`] with its path as a sequence of characters.
pub enum ReadingView {
    Malformed,
    Other,
    Executable(Seq<char>),
}

impl View for Reading {
    type V = ReadingView;

    open spec fn view(&self) -> ReadingView {
        match self {
            Reading::Malformed => ReadingView::Malformed,
            Reading::Other => ReadingView::Other,
            Reading::Executable(path) => ReadingView::Executable(path@),
        }
    }
}

/// The views of the readings, in order.
pub open spec fn reading_views(readings: Seq<Reading>) -> Seq<ReadingView> {
    Seq::new(readings.len(), |i: int| readings[i]@)
}

/// What the line `line` of the event stream says.
pub open spec fn reading(line: Seq<char>) -> ReadingView {
    match parsed_strings(line) {
        None => ReadingView::Malformed,
        Some(members) => if members.contains_key("executable"@) {
            ReadingView::Executable(members["executable"@])
        } else {
            ReadingView::Other
        },
    }
}

/// What the lines of the captured output `output` say, in order. White space around
/// the output is no part of the stream.
pub open spec fn readings(output: Seq<char>) -> Seq<ReadingView> {
    Seq::new(lines(trim(output)).len(), |i: int| reading(lines(trim(output))[i]))
}

/// The artifact that a stream of readings names. The stream is read from its end, and
/// the first line that is not a message without a program decides: a message that
/// names a program gives the artifact; a malformed line, like a stream that runs out,
/// gives none.
pub open spec fn artifact(readings: Seq<ReadingView>) -> Option<Seq<char>>
    decreases readings.len(),
{
    if readings.len() == 0 {
        None
    } else {
        match readings.last() {
            ReadingView::Executable(path) => Some(path),
            ReadingView::Malformed => None,
            ReadingView::Other => artifact(readings.drop_last()),
        }
    }
}

/// What the line `line` of the event stream says.
pub fn read_line(line: &str) -> (r: Reading)
    ensures
        r@ == reading(line@),
{
    match parse_value(line) {
        Err(_) => Reading::Malformed,
        Ok(value) => match member(&value, "executable") {
            None => Reading::Other,
            Some(found) => match found.as_str() {
                None => Reading::Other,
                Some(path) => Reading::Executable(path.to_owned()),
            },
        },
    }
}

/// What the lines of the captured output say, in order.
pub fn read_output(output: &str) -> (r: Vec<Reading>)
    ensures
        reading_views(r@) == readings(output@),
{
    let stream = trimmed(&chars_of(output));
    let all = lines_of(&stream);
    let mut out: Vec<Reading> = Vec::new();
    let mut i: usize = 0;
    while i < all.len()
        invariant
            i <= all.len(),
            stream@ == trim(output@),
            crate::text::views(all@) == lines(stream@),
            reading_views(out@) == readings(output@).take(i as int),
        decreases all.len() - i,
    {
        let line = string_from(&all[i]);
        let got = read_line(line.as_str());
        proof {
            assert(crate::text::views(all@)[i as int] == all@[i as int]@);
        }
        let ghost before = reading_views(out@);
        out.push(got);
        proof {
            assert(reading_views(out@) == before.push(got@));
            assert(readings(output@).take(i + 1) == readings(output@).take(i as int).push(
                readings(output@)[i as int],
            ));
        }
        i = i + 1;
    }
    assert(readings(output@).take(all.len() as int) == readings(output@));
    out
}

/// The path of the artifact that the readings name.
///
/// Fails with `ArtifactPathNotResolved` where they name none.
pub fn locate_artifact(readings: &Vec<Reading>) -> (r: Result<String, Failure>)
    ensures
        match r {
            Ok(path) => artifact(reading_views(readings@)) == Some(path@),
            Err(e) => artifact(reading_views(readings@)) is None && e@
                == FailureModel::ArtifactPathNotResolved,
        },
{
    let ghost all = reading_views(readings@);
    let mut i: usize = readings.len();
    assert(all.take(i as int) == all);
    while i > 0
        invariant
            i <= readings.len(),
            all == reading_views(readings@),
            artifact(all) == artifact(all.take(i as int)),
        decreases i,
    {
        assert(all.take(i as int).last() == readings@[i - 1]@);
        assert(all.take(i as int).drop_last() == all.take(i - 1));
        match &readings[i - 1] {
            Reading::Executable(path) => {
                return Ok(path.clone());
            },
            Reading::Malformed => {
                return Err(Failure::ArtifactPathNotResolved);
            },
            Reading::Other => {},
        }
        i = i - 1;
    }
    Err(Failure::ArtifactPathNotResolved)
}

/// The path of the artifact that the build driver's captured event stream names.
///
/// Fails with `ArtifactPathNotResolved` where the stream names none.
pub fn built_executable_path(output: &str) -> (r: Result<String, Failure>)
    ensures
        match r {
            Ok(path) => artifact(readings(output@)) == Some(path@),
            Err(e) => artifact(readings(output@)) is None && e@
                == FailureModel::ArtifactPathNotResolved,
        },
{
    let all = read_output(output);
    locate_artifact(&all)
}

} // verus!
