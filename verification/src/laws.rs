//! What holds of the library as a whole.
//!
//! Each law is a proof about the specifications that the contracts of the executable
//! functions are stated in, so it holds of whatever those functions return.

use vstd::prelude::*;
use crate::action::{run, EventView, Goal, Stage, StepView};
use crate::cargo::{build_command, forced, next, observe};
use crate::digest::{is_digest, is_hex_digit, sha256_hex};
use crate::failure::FailureModel;
use crate::manifest::{after_first, before_first, block, closing, manifest, opening, rows};
use crate::path::{
    file_name, file_stem, lemma_last_index_found, lemma_stem_is_a_component, parent,
};
use crate::project::{home_name, home_of, key_of, ProjectView};
use crate::state::{staleness, CargoMode, CargoState, ObservationView, Probe};
use crate::text::join;

verus! {

/// What is seen of a project once its source was written to the cache and nothing
/// else has changed since `seen` was seen: the source has the digest of the script.
pub open spec fn materialized(seen: ObservationView) -> ObservationView {
    ObservationView { source_digest: Probe::Found(sha256_hex(seen.script)), ..seen }
}

/// What is seen of a project once a build has put its artifact in place at the time
/// `at` and nothing else has changed since `seen` was seen.
pub open spec fn built(seen: ObservationView, at: i128) -> ObservationView {
    ObservationView { artifact_modified: Probe::Found(at), ..seen }
}

/// What is seen of a project once its artifact was deleted and nothing else has
/// changed since `seen` was seen.
pub open spec fn without_artifact(seen: ObservationView) -> ObservationView {
    ObservationView { artifact_modified: Probe::Missing, ..seen }
}

/// Whether the source in the cache is seen to be the script's content.
pub open spec fn source_is_current(seen: ObservationView) -> bool {
    seen.source_digest == Probe::Found(sha256_hex(seen.script))
}

/// A project whose source was written and whose build ended no earlier than the last
/// change of its script is up to date, and stays so for as long as the same is seen
/// of it: making it current again asks for nothing to be done, so nothing changes.
pub proof fn law_built_project_is_up_to_date(
    project: ProjectView,
    seen: ObservationView,
    edited: i128,
    at: i128,
    mode: CargoMode,
)
    requires
        seen.script_modified == Probe::Found(edited),
        edited <= at,
    ensures
        staleness(built(materialized(seen), at)) == Ok::<CargoState, FailureModel>(
            CargoState::UpToDate,
        ),
        next(
            project,
            Stage::Checking(Goal::Built(mode)),
            EventView::Observed(built(materialized(seen), at)),
        ) == StepView::Finished,
        next(
            project,
            Stage::Checking(Goal::Updated),
            EventView::Observed(built(materialized(seen), at)),
        ) == StepView::Finished,
{
}

/// Whatever is up to date asks for nothing: where the state seen is `UpToDate`, making
/// the project current ends at once, without any action.
pub proof fn law_up_to_date_needs_nothing(
    project: ProjectView,
    seen: ObservationView,
    mode: CargoMode,
)
    requires
        staleness(seen) == Ok::<CargoState, FailureModel>(CargoState::UpToDate),
    ensures
        next(project, Stage::Checking(Goal::Built(mode)), EventView::Observed(seen))
            == StepView::Finished,
        next(project, Stage::Checking(Goal::Updated), EventView::Observed(seen))
            == StepView::Finished,
{
}

/// A script whose content has changed differs from the source in the cache, whatever
/// the times of script and artifact: once a project was up to date, any later look that
/// finds the same source in the cache and a script with another digest gives
/// `SourceDiffers`.
pub proof fn law_edited_script_differs(before: ObservationView, after: ObservationView)
    requires
        staleness(before) == Ok::<CargoState, FailureModel>(CargoState::UpToDate),
        after.source_digest == before.source_digest,
        sha256_hex(after.script) != sha256_hex(before.script),
    ensures
        staleness(after) == Ok::<CargoState, FailureModel>(CargoState::SourceDiffers),
{
}

/// A project whose source was written and that has no artifact is in the state
/// `NoArtifact`; built no earlier than the last change of its script, it is up to date.
pub proof fn law_new_project_is_built_once(seen: ObservationView, edited: i128, at: i128)
    requires
        seen.artifact_modified == Probe::<i128>::Missing,
        seen.script_modified == Probe::Found(edited),
        edited <= at,
    ensures
        staleness(materialized(seen)) == Ok::<CargoState, FailureModel>(CargoState::NoArtifact),
        staleness(built(materialized(seen), at)) == Ok::<CargoState, FailureModel>(
            CargoState::UpToDate,
        ),
{
}

/// A project with no source in its cache differs from its script, whatever else is
/// seen of it.
pub proof fn law_empty_cache_differs(seen: ObservationView)
    requires
        seen.source_digest == Probe::<Seq<char>>::Missing,
    ensures
        staleness(seen) == Ok::<CargoState, FailureModel>(CargoState::SourceDiffers),
{
}

/// With the artifact deleted and the source still that of the script, the state is
/// `NoArtifact`.
pub proof fn law_deleted_artifact_is_missed(seen: ObservationView)
    requires
        source_is_current(seen),
    ensures
        staleness(without_artifact(seen)) == Ok::<CargoState, FailureModel>(
            CargoState::NoArtifact,
        ),
{
}

/// Once the source was written, it is not written again: a fresh look never gives
/// `SourceDiffers` unless the script or the cache was changed in between.
pub proof fn law_written_source_is_current(seen: ObservationView)
    ensures
        staleness(materialized(seen)) != Ok::<CargoState, FailureModel>(
            CargoState::SourceDiffers,
        ),
{
}

/// How far an operation has come when it stands at `stage`.
pub open spec fn progress(stage: Stage) -> int {
    match stage {
        Stage::Checking(_) => 0,
        Stage::Updating(_) => 1,
        Stage::Deciding(_) => 2,
        Stage::Running(_, _) => 3,
        Stage::Locating => 4,
        Stage::Moving => 5,
    }
}

/// An operation only moves forward: whatever is reported to it, the stage that follows
/// lies further on. So nothing is ever asked for twice or tried again, and every
/// operation ends after six actions at most.
pub proof fn law_operations_move_forward(project: ProjectView, stage: Stage, event: EventView)
    ensures
        next(project, stage, event) matches StepView::Next(then, _) ==> progress(stage)
            < progress(then),
{
}

/// The build is decided on a fresh look: once the source was written on the way to a
/// build, the next action is to look at the project again, and whether the toolchain
/// runs goes by the state that this look gives.
pub proof fn law_build_is_decided_afresh(
    project: ProjectView,
    mode: CargoMode,
    seen: ObservationView,
    state: CargoState,
)
    requires
        staleness(seen) == Ok::<CargoState, FailureModel>(state),
    ensures
        next(project, Stage::Updating(Goal::Built(mode)), EventView::Completed)
            == StepView::Next(Stage::Deciding(mode), observe(project)),
        next(project, Stage::Deciding(mode), EventView::Observed(seen)) == if state
            == CargoState::UpToDate {
            StepView::Finished
        } else {
            run(build_command(project, mode))
        },
{
}

/// A script without a manifest fails an operation before the toolchain is run or
/// anything is written: where the source is to be written and the script holds no
/// manifest, the step after the first look is the failure `ManifestNotFound`.
pub proof fn law_missing_manifest_fails_first(
    project: ProjectView,
    goal: Goal,
    seen: ObservationView,
)
    requires
        manifest(seen.script) is None,
        forced(goal) || staleness(seen) == Ok::<CargoState, FailureModel>(
            CargoState::SourceDiffers,
        ),
    ensures
        next(project, Stage::Checking(goal), EventView::Observed(seen)) == StepView::Failed(
            FailureModel::ManifestNotFound,
        ),
{
}

/// Two scripts in the same directory with the same file stem have the same home,
/// whatever their extensions.
pub proof fn law_same_place_same_home(cache_root: Seq<char>, one: Seq<char>, other: Seq<char>)
    requires
        parent(one) == parent(other),
        file_stem(one) == file_stem(other),
    ensures
        home_of(cache_root, one) == home_of(cache_root, other),
{
}

/// The path of the file `stem`.`extension` in `directory`.
pub open spec fn file_in(directory: Seq<char>, stem: Seq<char>, extension: Seq<char>) -> Seq<char> {
    directory + seq!['/'] + (stem + seq!['.'] + extension)
}

/// The extension of a script plays no part in where its build is cached: the file
/// `stem`.`extension` in `directory` has that directory as its parent and `stem` as its
/// file stem, so two scripts that differ in their extension alone share one home.
/// (The stem `.` is left out: with an empty extension it would spell `..`.)
pub proof fn law_extension_plays_no_part(
    cache_root: Seq<char>,
    directory: Seq<char>,
    stem: Seq<char>,
    one: Seq<char>,
    other: Seq<char>,
)
    requires
        directory.len() > 0,
        stem.len() > 0,
        stem != seq!['.'],
        !stem.contains('/'),
        !one.contains('/') && !one.contains('.'),
        !other.contains('/') && !other.contains('.'),
    ensures
        parent(file_in(directory, stem, one)) == directory,
        file_stem(file_in(directory, stem, one)) == Some(stem),
        home_of(cache_root, file_in(directory, stem, one)) == home_of(
            cache_root,
            file_in(directory, stem, other),
        ),
{
    lemma_stem_of_file_in(directory, stem, one);
    lemma_stem_of_file_in(directory, stem, other);
}

/// The parent and the stem of the file `stem`.`extension` in `directory`.
proof fn lemma_stem_of_file_in(directory: Seq<char>, stem: Seq<char>, extension: Seq<char>)
    requires
        directory.len() > 0,
        stem.len() > 0,
        stem != seq!['.'],
        !stem.contains('/'),
        !extension.contains('/') && !extension.contains('.'),
    ensures
        parent(file_in(directory, stem, extension)) == directory,
        file_stem(file_in(directory, stem, extension)) == Some(stem),
{
    let name = stem + seq!['.'] + extension;
    let path = file_in(directory, stem, extension);
    assert forall|i: int| 0 <= i < name.len() implies name[i] != '/' by {
        if i < stem.len() {
            assert(stem.contains(stem[i]));
        } else if i > stem.len() {
            assert(extension.contains(extension[i - stem.len() - 1]));
        }
    }
    lemma_last_index_found(directory, '/', name);
    assert(path.take(directory.len() as int) == directory);
    assert(file_name(path) == name);
    lemma_last_index_found(stem, '.', extension);
    assert(name.take(stem.len() as int) == stem);
    assert(name.len() >= 2);
    if name == seq!['.'] {
        assert(name.len() == seq!['.'].len());
    }
    if name == seq!['.', '.'] {
        assert(name[0] == stem[0]);
        assert(stem =~= seq!['.']);
    }
}

/// Whether `path` is `directory` or lies below it.
pub open spec fn within(path: Seq<char>, directory: Seq<char>) -> bool {
    path == directory || (directory + seq!['/']).is_prefix_of(path)
}

/// The name of a home directory is a single component: it holds no `/`.
proof fn lemma_home_name_is_a_component(digest: Seq<char>, name: Seq<char>)
    requires
        is_digest(digest),
        !name.contains('/'),
    ensures
        !home_name(digest, name).contains('/'),
{
    reveal_strlit("project-");
    let prefix = "project-"@;
    let key = key_of(digest);
    let all = home_name(digest, name);
    assert forall|i: int| 0 <= i < all.len() implies all[i] != '/' by {
        if i < prefix.len() {
            assert(all[i] == prefix[i]);
        } else if i < prefix.len() + key.len() {
            assert(all[i] == key[i - prefix.len()]);
            assert(key[i - prefix.len()] == digest[i - prefix.len()]);
            assert(is_hex_digit(digest[i - prefix.len()]));
        } else if i == prefix.len() + key.len() {
            assert(all[i] == '-');
        } else {
            assert(all[i] == name[i - prefix.len() - key.len() - 1]);
            assert(name.contains(name[i - prefix.len() - key.len() - 1]));
        }
    }
}

/// To remove the home of one project leaves the homes of all others in place: the
/// homes of two scripts below one cache root are the same directory, or neither lies
/// within the other.
pub proof fn law_clean_spares_siblings(cache_root: Seq<char>, one: Seq<char>, other: Seq<char>)
    requires
        file_stem(one) is Some,
        file_stem(other) is Some,
        is_digest(sha256_hex(parent(one))),
        is_digest(sha256_hex(parent(other))),
        home_of(cache_root, one) != home_of(cache_root, other),
    ensures
        !within(home_of(cache_root, other), home_of(cache_root, one)),
{
    lemma_stem_is_a_component(one);
    lemma_stem_is_a_component(other);
    let mine = home_name(sha256_hex(parent(one)), file_stem(one).unwrap());
    let yours = home_name(sha256_hex(parent(other)), file_stem(other).unwrap());
    lemma_home_name_is_a_component(sha256_hex(parent(one)), file_stem(one).unwrap());
    lemma_home_name_is_a_component(sha256_hex(parent(other)), file_stem(other).unwrap());
    let base = if cache_root.len() == 0 || cache_root.last() == '/' {
        cache_root
    } else {
        cache_root + seq!['/']
    };
    assert(home_of(cache_root, one) == base + mine);
    assert(home_of(cache_root, other) == base + yours);
    if (base + mine + seq!['/']).is_prefix_of(base + yours) {
        let at = (base + mine).len() as int;
        assert((base + mine + seq!['/'])[at] == '/');
        assert((base + yours)[at] == (base + mine + seq!['/'])[at]);
        assert((base + yours)[at] == yours[at - base.len()]);
        assert(yours.contains(yours[at - base.len()]));
    }
}

/// The rows after the first `mark` of a sequence that holds none before it.
proof fn lemma_after_first(head: Seq<Seq<char>>, tail: Seq<Seq<char>>, mark: Seq<char>)
    requires
        !head.contains(mark),
    ensures
        after_first(head + seq![mark] + tail, mark) == tail,
    decreases head.len(),
{
    let all = head + seq![mark] + tail;
    if head.len() == 0 {
        assert(all.first() == mark);
        assert(all.drop_first() == tail);
    } else {
        assert(head.contains(head.first()));
        assert(all.first() == head.first());
        assert(all.drop_first() == head.drop_first() + seq![mark] + tail);
        assert forall|i: int| 0 <= i < head.drop_first().len() implies head.drop_first()[i]
            != mark by {
            assert(head.contains(head[i + 1]));
        }
        lemma_after_first(head.drop_first(), tail, mark);
    }
}

/// The rows before the first `mark` of a sequence that holds none before it.
proof fn lemma_before_first(head: Seq<Seq<char>>, tail: Seq<Seq<char>>, mark: Seq<char>)
    requires
        !head.contains(mark),
    ensures
        before_first(head + seq![mark] + tail, mark) == head,
        before_first(head, mark) == head,
    decreases head.len(),
{
    let all = head + seq![mark] + tail;
    if head.len() == 0 {
        assert(all.first() == mark);
    } else {
        assert(head.contains(head.first()));
        assert(all.first() == head.first());
        assert(all.drop_first() == head.drop_first() + seq![mark] + tail);
        assert forall|i: int| 0 <= i < head.drop_first().len() implies head.drop_first()[i]
            != mark by {
            assert(head.contains(head[i + 1]));
        }
        lemma_before_first(head.drop_first(), tail, mark);
        assert(seq![head.first()] + head.drop_first() == head);
    }
}

/// No row after the first `mark`, where no row is the mark.
proof fn lemma_after_first_none(all: Seq<Seq<char>>, mark: Seq<char>)
    requires
        !all.contains(mark),
    ensures
        after_first(all, mark) == Seq::<Seq<char>>::empty(),
    decreases all.len(),
{
    if all.len() > 0 {
        assert(all.contains(all.first()));
        assert forall|i: int| 0 <= i < all.drop_first().len() implies all.drop_first()[i]
            != mark by {
            assert(all.contains(all[i + 1]));
        }
        lemma_after_first_none(all.drop_first(), mark);
    }
}

/// The manifest of a script is what stands between its markers: where the trimmed
/// lines of `text` are `head`, the opening marker, `body`, the closing marker and
/// `tail`, with no opening marker in `head` and no closing marker in `body`, the
/// manifest is `body` joined by line feeds, each line trimmed and in its place.
pub proof fn law_manifest_is_between_markers(
    text: Seq<char>,
    head: Seq<Seq<char>>,
    body: Seq<Seq<char>>,
    tail: Seq<Seq<char>>,
)
    requires
        rows(text) == head + seq![opening()] + (body + seq![closing()] + tail),
        !head.contains(opening()),
        !body.contains(closing()),
    ensures
        block(text) == body,
        join(body, seq!['\n']).len() > 0 ==> manifest(text) == Some(join(body, seq!['\n'])),
        join(body, seq!['\n']).len() == 0 ==> manifest(text) is None,
{
    lemma_after_first(head, body + seq![closing()] + tail, opening());
    lemma_before_first(body, tail, closing());
}

/// A block that runs to the end of the script needs no closing marker: where the
/// trimmed lines are `head`, the opening marker and `body`, with no closing marker in
/// `body`, the block is `body`.
pub proof fn law_manifest_runs_to_the_end(
    text: Seq<char>,
    head: Seq<Seq<char>>,
    body: Seq<Seq<char>>,
)
    requires
        rows(text) == head + seq![opening()] + body,
        !head.contains(opening()),
        !body.contains(closing()),
    ensures
        block(text) == body,
{
    lemma_after_first(head, body, opening());
    lemma_before_first(body, Seq::empty(), closing());
}

/// A script without an opening marker has no manifest.
pub proof fn law_no_opening_no_manifest(text: Seq<char>)
    requires
        !rows(text).contains(opening()),
    ensures
        manifest(text) is None,
{
    lemma_after_first_none(rows(text), opening());
}

/// A script whose closing marker follows directly on its opening marker has no manifest.
pub proof fn law_empty_block_no_manifest(
    text: Seq<char>,
    head: Seq<Seq<char>>,
    tail: Seq<Seq<char>>,
)
    requires
        rows(text) == head + seq![opening()] + (seq![closing()] + tail),
        !head.contains(opening()),
    ensures
        manifest(text) is None,
{
    lemma_after_first(head, seq![closing()] + tail, opening());
    assert((seq![closing()] + tail).first() == closing());
}

} // verus!
