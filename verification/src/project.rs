//! A script and the place of its cached build.
//!
//! A project is named after the file stem of its script. Its home directory lies in
//! the cache root and is named after the directory that holds the script, by a prefix of
//! that directory's digest, and after the project: the content of the script plays no part.

use vstd::prelude::*;
use crate::action::{texts, Action, ActionView, Step};
use crate::cargo::{ready, Cargo};
use crate::digest::{hex_digest, is_digest, sha256_hex};
use crate::failure::{Failure, FailureModel, PathFault};
use crate::path::{
    child, file_stem, join, join_path, lemma_stem_is_a_component, parent, parent_of, stem_of,
};
use crate::state::Probe;
use crate::text::{chars_of, string_from};

verus! {

/// The number of digits of a directory's digest that enter the name of a home directory.
pub const KEY_LEN: usize = 16;

/// What resolving a script path on the file system gave.
#[derive(Debug, PartialEq, Eq)]
pub enum Resolution {
    /// Nothing exists at the path.
    Missing,
    /// The path leads to something that is not a regular file.
    NotAFile,
    /// The resolved path is not valid UTF-8.
    NotUtf8,
    /// The canonical, absolute path of a regular file.
    File(String),
}

/// The key that a directory with the digest `digest` is cached under: the first 16
/// characters of the digest, or all of a shorter one.
pub open spec fn key_of(digest: Seq<char>) -> Seq<char> {
    if digest.len() <= KEY_LEN {
        digest
    } else {
        digest.take(KEY_LEN as int)
    }
}

/// The name of the home directory of the project `name` whose script lies in a
/// directory with the digest `digest`.
pub open spec fn home_name(digest: Seq<char>, name: Seq<char>) -> Seq<char> {
    "project-"@ + key_of(digest) + seq!['-'] + name
}

/// The home directory, below `cache_root`, of the project whose script is at `script`.
pub open spec fn home_of(cache_root: Seq<char>, script: Seq<char>) -> Seq<char>
    recommends
        file_stem(script) is Some,
{
    join(cache_root, home_name(sha256_hex(parent(script)), file_stem(script).unwrap()))
}

/// A script together with the name and the home directory of its cached build.
#[derive(Debug, PartialEq, Eq)]
pub struct Project {
    name: String,
    home: String,
    script: String,
}

/// A [`Project`] with its texts as sequences of characters.
pub struct ProjectView {
    /// The file stem of the script.
    pub name: Seq<char>,
    /// The directory that holds the cached build.
    pub home: Seq<char>,
    /// The canonical path of the script.
    pub script: Seq<char>,
}

impl View for Project {
    type V = ProjectView;

    closed spec fn view(&self) -> ProjectView {
        ProjectView { name: self.name@, home: self.home@, script: self.script@ }
    }
}

impl ProjectView {
    /// The stable path of the artifact: the file named after the project in its home.
    pub open spec fn artifact(self) -> Seq<char> {
        join(self.home, self.name)
    }

    /// The directory of the toolchain's skeleton that holds the sources.
    pub open spec fn sources(self) -> Seq<char> {
        join(self.home, "src"@)
    }

    /// The path of the source in the cache.
    pub open spec fn source(self) -> Seq<char> {
        join(self.sources(), "main.rs"@)
    }

    /// The path of the manifest in the cache.
    pub open spec fn manifest(self) -> Seq<char> {
        join(self.home, "Cargo.toml"@)
    }
}

/// The home directory, below `cache_root`, of the project `name` whose script lies in
/// a directory with the digest `digest`: `project-`, the key of the digest, `-` and the name.
pub fn home_directory(cache_root: &str, digest: &str, name: &str) -> (r: String)
    ensures
        r@ == join(cache_root@, home_name(digest@, name@)),
{
    let digest = chars_of(digest);
    let name = chars_of(name);
    let key_len: usize = if digest.len() <= KEY_LEN {
        digest.len()
    } else {
        KEY_LEN
    };
    assert(digest@.take(digest.len() as int) == digest@);
    let mut dir_name = chars_of("project-");
    let mut i: usize = 0;
    while i < key_len
        invariant
            i <= key_len <= digest.len(),
            dir_name@ == "project-"@ + digest@.take(i as int),
        decreases key_len - i,
    {
        dir_name.push(digest[i]);
        assert(digest@.take(i + 1) == digest@.take(i as int).push(digest@[i as int]));
        i = i + 1;
    }
    dir_name.push('-');
    let ghost head = dir_name@;
    let mut j: usize = 0;
    while j < name.len()
        invariant
            j <= name.len(),
            dir_name@ == head + name@.take(j as int),
        decreases name.len() - j,
    {
        dir_name.push(name[j]);
        assert(name@.take(j + 1) == name@.take(j as int).push(name@[j as int]));
        j = j + 1;
    }
    assert(name@.take(name.len() as int) == name@);
    string_from(&join_path(&chars_of(cache_root), &dir_name))
}

impl Project {
    /// The project of the script that `resolved` names, with its home below `cache_root`.
    ///
    /// Fails with `PathResolutionError` where the path did not resolve to a regular file
    /// with a UTF-8 path; a resolved path that names no file counts as not a file.
    pub fn new(resolved: Resolution, cache_root: &str) -> (r: Result<Project, Failure>)
        ensures
            match resolved {
                Resolution::Missing => r matches Err(e) && e@ == FailureModel::PathResolutionError(
                    PathFault::NotFound,
                ),
                Resolution::NotAFile => r matches Err(e) && e@ == FailureModel::PathResolutionError(
                    PathFault::NotAFile,
                ),
                Resolution::NotUtf8 => r matches Err(e) && e@ == FailureModel::PathResolutionError(
                    PathFault::EncodingError,
                ),
                Resolution::File(script) => match file_stem(script@) {
                    None => r matches Err(e) && e@ == FailureModel::PathResolutionError(
                        PathFault::NotAFile,
                    ),
                    Some(stem) => r matches Ok(project) && project@ == (ProjectView {
                        name: stem,
                        home: home_of(cache_root@, script@),
                        script: script@,
                    }),
                },
            },
            r matches Ok(project) ==> {
                &&& is_digest(sha256_hex(parent(project@.script)))
                &&& project@.name.len() > 0
                &&& !project@.name.contains('/')
            },
    {
        let script = match resolved {
            Resolution::Missing => {
                return Err(Failure::PathResolutionError(PathFault::NotFound));
            },
            Resolution::NotAFile => {
                return Err(Failure::PathResolutionError(PathFault::NotAFile));
            },
            Resolution::NotUtf8 => {
                return Err(Failure::PathResolutionError(PathFault::EncodingError));
            },
            Resolution::File(script) => script,
        };
        let path = chars_of(script.as_str());
        proof {
            lemma_stem_is_a_component(path@);
        }
        let stem = match stem_of(&path) {
            None => {
                return Err(Failure::PathResolutionError(PathFault::NotAFile));
            },
            Some(stem) => stem,
        };
        let directory = string_from(&parent_of(&path));
        let digest = hex_digest(directory.as_str());
        let name = string_from(&stem);
        let home = home_directory(cache_root, digest.as_str(), name.as_str());
        Ok(Project { name, home, script })
    }

    /// The name of the project: the file stem of its script.
    pub fn name(&self) -> (r: &String)
        ensures
            r@ == self@.name,
    {
        &self.name
    }

    /// The directory that holds the cached build of the project.
    pub fn home(&self) -> (r: &String)
        ensures
            r@ == self@.home,
    {
        &self.home
    }

    /// The canonical path of the script.
    pub fn script(&self) -> (r: &String)
        ensures
            r@ == self@.script,
    {
        &self.script
    }

    /// The directory whose presence shows that the toolchain has set up the home.
    pub fn sources_path(&self) -> (r: String)
        ensures
            r@ == self@.sources(),
    {
        child(self.home.as_str(), "src")
    }

    /// The path of the source in the cache.
    pub fn main_path(&self) -> (r: String)
        ensures
            r@ == self@.source(),
    {
        child(self.sources_path().as_str(), "main.rs")
    }

    /// The path of the manifest in the cache.
    pub fn manifest_path(&self) -> (r: String)
        ensures
            r@ == self@.manifest(),
    {
        child(self.home.as_str(), "Cargo.toml")
    }

    /// The stable path of the artifact: the file named after the project in its home.
    pub fn binary_path(&self) -> (r: String)
        ensures
            r@ == self@.artifact(),
    {
        child(self.home.as_str(), self.name.as_str())
    }

    /// The toolchain for this project, and the step that makes its home ready.
    pub fn cargo(&self, has_sources: bool) -> (r: (Cargo<'_>, Step))
        ensures
            r.0@ == self@,
            r.1@ == ready(self@, has_sources),
    {
        Cargo::new(self, has_sources)
    }

    /// Whether there is an artifact to launch, given what a look at its stable path
    /// gave: only a file that was found counts.
    pub fn has_binary(&self, artifact: &Probe<i128>) -> (r: bool)
        ensures
            r == (*artifact is Found),
    {
        match artifact {
            Probe::Found(_) => true,
            _ => false,
        }
    }

    /// The launch of the artifact in place of the running process, under the name of
    /// the project and with `arguments`.
    pub fn execute(&self, arguments: Vec<String>) -> (r: Action)
        ensures
            r@ == (ActionView::Launch {
                program: self@.artifact(),
                name: self@.name,
                arguments: texts(arguments@),
            }),
    {
        Action::Launch { program: self.binary_path(), name: self.name.clone(), arguments }
    }

    /// The removal of the project's home with all that it holds.
    pub fn clean(&self) -> (r: Action)
        ensures
            r@ == ActionView::Remove(self@.home),
    {
        Action::Remove(self.home.clone())
    }

    /// The removal of the cache root `cache_root`, and with it of every project's home.
    pub fn clean_all(cache_root: &str) -> (r: Action)
        ensures
            r@ == ActionView::Remove(cache_root@),
    {
        Action::Remove(cache_root.to_owned())
    }
}

} // verus!
