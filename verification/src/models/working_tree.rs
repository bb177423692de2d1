//! The layout of a worker's private directory, and the names that may appear in it.
//!
//! A path is kept as its segments: the worker's directory first, then one name per
//! level below it.

use crate::text::texts;
use vstd::prelude::*;
use vstd::string::StringExecFns;
use vstd::std_specs::iter::IteratorSpec;

verus! {

/// The directory that holds the raw checkout.
pub open spec fn download_dir(working: Seq<char>) -> Seq<Seq<char>> {
    seq![working, "download"@]
}

/// The directory that holds the tree built for one environment.
pub open spec fn environment_dir(working: Seq<char>, environment: Seq<char>) -> Seq<Seq<char>> {
    seq![working, environment]
}

/// The directory of one component inside an environment's tree.
pub open spec fn component_dir(
    working: Seq<char>,
    environment: Seq<char>,
    component: Seq<char>,
) -> Seq<Seq<char>> {
    seq![working, environment, component]
}

/// The name of a transient archive: a token, a dot, the packager's extension.
pub open spec fn archive_name(token: Seq<char>, extension: Seq<char>) -> Seq<char> {
    token + "."@ + extension
}

/// The transient archive of one request: a file directly inside the environment's tree.
pub open spec fn archive_file(
    working: Seq<char>,
    environment: Seq<char>,
    token: Seq<char>,
    extension: Seq<char>,
) -> Seq<Seq<char>> {
    seq![working, environment, archive_name(token, extension)]
}

/// The directory that directly holds `path`.
pub open spec fn parent(path: Seq<Seq<char>>) -> Seq<Seq<char>>
    recommends
        path.len() > 0,
{
    path.drop_last()
}

/// `path` lies somewhere below the directory `dir`.
pub open spec fn is_inside(path: Seq<Seq<char>>, dir: Seq<Seq<char>>) -> bool {
    dir.len() < path.len() && path.subrange(0, dir.len() as int) == dir
}

/// A path inside a worker's directory.
#[derive(Debug, PartialEq)]
pub struct TreePath {
    pub segments: Vec<String>,
}

impl View for TreePath {
    type V = Seq<Seq<char>>;

    open spec fn view(&self) -> Seq<Seq<char>> {
        texts(self.segments@)
    }
}

impl Clone for TreePath {
    fn clone(&self) -> (copy: Self)
        ensures
            copy@ == self@,
    {
        TreePath { segments: self.segments.clone() }
    }
}

impl TreePath {
    /// The worker's directory itself.
    pub fn root(working: &str) -> (path: Self)
        ensures
            path@ == seq![working@],
    {
        let mut segments: Vec<String> = Vec::new();
        segments.push(String::from_str(working));
        TreePath { segments }
    }

    pub fn download(working: &str) -> (path: Self)
        ensures
            path@ == download_dir(working@),
    {
        let mut segments: Vec<String> = Vec::new();
        segments.push(String::from_str(working));
        segments.push(String::from_str("download"));
        TreePath { segments }
    }

    pub fn environment(working: &str, environment: &str) -> (path: Self)
        ensures
            path@ == environment_dir(working@, environment@),
    {
        let mut segments: Vec<String> = Vec::new();
        segments.push(String::from_str(working));
        segments.push(String::from_str(environment));
        TreePath { segments }
    }

    pub fn component(working: &str, environment: &str, component: &str) -> (path: Self)
        ensures
            path@ == component_dir(working@, environment@, component@),
    {
        let mut segments: Vec<String> = Vec::new();
        segments.push(String::from_str(working));
        segments.push(String::from_str(environment));
        segments.push(String::from_str(component));
        TreePath { segments }
    }

    pub fn archive(working: &str, environment: &str, token: &str, extension: &str) -> (path: Self)
        ensures
            path@ == archive_file(working@, environment@, token@, extension@),
    {
        let mut name = String::from_str(token);
        name.append(".");
        name.append(extension);
        let mut segments: Vec<String> = Vec::new();
        segments.push(String::from_str(working));
        segments.push(String::from_str(environment));
        segments.push(name);
        TreePath { segments }
    }
}

/// The name has a component `..`, which would lead out of the directory it is joined to.
pub open spec fn traverses_upward(name: Seq<char>) -> bool {
    exists|at: int| is_upward_step(name, at)
}

/// At offset `at` of `name` stands a whole component `..`.
pub open spec fn is_upward_step(name: Seq<char>, at: int) -> bool {
    &&& 0 <= at
    &&& at + 2 <= name.len()
    &&& name[at] == '.'
    &&& name[at + 1] == '.'
    &&& (at == 0 || name[at - 1] == '/')
    &&& (at + 2 == name.len() || name[at + 2] == '/')
}

/// A stage that the service accepts: it holds no NUL and does not traverse upward. A
/// stage names a branch and is never part of a path, so it may hold separators.
pub open spec fn is_acceptable_name(name: Seq<char>) -> bool {
    !name.contains('\0') && !traverses_upward(name)
}

/// A name that stands for exactly one level of a path: the only environments and
/// components that the service accepts. Such a name neither leads out of the directory
/// it is joined to nor replaces it.
pub open spec fn is_segment(name: Seq<char>) -> bool {
    &&& name.len() > 0
    &&& !name.contains('/')
    &&& !name.contains('\0')
    &&& name != "."@
    &&& name != ".."@
}

/// Whether `name` stands for exactly one level of a path, as an environment and a
/// component have to.
pub fn is_name_segment(name: &str) -> (single: bool)
    ensures
        single == is_segment(name@),
{
    let mut clean = true;
    // The characters seen, counted up to three, and whether they are all dots.
    let mut count: u8 = 0;
    let mut dots = true;
    for character in iter: name.chars()
        invariant
            iter.seq() == name@,
            clean <==> forall|k: int|
                0 <= k < iter.index() ==> name@[k] != '/' && name@[k] != '\0',
            count == if iter.index() < 3 {
                iter.index()
            } else {
                3
            },
            dots <==> forall|k: int| 0 <= k < iter.index() ==> name@[k] == '.',
    {
        if character == '/' || character == '\0' {
            clean = false;
        }
        if character != '.' {
            dots = false;
        }
        if count < 3 {
            count += 1;
        }
    }
    proof {
        reveal_strlit(".");
        reveal_strlit("..");
        if dots && count == 1 {
            assert(name@ =~= "."@);
        }
        if dots && count == 2 {
            assert(name@ =~= ".."@);
        }
    }
    clean && count > 0 && !(dots && count <= 2)
}

/// Whether the service accepts `name` as a stage.
pub fn is_name_acceptable(name: &str) -> (accepted: bool)
    ensures
        accepted == is_acceptable_name(name@),
{
    let mut refused = false;
    // The characters of the component at hand, counted up to three, and whether they
    // are all dots.
    let mut run: u8 = 0;
    let mut dots = true;
    let ghost mut start: int = 0;
    for character in iter: name.chars()
        invariant
            iter.seq() == name@,
            0 <= start <= iter.index(),
            start == 0 || name@[start - 1] == '/',
            forall|k: int| start <= k < iter.index() ==> name@[k] != '/',
            run == if iter.index() - start < 3 {
                iter.index() - start
            } else {
                3
            },
            dots <==> forall|k: int| start <= k < iter.index() ==> name@[k] == '.',
            refused <==> (exists|k: int| 0 <= k < iter.index() && name@[k] == '\0') || (exists|
                at: int,
            |
                is_upward_step(name@, at) && at + 2 < iter.index()),
    {
        let ghost index = iter.index();
        if character == '\0' {
            refused = true;
        }
        if character == '/' {
            if run == 2 && dots {
                assert(is_upward_step(name@, start));
                refused = true;
            }
            assert forall|at: int| is_upward_step(name@, at) && at + 2 == index implies at
                == start by {}
            run = 0;
            dots = true;
            proof {
                start = index + 1;
            }
        } else {
            if run < 3 {
                run += 1;
            }
            if character != '.' {
                dots = false;
            }
        }
    }
    proof {
        let length = name@.len() as int;
        assert forall|at: int| is_upward_step(name@, at) && at + 2 == length implies at
            == start by {}
        if run == 2 && dots {
            assert(is_upward_step(name@, start));
        }
    }
    if run == 2 && dots {
        refused = true;
    }
    !refused
}

} // verus!
