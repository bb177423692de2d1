//! The downloader that materialises a stage from a git repository: who it signs in
//! as, and what it decides between its calls to the repository.

use crate::error::{prefixed, Error, ErrorView};
use crate::error_kind::GIT_ERROR;
use crate::text::same_bytes;
use vstd::prelude::*;
use vstd::string::StringExecFns;

verus! {

/// The remote that stages are fetched from.
pub const GIT_REMOTE_NAME: &'static str = "origin";

/// A [`GitDownloader`] as plain values.
pub struct DownloaderView {
    pub repository_url: Seq<char>,
    pub username: Seq<char>,
    pub password: Seq<char>,
}

pub struct GitDownloader {
    repository_url: String,
    username: String,
    password: String,
}

impl View for GitDownloader {
    type V = DownloaderView;

    closed spec fn view(&self) -> DownloaderView {
        DownloaderView {
            repository_url: self.repository_url@,
            username: self.username@,
            password: self.password@,
        }
    }
}

/// How a stage gets into a directory.
#[derive(Debug, PartialEq, Eq, Clone, Copy)]
pub enum DownloadMode {
    /// The directory holds a repository: fetch, then merge.
    Pull,
    /// It holds none: clone the stage's branch.
    Clone,
}

/// What is to be done with a fetched commit.
#[derive(Debug, PartialEq, Eq, Clone, Copy)]
pub enum MergeKind {
    /// The local branch is behind: move it forward, or create it where it is missing.
    FastForward,
    /// Both sides have moved: merge the trees.
    Normal,
    /// There is nothing to merge.
    Nothing,
}

/// How a fast-forward is carried out.
#[derive(Debug, PartialEq, Eq, Clone, Copy)]
pub enum FastForwardStep {
    /// The local branch exists: retarget it and check it out, overwriting.
    Advance,
    /// It does not: create it at the fetched commit and check it out, overwriting,
    /// with conflicts allowed and written in the merge style.
    Create,
}

/// How a merge of the trees ends.
#[derive(Debug, PartialEq, Eq, Clone, Copy)]
pub enum MergeCompletion {
    /// The merge has conflicts: check the merged index out as it is, and commit nothing.
    KeepConflicts,
    /// It has none: commit the merged tree with both sides as parents, and check it out.
    Commit,
}

pub open spec fn branch_reference(branch: Seq<char>) -> Seq<char> {
    "refs/heads/"@ + branch
}

pub open spec fn remote_reference(stage: Seq<char>) -> Seq<char> {
    "refs/remotes/origin/"@ + stage
}

pub open spec fn fast_forward_message(name: Seq<char>, id: Seq<char>) -> Seq<char> {
    "fast forward: setting "@ + name + " to id: "@ + id
}

pub open spec fn reference_message(branch: Seq<char>, id: Seq<char>) -> Seq<char> {
    "setting "@ + branch + " to "@ + id
}

pub open spec fn merge_message(remote: Seq<char>, local: Seq<char>) -> Seq<char> {
    "merge: "@ + remote + " into "@ + local
}

/// The failure that stands for a remote branch that points at no commit.
pub open spec fn remote_head_unknown() -> ErrorView {
    ErrorView { kind: GIT_ERROR@, message: "failed to get oid of remote head"@ }
}

impl GitDownloader {
    pub fn new(repository_url: String, username: String, password: String) -> (downloader: Self)
        ensures
            downloader@ == (DownloaderView {
                repository_url: repository_url@,
                username: username@,
                password: password@,
            }),
    {
        Self { repository_url, username, password }
    }

    pub fn repository_url(&self) -> (repository_url: &str)
        ensures
            repository_url@ == self@.repository_url,
    {
        self.repository_url.as_str()
    }

    pub fn username(&self) -> (username: &str)
        ensures
            username@ == self@.username,
    {
        self.username.as_str()
    }

    pub fn password(&self) -> (password: &str)
        ensures
            password@ == self@.password,
    {
        self.password.as_str()
    }

    /// A directory that already holds a repository is pulled into; any other is
    /// cloned into.
    pub fn download_mode(&self, repository_present: bool) -> (mode: DownloadMode)
        ensures
            mode == if repository_present {
                DownloadMode::Pull
            } else {
                DownloadMode::Clone
            },
    {
        if repository_present {
            DownloadMode::Pull
        } else {
            DownloadMode::Clone
        }
    }

    /// What to do with a fetched commit, given what the analysis of the merge found
    /// possible. A fast-forward is preferred to a merge.
    pub fn merge(&self, fast_forward: bool, normal: bool) -> (kind: MergeKind)
        ensures
            kind == if fast_forward {
                MergeKind::FastForward
            } else if normal {
                MergeKind::Normal
            } else {
                MergeKind::Nothing
            },
    {
        if fast_forward {
            MergeKind::FastForward
        } else if normal {
            MergeKind::Normal
        } else {
            MergeKind::Nothing
        }
    }

    /// The name of the local branch that tracks `branch`.
    pub fn branch_reference(&self, branch: &str) -> (name: String)
        ensures
            name@ == branch_reference(branch@),
    {
        prefixed("refs/heads/", branch)
    }

    /// The name under which the remote's `stage` is known locally.
    pub fn remote_reference(&self, stage: &str) -> (name: String)
        ensures
            name@ == remote_reference(stage@),
    {
        prefixed("refs/remotes/origin/", stage)
    }

    /// How to fast-forward, given whether the local branch was found.
    pub fn fast_forward(&self, reference_found: bool) -> (step: FastForwardStep)
        ensures
            step == if reference_found {
                FastForwardStep::Advance
            } else {
                FastForwardStep::Create
            },
    {
        if reference_found {
            FastForwardStep::Advance
        } else {
            FastForwardStep::Create
        }
    }

    /// The reflog message of a branch moved forward to the commit `id`.
    pub fn fast_forward_message(&self, name: &str, id: &str) -> (message: String)
        ensures
            message@ == fast_forward_message(name@, id@),
    {
        let mut message = String::from_str("fast forward: setting ");
        message.append(name);
        message.append(" to id: ");
        message.append(id);
        message
    }

    /// The reflog message of a branch created at the commit `id`.
    pub fn set_reference_to_commit(&self, remote_branch: &str, id: &str) -> (message: String)
        ensures
            message@ == reference_message(remote_branch@, id@),
    {
        let mut message = String::from_str("setting ");
        message.append(remote_branch);
        message.append(" to ");
        message.append(id);
        message
    }

    /// How a merge of the trees ends, given whether the merged index has conflicts.
    pub fn normal_merge(&self, has_conflicts: bool) -> (completion: MergeCompletion)
        ensures
            completion == if has_conflicts {
                MergeCompletion::KeepConflicts
            } else {
                MergeCompletion::Commit
            },
    {
        if has_conflicts {
            MergeCompletion::KeepConflicts
        } else {
            MergeCompletion::Commit
        }
    }

    /// The message of the commit that merges `remote` into `local`.
    pub fn merge_message(&self, remote: &str, local: &str) -> (message: String)
        ensures
            message@ == merge_message(remote@, local@),
    {
        let mut message = String::from_str("merge: ");
        message.append(remote);
        message.append(" into ");
        message.append(local);
        message
    }

    /// Whether upstream has moved: the remote branch points at another commit than
    /// the local head. A remote branch that points at no commit is a failure.
    pub fn is_new_version_available(&self, local: &[u8], remote: Option<&[u8]>) -> (moved: Result<
        bool,
        Error,
    >)
        ensures
            match remote {
                Some(remote) => moved == Ok::<bool, Error>(local@ != remote@),
                None => moved is Err && moved->Err_0@ == remote_head_unknown(),
            },
    {
        match remote {
            Some(remote) => Ok(!same_bytes(local, remote)),
            None => Err(
                Error::new(
                    String::from_str(GIT_ERROR),
                    String::from_str("failed to get oid of remote head"),
                ),
            ),
        }
    }
}

} // verus!
