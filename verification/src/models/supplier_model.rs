//! The supplier as mathematics: what it is made of, and what each step makes of it.
//!
//! A request runs through three parts in turn. Setup, when the working directory
//! does not hold the stage asked for: the directory is removed and created anew, the
//! stage is downloaded and every environment is built. Refresh: upstream is asked for
//! news, and if there is any, the stage is downloaded and built again. Serving: the
//! environment and the component are looked for, the component is packaged into an
//! archive beside it, and the archive is read and removed.

use crate::error::ErrorView;
use crate::error_kind::{
    FAILED_TO_DELETE_FILE, FAILED_TO_READ, FILE_NOT_FOUND, GIT_ERROR, NOT_FOUND,
    UNEXPECTED_RESPONSE_TYPE,
};
use crate::models::working_tree::{
    archive_file, component_dir, download_dir, environment_dir, is_acceptable_name, is_segment,
};
use vstd::prelude::*;

verus! {

/// What a supplier asks to have done next, as plain values.
pub enum ActionView {
    Await,
    RemoveTree { path: Seq<Seq<char>> },
    CreateTree { path: Seq<Seq<char>> },
    Download { target: Seq<Seq<char>>, stage: Seq<char> },
    Build { environment: Seq<char>, source: Seq<Seq<char>>, target: Seq<Seq<char>> },
    CheckVersion { target: Seq<Seq<char>>, stage: Seq<char> },
    Probe { path: Seq<Seq<char>> },
    Package { source: Seq<Seq<char>>, target: Seq<Seq<char>> },
    Open { path: Seq<Seq<char>> },
    Read { path: Seq<Seq<char>> },
    RemoveFile { path: Seq<Seq<char>> },
    Reply { result: Result<Seq<u8>, ErrorView> },
    Stop { path: Seq<Seq<char>> },
}

/// What came of the action that a supplier asked for last, as plain values.
pub enum OutcomeView {
    Done,
    Missing,
    Failed(ErrorView),
    Found(bool),
    Version(bool),
    Contents(Seq<u8>),
}

/// Where a supplier stands: idle, stopped, or waiting for the outcome of one action.
pub enum PhaseView {
    Idle,
    /// Setup: the old directory is being removed.
    Clearing,
    /// Setup: the directory is being created.
    Creating,
    /// Setup: the stage is being downloaded afresh.
    Fetching,
    /// The environment at `next` is being built, during setup or after a refresh.
    Building { next: nat, refresh: bool },
    /// Upstream is being asked for news.
    Checking,
    /// Refresh: the news is being downloaded.
    Updating,
    ProbingEnvironment,
    ProbingComponent,
    Packaging,
    Opening,
    Reading,
    /// The archive was read and is being removed.
    Removing { bytes: Seq<u8> },
    /// The request failed with `error`; what there may be of the archive is being removed.
    Discarding { error: ErrorView },
    Stopped,
}

/// The request that a supplier is serving, and the token drawn for it.
pub struct RequestView {
    pub stage: Seq<char>,
    pub environment: Seq<char>,
    pub component: Seq<char>,
    pub token: Seq<char>,
}

/// A supplier as plain values.
pub struct SupplierView {
    pub environments: Seq<Seq<char>>,
    pub working: Seq<char>,
    pub extension: Seq<char>,
    /// The stage that the directory holds, once a setup has gone through.
    pub last_stage: Option<Seq<char>>,
    /// The request in progress; what is left of the last one when idle.
    pub request: RequestView,
    pub phase: PhaseView,
}

/// A supplier that has not been asked for anything yet: idle, with nothing set up.
pub open spec fn fresh(
    environments: Seq<Seq<char>>,
    extension: Seq<char>,
    working: Seq<char>,
) -> SupplierView {
    SupplierView {
        environments,
        working,
        extension,
        last_stage: None,
        request: RequestView {
            stage: Seq::empty(),
            environment: Seq::empty(),
            component: Seq::empty(),
            token: Seq::empty(),
        },
        phase: PhaseView::Idle,
    }
}

/// The failure that stands for an environment that is not there.
pub open spec fn environment_unknown(environment: Seq<char>) -> ErrorView {
    ErrorView {
        kind: NOT_FOUND@,
        message: "environment '"@ + environment + "' does not exist"@,
    }
}

/// The failure that stands for a component that is not there.
pub open spec fn component_unknown(component: Seq<char>) -> ErrorView {
    ErrorView { kind: NOT_FOUND@, message: "component '"@ + component + "' does not exist"@ }
}

/// The failure that stands for a stage whose name the service does not accept.
pub open spec fn stage_refused(stage: Seq<char>) -> ErrorView {
    ErrorView { kind: GIT_ERROR@, message: "stage '"@ + stage + "' is not a valid name"@ }
}

/// The failure with which a supplier that is serving refuses another request.
pub open spec fn busy() -> ErrorView {
    ErrorView {
        kind: UNEXPECTED_RESPONSE_TYPE@,
        message: "the supplier cannot take a request while it serves another"@,
    }
}

/// The failure that stands for an outcome that the supplier's last action cannot
/// have had.
pub open spec fn out_of_turn() -> ErrorView {
    ErrorView {
        kind: UNEXPECTED_RESPONSE_TYPE@,
        message: "the outcome does not answer what the supplier asked for"@,
    }
}

/// The failure that stands for an archive that could not be opened.
pub open spec fn unopened(cause: ErrorView) -> ErrorView {
    ErrorView { kind: FILE_NOT_FOUND@, message: "failed to open package file: "@ + cause.message }
}

/// The failure that stands for an archive that could not be read.
pub open spec fn unread(cause: ErrorView) -> ErrorView {
    ErrorView { kind: FAILED_TO_READ@, message: "failed to read package file: "@ + cause.message }
}

/// The failure that stands for an archive that could not be removed.
pub open spec fn undeleted(cause: ErrorView) -> ErrorView {
    ErrorView {
        kind: FAILED_TO_DELETE_FILE@,
        message: "failed to delete package file: "@ + cause.message,
    }
}

/// The archive of the request in progress.
pub open spec fn archive_of(v: SupplierView) -> Seq<Seq<char>> {
    archive_file(v.working, v.request.environment, v.request.token, v.extension)
}

/// The request is over: it is answered with `result`, and the supplier is idle.
pub open spec fn replied(v: SupplierView, result: Result<Seq<u8>, ErrorView>) -> (
    SupplierView,
    ActionView,
) {
    (SupplierView { phase: PhaseView::Idle, ..v }, ActionView::Reply { result })
}

/// The request fails after the packager was asked for the archive: whatever there is
/// of the archive is removed before the answer goes out.
pub open spec fn discarded(v: SupplierView, error: ErrorView) -> (SupplierView, ActionView) {
    (
        SupplierView { phase: PhaseView::Discarding { error }, ..v },
        ActionView::RemoveFile { path: archive_of(v) },
    )
}

/// Serving begins: the environment is looked for, unless its name rules that out.
pub open spec fn served(v: SupplierView) -> (SupplierView, ActionView) {
    if is_segment(v.request.environment) {
        (
            SupplierView { phase: PhaseView::ProbingEnvironment, ..v },
            ActionView::Probe { path: environment_dir(v.working, v.request.environment) },
        )
    } else {
        replied(v, Err(environment_unknown(v.request.environment)))
    }
}

/// The environment is there: the component is looked for, unless its name rules
/// that out.
pub open spec fn located(v: SupplierView) -> (SupplierView, ActionView) {
    if is_segment(v.request.component) {
        (
            SupplierView { phase: PhaseView::ProbingComponent, ..v },
            ActionView::Probe {
                path: component_dir(v.working, v.request.environment, v.request.component),
            },
        )
    } else {
        replied(v, Err(component_unknown(v.request.component)))
    }
}

/// The refresh begins: upstream is asked for news of the stage.
pub open spec fn checked(v: SupplierView) -> (SupplierView, ActionView) {
    (
        SupplierView { phase: PhaseView::Checking, ..v },
        ActionView::CheckVersion { target: download_dir(v.working), stage: v.request.stage },
    )
}

/// The environments from `next` on are built, one action each. With none left, a
/// setup is complete and the stage is recorded; a refresh goes on to serve.
pub open spec fn built_from(v: SupplierView, next: nat, refresh: bool) -> (
    SupplierView,
    ActionView,
) {
    if next < v.environments.len() {
        (
            SupplierView { phase: PhaseView::Building { next, refresh }, ..v },
            ActionView::Build {
                environment: v.environments[next as int],
                source: download_dir(v.working),
                target: environment_dir(v.working, v.environments[next as int]),
            },
        )
    } else if refresh {
        served(v)
    } else {
        checked(SupplierView { last_stage: Some(v.request.stage), ..v })
    }
}

/// What a supplier does with a request, for which `token` was drawn.
pub open spec fn begun(v: SupplierView, request: RequestView) -> (SupplierView, ActionView) {
    match v.phase {
        PhaseView::Idle => {
            let taken = SupplierView { request, ..v };
            if !is_acceptable_name(request.stage) {
                replied(taken, Err(stage_refused(request.stage)))
            } else if v.last_stage == Some(request.stage) {
                checked(taken)
            } else {
                (
                    SupplierView { phase: PhaseView::Clearing, ..taken },
                    ActionView::RemoveTree { path: seq![v.working] },
                )
            }
        },
        PhaseView::Stopped => (v, ActionView::Stop { path: seq![v.working] }),
        _ => (v, ActionView::Reply { result: Err(busy()) }),
    }
}

/// What a supplier does when the action it asked for last has come to `outcome`.
pub open spec fn resumed(v: SupplierView, outcome: OutcomeView) -> (SupplierView, ActionView) {
    match v.phase {
        PhaseView::Idle => (v, ActionView::Await),
        PhaseView::Stopped => (v, ActionView::Stop { path: seq![v.working] }),
        PhaseView::Clearing => match outcome {
            OutcomeView::Done | OutcomeView::Missing => (
                SupplierView { phase: PhaseView::Creating, ..v },
                ActionView::CreateTree { path: seq![v.working] },
            ),
            OutcomeView::Failed(error) => replied(v, Err(error)),
            _ => replied(v, Err(out_of_turn())),
        },
        PhaseView::Creating => match outcome {
            OutcomeView::Done => (
                SupplierView { phase: PhaseView::Fetching, ..v },
                ActionView::Download { target: download_dir(v.working), stage: v.request.stage },
            ),
            OutcomeView::Failed(error) => replied(v, Err(error)),
            _ => replied(v, Err(out_of_turn())),
        },
        PhaseView::Fetching => match outcome {
            OutcomeView::Done => built_from(v, 0, false),
            OutcomeView::Failed(error) => replied(v, Err(error)),
            _ => replied(v, Err(out_of_turn())),
        },
        PhaseView::Building { next, refresh } => match outcome {
            OutcomeView::Done => built_from(v, next + 1, refresh),
            OutcomeView::Failed(error) => replied(v, Err(error)),
            _ => replied(v, Err(out_of_turn())),
        },
        PhaseView::Checking => match outcome {
            OutcomeView::Version(true) => (
                SupplierView { phase: PhaseView::Updating, ..v },
                ActionView::Download { target: download_dir(v.working), stage: v.request.stage },
            ),
            OutcomeView::Version(false) => served(v),
            OutcomeView::Failed(error) => replied(v, Err(error)),
            _ => replied(v, Err(out_of_turn())),
        },
        PhaseView::Updating => match outcome {
            OutcomeView::Done => built_from(v, 0, true),
            OutcomeView::Failed(error) => replied(v, Err(error)),
            _ => replied(v, Err(out_of_turn())),
        },
        PhaseView::ProbingEnvironment => match outcome {
            OutcomeView::Found(true) => located(v),
            OutcomeView::Found(false) => replied(
                v,
                Err(environment_unknown(v.request.environment)),
            ),
            OutcomeView::Failed(error) => replied(v, Err(error)),
            _ => replied(v, Err(out_of_turn())),
        },
        PhaseView::ProbingComponent => match outcome {
            OutcomeView::Found(true) => (
                SupplierView { phase: PhaseView::Packaging, ..v },
                ActionView::Package {
                    source: component_dir(v.working, v.request.environment, v.request.component),
                    target: archive_of(v),
                },
            ),
            OutcomeView::Found(false) => replied(v, Err(component_unknown(v.request.component))),
            OutcomeView::Failed(error) => replied(v, Err(error)),
            _ => replied(v, Err(out_of_turn())),
        },
        PhaseView::Packaging => match outcome {
            OutcomeView::Done => (
                SupplierView { phase: PhaseView::Opening, ..v },
                ActionView::Open { path: archive_of(v) },
            ),
            OutcomeView::Failed(error) => discarded(v, error),
            _ => discarded(v, out_of_turn()),
        },
        PhaseView::Opening => match outcome {
            OutcomeView::Done => (
                SupplierView { phase: PhaseView::Reading, ..v },
                ActionView::Read { path: archive_of(v) },
            ),
            OutcomeView::Failed(error) => discarded(v, unopened(error)),
            _ => discarded(v, out_of_turn()),
        },
        PhaseView::Reading => match outcome {
            OutcomeView::Contents(bytes) => (
                SupplierView { phase: PhaseView::Removing { bytes }, ..v },
                ActionView::RemoveFile { path: archive_of(v) },
            ),
            OutcomeView::Failed(error) => discarded(v, unread(error)),
            _ => discarded(v, out_of_turn()),
        },
        PhaseView::Removing { bytes } => match outcome {
            OutcomeView::Done => replied(v, Ok(bytes)),
            OutcomeView::Failed(error) => replied(v, Err(undeleted(error))),
            _ => replied(v, Err(out_of_turn())),
        },
        PhaseView::Discarding { error } => replied(v, Err(error)),
    }
}

/// What a supplier does when it is told to end.
pub open spec fn halted(v: SupplierView) -> (SupplierView, ActionView) {
    (SupplierView { phase: PhaseView::Stopped, ..v }, ActionView::Stop { path: seq![v.working] })
}

} // verus!
