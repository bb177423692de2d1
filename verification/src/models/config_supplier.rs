//! A supplier: the worker that owns one working directory and serves one request at a
//! time from it.
//!
//! The supplier decides; it does not act. Each call hands back the next thing to do on
//! its behalf ([`SupplierAction`]), and what came of it is handed in with the next
//! call ([`Outcome`]). A request starts with [`ConfigSupplier::accept`] and is over
//! when the action is a reply.

use crate::error::{prefixed, Error, ErrorView};
use crate::error_kind::{
    FAILED_TO_DELETE_FILE, FAILED_TO_READ, FILE_NOT_FOUND, GIT_ERROR, NOT_FOUND,
    UNEXPECTED_RESPONSE_TYPE,
};
use crate::models::supplier_model::{
    archive_of, begun, built_from, busy, checked, component_unknown, discarded,
    environment_unknown, fresh, halted, located, out_of_turn, replied, resumed, served, stage_refused,
    undeleted, unopened, unread, ActionView, OutcomeView, PhaseView, RequestView, SupplierView,
};
use crate::models::token::{fresh_token, is_token};
use crate::models::working_tree::{download_dir, is_name_acceptable, is_name_segment, TreePath};
use crate::text::{same_text, texts};
use vstd::prelude::*;
use vstd::string::StringExecFns;

verus! {

/// What a supplier asks to have done next.
#[derive(Debug, PartialEq)]
pub enum SupplierAction {
    /// Wait for the next request.
    Await,
    /// Remove a directory and all below it.
    RemoveTree { path: TreePath },
    /// Create a directory, and those above it as needed.
    CreateTree { path: TreePath },
    /// Materialise `stage` in `target`: afresh, or on top of what is there.
    Download { target: TreePath, stage: String },
    /// Build the tree of one environment from the checkout in `source`.
    Build { environment: String, source: TreePath, target: TreePath },
    /// Ask whether upstream has moved past what `target` holds of `stage`.
    CheckVersion { target: TreePath, stage: String },
    /// Ask whether `path` exists.
    Probe { path: TreePath },
    /// Archive the directory `source` into the file `target`.
    Package { source: TreePath, target: TreePath },
    /// Open the file at `path` for reading.
    Open { path: TreePath },
    /// Read the opened file at `path` to its end.
    Read { path: TreePath },
    /// Remove the file at `path`.
    RemoveFile { path: TreePath },
    /// Answer the request: the archive's bytes, or why there are none.
    Reply { result: Result<Vec<u8>, Error> },
    /// The supplier is done for good; its directory at `path` is to be removed.
    Stop { path: TreePath },
}

impl View for SupplierAction {
    type V = ActionView;

    open spec fn view(&self) -> ActionView {
        match self {
            SupplierAction::Await => ActionView::Await,
            SupplierAction::RemoveTree { path } => ActionView::RemoveTree { path: path@ },
            SupplierAction::CreateTree { path } => ActionView::CreateTree { path: path@ },
            SupplierAction::Download { target, stage } => ActionView::Download {
                target: target@,
                stage: stage@,
            },
            SupplierAction::Build { environment, source, target } => ActionView::Build {
                environment: environment@,
                source: source@,
                target: target@,
            },
            SupplierAction::CheckVersion { target, stage } => ActionView::CheckVersion {
                target: target@,
                stage: stage@,
            },
            SupplierAction::Probe { path } => ActionView::Probe { path: path@ },
            SupplierAction::Package { source, target } => ActionView::Package {
                source: source@,
                target: target@,
            },
            SupplierAction::Open { path } => ActionView::Open { path: path@ },
            SupplierAction::Read { path } => ActionView::Read { path: path@ },
            SupplierAction::RemoveFile { path } => ActionView::RemoveFile { path: path@ },
            SupplierAction::Reply { result } => ActionView::Reply {
                result: match result {
                    Ok(bytes) => Ok(bytes@),
                    Err(error) => Err(error@),
                },
            },
            SupplierAction::Stop { path } => ActionView::Stop { path: path@ },
        }
    }
}

/// What came of the action that a supplier asked for last.
#[derive(Debug, PartialEq)]
pub enum Outcome {
    /// It was done.
    Done,
    /// There was nothing to do it to: the file or directory did not exist.
    Missing,
    /// It failed.
    Failed(Error),
    /// The answer to a probe: whether the path exists.
    Found(bool),
    /// The answer to a version check: whether upstream has moved.
    Version(bool),
    /// What a read brought.
    Contents(Vec<u8>),
}

impl View for Outcome {
    type V = OutcomeView;

    open spec fn view(&self) -> OutcomeView {
        match self {
            Outcome::Done => OutcomeView::Done,
            Outcome::Missing => OutcomeView::Missing,
            Outcome::Failed(error) => OutcomeView::Failed(error@),
            Outcome::Found(found) => OutcomeView::Found(*found),
            Outcome::Version(moved) => OutcomeView::Version(*moved),
            Outcome::Contents(bytes) => OutcomeView::Contents(bytes@),
        }
    }
}

/// A reply as plain values.
pub open spec fn result_view(result: Result<Vec<u8>, Error>) -> Result<Seq<u8>, ErrorView> {
    match result {
        Ok(bytes) => Ok(bytes@),
        Err(error) => Err(error@),
    }
}

enum Phase {
    Idle,
    Clearing,
    Creating,
    Fetching,
    Building { next: usize, refresh: bool },
    Checking,
    Updating,
    ProbingEnvironment,
    ProbingComponent,
    Packaging,
    Opening,
    Reading,
    Removing { bytes: Vec<u8> },
    Discarding { error: Error },
    Stopped,
}

impl View for Phase {
    type V = PhaseView;

    closed spec fn view(&self) -> PhaseView {
        match self {
            Phase::Idle => PhaseView::Idle,
            Phase::Clearing => PhaseView::Clearing,
            Phase::Creating => PhaseView::Creating,
            Phase::Fetching => PhaseView::Fetching,
            Phase::Building { next, refresh } => PhaseView::Building {
                next: *next as nat,
                refresh: *refresh,
            },
            Phase::Checking => PhaseView::Checking,
            Phase::Updating => PhaseView::Updating,
            Phase::ProbingEnvironment => PhaseView::ProbingEnvironment,
            Phase::ProbingComponent => PhaseView::ProbingComponent,
            Phase::Packaging => PhaseView::Packaging,
            Phase::Opening => PhaseView::Opening,
            Phase::Reading => PhaseView::Reading,
            Phase::Removing { bytes } => PhaseView::Removing { bytes: bytes@ },
            Phase::Discarding { error } => PhaseView::Discarding { error: error@ },
            Phase::Stopped => PhaseView::Stopped,
        }
    }
}

fn environment_unknown_error(environment: &str) -> (error: Error)
    ensures
        error@ == environment_unknown(environment@),
{
    let mut message = String::from_str("environment '");
    message.append(environment);
    message.append("' does not exist");
    Error::new(String::from_str(NOT_FOUND), message)
}

fn component_unknown_error(component: &str) -> (error: Error)
    ensures
        error@ == component_unknown(component@),
{
    let mut message = String::from_str("component '");
    message.append(component);
    message.append("' does not exist");
    Error::new(String::from_str(NOT_FOUND), message)
}

fn stage_refused_error(stage: &str) -> (error: Error)
    ensures
        error@ == stage_refused(stage@),
{
    let mut message = String::from_str("stage '");
    message.append(stage);
    message.append("' is not a valid name");
    Error::new(String::from_str(GIT_ERROR), message)
}

fn busy_error() -> (error: Error)
    ensures
        error@ == busy(),
{
    Error::new(
        String::from_str(UNEXPECTED_RESPONSE_TYPE),
        String::from_str("the supplier cannot take a request while it serves another"),
    )
}

fn out_of_turn_error() -> (error: Error)
    ensures
        error@ == out_of_turn(),
{
    Error::new(
        String::from_str(UNEXPECTED_RESPONSE_TYPE),
        String::from_str("the outcome does not answer what the supplier asked for"),
    )
}

fn unopened_error(cause: &Error) -> (error: Error)
    ensures
        error@ == unopened(cause@),
{
    Error::new(
        String::from_str(FILE_NOT_FOUND),
        prefixed("failed to open package file: ", cause.message()),
    )
}

fn unread_error(cause: &Error) -> (error: Error)
    ensures
        error@ == unread(cause@),
{
    Error::new(
        String::from_str(FAILED_TO_READ),
        prefixed("failed to read package file: ", cause.message()),
    )
}

fn undeleted_error(cause: &Error) -> (error: Error)
    ensures
        error@ == undeleted(cause@),
{
    Error::new(
        String::from_str(FAILED_TO_DELETE_FILE),
        prefixed("failed to delete package file: ", cause.message()),
    )
}

pub struct ConfigSupplier {
    environments: Vec<String>,
    working_path: String,
    extension: String,
    last_stage: Option<String>,
    stage: String,
    environment: String,
    component: String,
    token: String,
    phase: Phase,
}

impl View for ConfigSupplier {
    type V = SupplierView;

    closed spec fn view(&self) -> SupplierView {
        SupplierView {
            environments: texts(self.environments@),
            working: self.working_path@,
            extension: self.extension@,
            last_stage: match self.last_stage {
                Some(stage) => Some(stage@),
                None => None,
            },
            request: RequestView {
                stage: self.stage@,
                environment: self.environment@,
                component: self.component@,
                token: self.token@,
            },
            phase: self.phase@,
        }
    }
}

impl ConfigSupplier {
    /// A supplier that builds `environments`, names its archives with `extension` and
    /// keeps everything under `working_path`. Nothing is set up before the first
    /// request.
    pub fn new(environments: Vec<String>, extension: String, working_path: String) -> (supplier:
        Self)
        ensures
            supplier@ == fresh(texts(environments@), extension@, working_path@),
    {
        ConfigSupplier {
            environments,
            working_path,
            extension,
            last_stage: None,
            stage: String::new(),
            environment: String::new(),
            component: String::new(),
            token: String::new(),
            phase: Phase::Idle,
        }
    }

    pub fn working_path(&self) -> (path: &str)
        ensures
            path@ == self@.working,
    {
        self.working_path.as_str()
    }

    /// The stage that the working directory holds, if a setup has gone through.
    pub fn last_stage(&self) -> (stage: Option<&str>)
        ensures
            match stage {
                Some(stage) => self@.last_stage == Some(stage@),
                None => self@.last_stage.is_none(),
            },
    {
        match &self.last_stage {
            Some(stage) => Some(stage.as_str()),
            None => None,
        }
    }

    /// Whether the supplier is free to take a request.
    pub fn is_idle(&self) -> (idle: bool)
        ensures
            idle == (self@.phase == PhaseView::Idle),
    {
        match &self.phase {
            Phase::Idle => true,
            _ => false,
        }
    }

    fn reply(&mut self, result: Result<Vec<u8>, Error>) -> (action: SupplierAction)
        ensures
            (final(self)@, action@) == replied(old(self)@, result_view(result)),
    {
        self.phase = Phase::Idle;
        SupplierAction::Reply { result }
    }

    fn archive(&self) -> (path: TreePath)
        ensures
            path@ == archive_of(self@),
    {
        TreePath::archive(
            self.working_path.as_str(),
            self.environment.as_str(),
            self.token.as_str(),
            self.extension.as_str(),
        )
    }

    fn discard(&mut self, error: Error) -> (action: SupplierAction)
        ensures
            (final(self)@, action@) == discarded(old(self)@, error@),
    {
        let path = self.archive();
        self.phase = Phase::Discarding { error };
        SupplierAction::RemoveFile { path }
    }

    fn serve(&mut self) -> (action: SupplierAction)
        ensures
            (final(self)@, action@) == served(old(self)@),
    {
        if is_name_segment(self.environment.as_str()) {
            self.phase = Phase::ProbingEnvironment;
            SupplierAction::Probe {
                path: TreePath::environment(
                    self.working_path.as_str(),
                    self.environment.as_str(),
                ),
            }
        } else {
            let error = environment_unknown_error(self.environment.as_str());
            self.reply(Err(error))
        }
    }

    fn locate(&mut self) -> (action: SupplierAction)
        ensures
            (final(self)@, action@) == located(old(self)@),
    {
        if is_name_segment(self.component.as_str()) {
            self.phase = Phase::ProbingComponent;
            SupplierAction::Probe {
                path: TreePath::component(
                    self.working_path.as_str(),
                    self.environment.as_str(),
                    self.component.as_str(),
                ),
            }
        } else {
            let error = component_unknown_error(self.component.as_str());
            self.reply(Err(error))
        }
    }

    fn check(&mut self) -> (action: SupplierAction)
        ensures
            (final(self)@, action@) == checked(old(self)@),
    {
        self.phase = Phase::Checking;
        SupplierAction::CheckVersion {
            target: TreePath::download(self.working_path.as_str()),
            stage: self.stage.clone(),
        }
    }

    fn download(&mut self, phase: Phase) -> (action: SupplierAction)
        ensures
            final(self)@ == (SupplierView { phase: phase@, ..old(self)@ }),
            action@ == (ActionView::Download {
                target: download_dir(old(self)@.working),
                stage: old(self)@.request.stage,
            }),
    {
        self.phase = phase;
        SupplierAction::Download {
            target: TreePath::download(self.working_path.as_str()),
            stage: self.stage.clone(),
        }
    }

    fn build_from(&mut self, next: usize, refresh: bool) -> (action: SupplierAction)
        ensures
            (final(self)@, action@) == built_from(old(self)@, next as nat, refresh),
    {
        if next < self.environments.len() {
            let environment = self.environments[next].clone();
            let target = TreePath::environment(self.working_path.as_str(), environment.as_str());
            self.phase = Phase::Building { next, refresh };
            SupplierAction::Build {
                environment,
                source: TreePath::download(self.working_path.as_str()),
                target,
            }
        } else if refresh {
            self.serve()
        } else {
            self.last_stage = Some(self.stage.clone());
            self.check()
        }
    }

    /// Takes a request for which `token` was drawn. An idle supplier starts on it: with
    /// a refresh if its directory holds the stage, with a setup if not. A supplier
    /// that is serving refuses it; one that has stopped stays stopped.
    pub fn begin(&mut self, stage: &str, environment: &str, component: &str, token: &str) -> (action:
        SupplierAction)
        ensures
            (final(self)@, action@) == begun(
                old(self)@,
                RequestView {
                    stage: stage@,
                    environment: environment@,
                    component: component@,
                    token: token@,
                },
            ),
    {
        match &self.phase {
            Phase::Idle => {},
            Phase::Stopped => {
                return SupplierAction::Stop { path: TreePath::root(self.working_path.as_str()) };
            },
            _ => {
                return SupplierAction::Reply { result: Err(busy_error()) };
            },
        }
        self.stage = String::from_str(stage);
        self.environment = String::from_str(environment);
        self.component = String::from_str(component);
        self.token = String::from_str(token);
        if !is_name_acceptable(stage) {
            let error = stage_refused_error(stage);
            return self.reply(Err(error));
        }
        let materialised = match &self.last_stage {
            Some(last_stage) => same_text(last_stage.as_str(), stage),
            None => false,
        };
        if materialised {
            self.check()
        } else {
            self.phase = Phase::Clearing;
            SupplierAction::RemoveTree { path: TreePath::root(self.working_path.as_str()) }
        }
    }

    /// Takes a request as [`ConfigSupplier::begin`] does, with a token drawn here.
    pub fn accept(&mut self, stage: &str, environment: &str, component: &str) -> (action:
        SupplierAction)
        ensures
            exists|token: Seq<char>|
                is_token(token) && (final(self)@, action@) == #[trigger] begun(
                    old(self)@,
                    RequestView {
                        stage: stage@,
                        environment: environment@,
                        component: component@,
                        token,
                    },
                ),
    {
        let token = fresh_token();
        self.begin(stage, environment, component, token.as_str())
    }

    /// Takes what came of the action asked for last, and says what to do next.
    pub fn resume(&mut self, outcome: Outcome) -> (action: SupplierAction)
        ensures
            (final(self)@, action@) == resumed(old(self)@, outcome@),
    {
        let mut phase = Phase::Idle;
        core::mem::swap(&mut self.phase, &mut phase);
        match phase {
            Phase::Idle => SupplierAction::Await,
            Phase::Stopped => {
                self.phase = Phase::Stopped;
                SupplierAction::Stop { path: TreePath::root(self.working_path.as_str()) }
            },
            Phase::Clearing => match outcome {
                Outcome::Done | Outcome::Missing => {
                    self.phase = Phase::Creating;
                    SupplierAction::CreateTree {
                        path: TreePath::root(self.working_path.as_str()),
                    }
                },
                Outcome::Failed(error) => self.reply(Err(error)),
                _ => self.reply(Err(out_of_turn_error())),
            },
            Phase::Creating => match outcome {
                Outcome::Done => self.download(Phase::Fetching),
                Outcome::Failed(error) => self.reply(Err(error)),
                _ => self.reply(Err(out_of_turn_error())),
            },
            Phase::Fetching => match outcome {
                Outcome::Done => self.build_from(0, false),
                Outcome::Failed(error) => self.reply(Err(error)),
                _ => self.reply(Err(out_of_turn_error())),
            },
            Phase::Building { next, refresh } => match outcome {
                Outcome::Done => {
                    if next < self.environments.len() {
                        self.build_from(next + 1, refresh)
                    } else {
                        self.build_from(next, refresh)
                    }
                },
                Outcome::Failed(error) => self.reply(Err(error)),
                _ => self.reply(Err(out_of_turn_error())),
            },
            Phase::Checking => match outcome {
                Outcome::Version(true) => self.download(Phase::Updating),
                Outcome::Version(false) => self.serve(),
                Outcome::Failed(error) => self.reply(Err(error)),
                _ => self.reply(Err(out_of_turn_error())),
            },
            Phase::Updating => match outcome {
                Outcome::Done => self.build_from(0, true),
                Outcome::Failed(error) => self.reply(Err(error)),
                _ => self.reply(Err(out_of_turn_error())),
            },
            Phase::ProbingEnvironment => match outcome {
                Outcome::Found(true) => self.locate(),
                Outcome::Found(false) => {
                    let error = environment_unknown_error(self.environment.as_str());
                    self.reply(Err(error))
                },
                Outcome::Failed(error) => self.reply(Err(error)),
                _ => self.reply(Err(out_of_turn_error())),
            },
            Phase::ProbingComponent => match outcome {
                Outcome::Found(true) => {
                    let target = self.archive();
                    self.phase = Phase::Packaging;
                    SupplierAction::Package {
                        source: TreePath::component(
                            self.working_path.as_str(),
                            self.environment.as_str(),
                            self.component.as_str(),
                        ),
                        target,
                    }
                },
                Outcome::Found(false) => {
                    let error = component_unknown_error(self.component.as_str());
                    self.reply(Err(error))
                },
                Outcome::Failed(error) => self.reply(Err(error)),
                _ => self.reply(Err(out_of_turn_error())),
            },
            Phase::Packaging => match outcome {
                Outcome::Done => {
                    let path = self.archive();
                    self.phase = Phase::Opening;
                    SupplierAction::Open { path }
                },
                Outcome::Failed(error) => self.discard(error),
                _ => self.discard(out_of_turn_error()),
            },
            Phase::Opening => match outcome {
                Outcome::Done => {
                    let path = self.archive();
                    self.phase = Phase::Reading;
                    SupplierAction::Read { path }
                },
                Outcome::Failed(error) => self.discard(unopened_error(&error)),
                _ => self.discard(out_of_turn_error()),
            },
            Phase::Reading => match outcome {
                Outcome::Contents(bytes) => {
                    let path = self.archive();
                    self.phase = Phase::Removing { bytes };
                    SupplierAction::RemoveFile { path }
                },
                Outcome::Failed(error) => self.discard(unread_error(&error)),
                _ => self.discard(out_of_turn_error()),
            },
            Phase::Removing { bytes } => match outcome {
                Outcome::Done => self.reply(Ok(bytes)),
                Outcome::Failed(error) => self.reply(Err(undeleted_error(&error))),
                _ => self.reply(Err(out_of_turn_error())),
            },
            Phase::Discarding { error } => self.reply(Err(error)),
        }
    }

    /// Ends the supplier, whatever it was doing: a request in progress gets no answer,
    /// and the working directory is to be removed.
    pub fn stop(&mut self) -> (action: SupplierAction)
        ensures
            (final(self)@, action@) == halted(old(self)@),
    {
        self.phase = Phase::Stopped;
        SupplierAction::Stop { path: TreePath::root(self.working_path.as_str()) }
    }
}

} // verus!
