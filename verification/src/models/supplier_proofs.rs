//! What holds of every supplier, proved from the transitions alone.

use crate::error_kind::{is_clients_fault, NOT_FOUND};
use crate::models::supplier_model::{
    archive_of, begun, component_unknown, environment_unknown, halted, resumed, ActionView,
    OutcomeView, PhaseView, RequestView, SupplierView,
};
use crate::models::token::{
    is_token, lemma_archive_name_is_segment, lemma_archive_name_tells_tokens_apart,
};
use crate::models::working_tree::{
    archive_file, component_dir, environment_dir, is_inside, is_segment, parent,
};
use crate::text::{contains, lemma_contains_extends, lemma_prefix_is_contained};
use vstd::prelude::*;

verus! {

/// One thing that can happen to a supplier.
pub enum StepView {
    Request(RequestView),
    Outcome(OutcomeView),
    Halt,
}

/// What a supplier makes of one step.
pub open spec fn stepped(v: SupplierView, step: StepView) -> (SupplierView, ActionView) {
    match step {
        StepView::Request(request) => begun(v, request),
        StepView::Outcome(outcome) => resumed(v, outcome),
        StepView::Halt => halted(v),
    }
}

/// The supplier after the first `count` of `steps`.
pub open spec fn state_after(v: SupplierView, steps: Seq<StepView>, count: nat) -> SupplierView
    decreases count,
{
    if count == 0 || count > steps.len() {
        v
    } else {
        stepped(state_after(v, steps, (count - 1) as nat), steps[count - 1]).0
    }
}

/// What the supplier asks for on the step at `index`.
pub open spec fn action_at(v: SupplierView, steps: Seq<StepView>, index: nat) -> ActionView
    recommends
        index < steps.len(),
{
    stepped(state_after(v, steps, index), steps[index as int]).1
}

/// The supplier's directory holds `stage`, and the supplier is not in the middle of
/// setting it up again.
pub open spec fn is_settled_on(v: SupplierView, stage: Seq<char>) -> bool {
    &&& v.last_stage == Some(stage)
    &&& !(v.phase is Clearing)
    &&& !(v.phase is Creating)
    &&& !(v.phase is Fetching)
    &&& (v.phase matches PhaseView::Building { refresh, .. } ==> refresh)
}

/// Every request among `steps` asks for `stage`.
pub open spec fn all_requests_for(steps: Seq<StepView>, stage: Seq<char>) -> bool {
    forall|index: int|
        0 <= index < steps.len() ==> (#[trigger] steps[index] matches StepView::Request(request)
            ==> request.stage == stage)
}

proof fn lemma_settled_step(v: SupplierView, step: StepView, stage: Seq<char>)
    requires
        is_settled_on(v, stage),
        step matches StepView::Request(request) ==> request.stage == stage,
    ensures
        is_settled_on(stepped(v, step).0, stage),
        !(stepped(v, step).1 is RemoveTree),
        !(stepped(v, step).1 is CreateTree),
{
}

/// Once a supplier's directory holds a stage, requests for that stage never set it up
/// again: whatever the outcomes, the directory is neither removed nor created anew,
/// and the stage stays on record. Only refreshes are left.
pub proof fn lemma_one_setup_per_stage(
    v: SupplierView,
    steps: Seq<StepView>,
    stage: Seq<char>,
    count: nat,
)
    requires
        is_settled_on(v, stage),
        all_requests_for(steps, stage),
        count <= steps.len(),
    ensures
        is_settled_on(state_after(v, steps, count), stage),
        forall|index: nat|
            index < count ==> !(#[trigger] action_at(v, steps, index) is RemoveTree) && !(action_at(
                v,
                steps,
                index,
            ) is CreateTree),
    decreases count,
{
    if count > 0 {
        let before = (count - 1) as nat;
        lemma_one_setup_per_stage(v, steps, stage, before);
        lemma_settled_step(state_after(v, steps, before), steps[before as int], stage);
    }
}

/// A setup that has gone through leaves the supplier settled on the stage asked for.
pub proof fn lemma_setup_settles(v: SupplierView, outcome: OutcomeView)
    requires
        v.phase is Fetching || (v.phase matches PhaseView::Building { refresh, .. } && !refresh),
        resumed(v, outcome).0.phase is Checking,
    ensures
        is_settled_on(resumed(v, outcome).0, v.request.stage),
{
}

/// The stage on record changes only when a setup is through, with its last build done
/// or, where there is nothing to build, its download; and then to the stage of the
/// request in progress. A failure leaves it as it was.
pub proof fn lemma_stage_recorded_by_setup_alone(v: SupplierView, outcome: OutcomeView)
    ensures
        resumed(v, outcome).0.last_stage != v.last_stage ==> {
            &&& outcome is Done
            &&& v.phase is Fetching || (v.phase matches PhaseView::Building { refresh, .. }
                && !refresh)
            &&& resumed(v, outcome).0.last_stage == Some(v.request.stage)
        },
        outcome is Failed ==> resumed(v, outcome).0.last_stage == v.last_stage,
{
}

/// The supplier after a request and the first `count` outcomes of its actions.
pub open spec fn serving_after(
    v: SupplierView,
    request: RequestView,
    outcomes: Seq<OutcomeView>,
    count: nat,
) -> SupplierView
    decreases count,
{
    if count == 0 || count > outcomes.len() {
        begun(v, request).0
    } else {
        resumed(serving_after(v, request, outcomes, (count - 1) as nat), outcomes[count - 1]).0
    }
}

/// The action that the supplier asks for after a request and `count` outcomes.
pub open spec fn asked_after(
    v: SupplierView,
    request: RequestView,
    outcomes: Seq<OutcomeView>,
    count: nat,
) -> ActionView
    recommends
        count <= outcomes.len(),
{
    if count == 0 || count > outcomes.len() {
        begun(v, request).1
    } else {
        resumed(serving_after(v, request, outcomes, (count - 1) as nat), outcomes[count - 1]).1
    }
}

proof fn lemma_request_is_kept(
    v: SupplierView,
    request: RequestView,
    outcomes: Seq<OutcomeView>,
    count: nat,
)
    requires
        v.phase is Idle,
        count <= outcomes.len(),
    ensures
        serving_after(v, request, outcomes, count).request == request,
        serving_after(v, request, outcomes, count).working == v.working,
        serving_after(v, request, outcomes, count).extension == v.extension,
    decreases count,
{
    if count > 0 {
        lemma_request_is_kept(v, request, outcomes, (count - 1) as nat);
    }
}

/// A request is answered with bytes only at the end of one chain: environment and
/// component each name one level of a path, both were found, the component was
/// packaged into the request's archive, the archive was opened and read, those bytes
/// are the answer, and the archive's removal was reported done before the answer went
/// out.
pub proof fn lemma_bytes_come_from_a_removed_archive(
    v: SupplierView,
    request: RequestView,
    outcomes: Seq<OutcomeView>,
    bytes: Seq<u8>,
)
    requires
        v.phase is Idle,
        asked_after(v, request, outcomes, outcomes.len()) == (ActionView::Reply {
            result: Ok(bytes),
        }),
    ensures
        outcomes.len() >= 7,
        is_segment(request.environment),
        is_segment(request.component),
        ({
            let n = outcomes.len();
            let component = component_dir(v.working, request.environment, request.component);
            let archive = archive_file(
                v.working,
                request.environment,
                request.token,
                v.extension,
            );
            &&& asked_after(v, request, outcomes, (n - 6) as nat) == (ActionView::Probe {
                path: environment_dir(v.working, request.environment),
            })
            &&& outcomes[n - 6] == OutcomeView::Found(true)
            &&& asked_after(v, request, outcomes, (n - 5) as nat) == (ActionView::Probe {
                path: component,
            })
            &&& outcomes[n - 5] == OutcomeView::Found(true)
            &&& asked_after(v, request, outcomes, (n - 4) as nat) == (ActionView::Package {
                source: component,
                target: archive,
            })
            &&& outcomes[n - 4] == OutcomeView::Done
            &&& asked_after(v, request, outcomes, (n - 3) as nat) == (ActionView::Open {
                path: archive,
            })
            &&& outcomes[n - 3] == OutcomeView::Done
            &&& asked_after(v, request, outcomes, (n - 2) as nat) == (ActionView::Read {
                path: archive,
            })
            &&& outcomes[n - 2] == OutcomeView::Contents(bytes)
            &&& asked_after(v, request, outcomes, (n - 1) as nat) == (ActionView::RemoveFile {
                path: archive,
            })
            &&& outcomes[n - 1] == OutcomeView::Done
        }),
{
    // Each of the last actions can only follow the one before it: the answer the
    // removal, the removal the reading, and so on back to the probe of the
    // environment. All along, the request is the one that was made.
    let n = outcomes.len();
    lemma_request_is_kept(v, request, outcomes, (n - 1) as nat);
    lemma_request_is_kept(v, request, outcomes, (n - 2) as nat);
    lemma_request_is_kept(v, request, outcomes, (n - 3) as nat);
    lemma_request_is_kept(v, request, outcomes, (n - 4) as nat);
    lemma_request_is_kept(v, request, outcomes, (n - 5) as nat);
    lemma_request_is_kept(v, request, outcomes, (n - 6) as nat);
    lemma_request_is_kept(v, request, outcomes, (n - 7) as nat);
}

/// Every answer ends the request: the supplier that gave it is idle, whether or not
/// anybody is left to hear the answer, and takes the next request as any idle
/// supplier does.
pub proof fn lemma_answer_leaves_supplier_idle(
    v: SupplierView,
    request: RequestView,
    outcome: OutcomeView,
)
    ensures
        resumed(v, outcome).1 is Reply ==> resumed(v, outcome).0.phase is Idle,
        v.phase is Idle && begun(v, request).1 is Reply ==> begun(v, request).0.phase is Idle,
{
}

/// An environment that is not there is the client's fault, and the message names it as
/// an environment.
pub proof fn lemma_unknown_environment_is_told(environment: Seq<char>)
    ensures
        environment_unknown(environment).kind == NOT_FOUND@,
        is_clients_fault(environment_unknown(environment).kind),
        contains(environment_unknown(environment).message, "environment"@),
{
    reveal_strlit("environment '");
    reveal_strlit("environment");
    let lead = "environment '"@;
    assert(lead =~= "environment"@ + seq![' ', '\'']);
    lemma_prefix_is_contained("environment"@, seq![' ', '\'']);
    lemma_contains_extends(lead, "environment"@, environment);
    lemma_contains_extends(lead + environment, "environment"@, "' does not exist"@);
}

/// A component that is not there is the client's fault, and the message names it as a
/// component.
pub proof fn lemma_unknown_component_is_told(component: Seq<char>)
    ensures
        component_unknown(component).kind == NOT_FOUND@,
        is_clients_fault(component_unknown(component).kind),
        contains(component_unknown(component).message, "component"@),
{
    reveal_strlit("component '");
    reveal_strlit("component");
    let lead = "component '"@;
    assert(lead =~= "component"@ + seq![' ', '\'']);
    lemma_prefix_is_contained("component"@, seq![' ', '\'']);
    lemma_contains_extends(lead, "component"@, component);
    lemma_contains_extends(lead + component, "component"@, "' does not exist"@);
}

/// The archive of a request lies directly in the environment's tree, beside the
/// component's directory and never inside it.
pub proof fn lemma_archive_lies_beside_component(v: SupplierView)
    ensures
        parent(archive_of(v)) == environment_dir(v.working, v.request.environment),
        parent(component_dir(v.working, v.request.environment, v.request.component))
            == environment_dir(v.working, v.request.environment),
        !is_inside(
            archive_of(v),
            component_dir(v.working, v.request.environment, v.request.component),
        ),
{
}

/// The paths that an action names.
pub open spec fn paths_of(action: ActionView) -> Seq<Seq<Seq<char>>> {
    match action {
        ActionView::Await => seq![],
        ActionView::RemoveTree { path } => seq![path],
        ActionView::CreateTree { path } => seq![path],
        ActionView::Download { target, .. } => seq![target],
        ActionView::Build { source, target, .. } => seq![source, target],
        ActionView::CheckVersion { target, .. } => seq![target],
        ActionView::Probe { path } => seq![path],
        ActionView::Package { source, target } => seq![source, target],
        ActionView::Open { path } => seq![path],
        ActionView::Read { path } => seq![path],
        ActionView::RemoveFile { path } => seq![path],
        ActionView::Reply { .. } => seq![],
        ActionView::Stop { path } => seq![path],
    }
}

/// Whatever a supplier asks for, it asks for in its own working directory: every path
/// that it names has the directory's name as its first level. Suppliers with
/// different directories never name the same path; and where all levels are segments,
/// as [`lemma_request_names_segments_alone`] tells, such a path lies below the
/// directory.
pub proof fn lemma_supplier_keeps_to_its_directory(v: SupplierView, step: StepView)
    ensures
        stepped(v, step).0.working == v.working,
        forall|at: int|
            0 <= at < paths_of(stepped(v, step).1).len() ==> (#[trigger] paths_of(
                stepped(v, step).1,
            )[at]).len() > 0 && paths_of(stepped(v, step).1)[at][0] == v.working,
{
}

/// Requests with different tokens have different archives, whichever suppliers serve
/// them and whatever they ask for.
pub proof fn lemma_tokens_tell_archives_apart(first: SupplierView, second: SupplierView)
    requires
        first.extension == second.extension,
        first.request.token != second.request.token,
    ensures
        archive_of(first) != archive_of(second),
{
    if archive_of(first) == archive_of(second) {
        lemma_archive_name_tells_tokens_apart(
            first.request.token,
            second.request.token,
            first.extension,
        );
    }
}

/// The request in progress has had its version check answered.
pub open spec fn is_past_check(phase: PhaseView) -> bool {
    match phase {
        PhaseView::Updating => true,
        PhaseView::Building { refresh, .. } => refresh,
        PhaseView::ProbingEnvironment => true,
        PhaseView::ProbingComponent => true,
        PhaseView::Packaging => true,
        PhaseView::Opening => true,
        PhaseView::Reading => true,
        PhaseView::Removing { .. } => true,
        PhaseView::Discarding { .. } => true,
        _ => false,
    }
}

/// The supplier asked upstream for news at step `index` of the request, and was
/// answered.
pub open spec fn is_answered_check(
    v: SupplierView,
    request: RequestView,
    outcomes: Seq<OutcomeView>,
    index: nat,
) -> bool {
    &&& index < outcomes.len()
    &&& asked_after(v, request, outcomes, index) is CheckVersion
    &&& outcomes[index as int] is Version
}

proof fn lemma_check_comes_first(
    v: SupplierView,
    request: RequestView,
    outcomes: Seq<OutcomeView>,
    count: nat,
)
    requires
        v.phase is Idle,
        count <= outcomes.len(),
        is_past_check(serving_after(v, request, outcomes, count).phase),
    ensures
        exists|index: nat| index < count && is_answered_check(v, request, outcomes, index),
    decreases count,
{
    if count > 0 {
        let before = (count - 1) as nat;
        if is_past_check(serving_after(v, request, outcomes, before).phase) {
            lemma_check_comes_first(v, request, outcomes, before);
        } else {
            // The check was answered just now: only that leads past it.
            if before > 0 {
                assert(asked_after(v, request, outcomes, before) == resumed(
                    serving_after(v, request, outcomes, (before - 1) as nat),
                    outcomes[before - 1],
                ).1);
            }
            assert(before < count && is_answered_check(v, request, outcomes, before));
        }
    }
}

/// No request is answered with bytes unless upstream was asked for news while it was
/// served, and answered.
pub proof fn lemma_bytes_follow_a_version_check(
    v: SupplierView,
    request: RequestView,
    outcomes: Seq<OutcomeView>,
    bytes: Seq<u8>,
)
    requires
        v.phase is Idle,
        asked_after(v, request, outcomes, outcomes.len()) == (ActionView::Reply {
            result: Ok(bytes),
        }),
    ensures
        exists|index: nat|
            index < outcomes.len() && is_answered_check(v, request, outcomes, index),
{
    // The answer is given on hearing that the archive is removed, which is past the
    // check.
    lemma_check_comes_first(v, request, outcomes, (outcomes.len() - 1) as nat);
}

/// The builds whose outcome is still to come when the environment at `next` is being
/// built, that one included.
pub open spec fn builds_awaited(v: SupplierView, next: nat) -> nat {
    if next < v.environments.len() {
        (v.environments.len() - next) as nat
    } else {
        1
    }
}

/// How many outcomes a supplier takes at most before it answers the request in
/// progress. An idle or stopped supplier has none in progress.
pub open spec fn outcomes_left(v: SupplierView) -> nat {
    match v.phase {
        PhaseView::Idle => 0,
        PhaseView::Stopped => 0,
        PhaseView::Discarding { .. } => 1,
        PhaseView::Removing { .. } => 1,
        PhaseView::Reading => 2,
        PhaseView::Opening => 3,
        PhaseView::Packaging => 4,
        PhaseView::ProbingComponent => 5,
        PhaseView::ProbingEnvironment => 6,
        PhaseView::Building { next, refresh } => if refresh {
            builds_awaited(v, next) + 6
        } else {
            builds_awaited(v, next) + v.environments.len() + 8
        },
        PhaseView::Updating => v.environments.len() + 7,
        PhaseView::Checking => v.environments.len() + 8,
        PhaseView::Fetching => 2 * v.environments.len() + 9,
        PhaseView::Creating => 2 * v.environments.len() + 10,
        PhaseView::Clearing => 2 * v.environments.len() + 11,
    }
}

/// Every outcome brings a serving supplier nearer to its answer, whatever the outcome
/// is.
pub proof fn lemma_outcome_brings_answer_nearer(v: SupplierView, outcome: OutcomeView)
    requires
        !(v.phase is Idle),
        !(v.phase is Stopped),
    ensures
        resumed(v, outcome).0.environments == v.environments,
        outcomes_left(resumed(v, outcome).0) < outcomes_left(v),
        resumed(v, outcome).0.phase is Idle <==> resumed(v, outcome).1 is Reply,
        !(resumed(v, outcome).0.phase is Stopped),
{
}

/// Every request is answered, and soon: eleven outcomes and two for each environment
/// are the most that a supplier takes before it answers, whatever they are.
pub proof fn lemma_every_request_is_answered(
    v: SupplierView,
    request: RequestView,
    outcomes: Seq<OutcomeView>,
)
    requires
        v.phase is Idle,
        outcomes.len() >= 2 * v.environments.len() + 11,
    ensures
        exists|count: nat|
            count <= 2 * v.environments.len() + 11 && #[trigger] asked_after(
                v,
                request,
                outcomes,
                count,
            ) is Reply,
{
    let bound = 2 * v.environments.len() + 11;
    if !exists|count: nat|
        count <= bound && #[trigger] asked_after(v, request, outcomes, count) is Reply {
        lemma_unanswered_request_uses_outcomes_up(v, request, outcomes, bound);
    }
}

proof fn lemma_unanswered_request_uses_outcomes_up(
    v: SupplierView,
    request: RequestView,
    outcomes: Seq<OutcomeView>,
    count: nat,
)
    requires
        v.phase is Idle,
        count <= outcomes.len(),
        forall|earlier: nat|
            earlier <= count ==> !(#[trigger] asked_after(v, request, outcomes, earlier) is Reply),
    ensures
        serving_after(v, request, outcomes, count).environments == v.environments,
        !(serving_after(v, request, outcomes, count).phase is Idle),
        !(serving_after(v, request, outcomes, count).phase is Stopped),
        outcomes_left(serving_after(v, request, outcomes, count)) + count <= 2
            * v.environments.len() + 11,
    decreases count,
{
    if count > 0 {
        let before = (count - 1) as nat;
        lemma_unanswered_request_uses_outcomes_up(v, request, outcomes, before);
        lemma_outcome_brings_answer_nearer(
            serving_after(v, request, outcomes, before),
            outcomes[before as int],
        );
        assert(!(asked_after(v, request, outcomes, count) is Reply));
    }
}

/// Every level of `path` is one name: none of them is empty, holds a separator or
/// stands for the directory itself or the one above, so that joined they lead
/// nowhere but down.
pub open spec fn is_made_of_segments(path: Seq<Seq<char>>) -> bool {
    forall|level: int| 0 <= level < path.len() ==> is_segment(#[trigger] path[level])
}

/// Every path that `action` names is made of segments.
pub open spec fn names_segments_alone(action: ActionView) -> bool {
    forall|at: int|
        0 <= at < paths_of(action).len() ==> is_made_of_segments(#[trigger] paths_of(action)[at])
}

/// The supplier was made with names that are segments: its directory and its
/// environments are, and its extension holds neither separator nor NUL.
pub open spec fn is_made_with_segments(v: SupplierView) -> bool {
    &&& is_segment(v.working)
    &&& forall|index: int|
        0 <= index < v.environments.len() ==> is_segment(#[trigger] v.environments[index])
    &&& !v.extension.contains('/')
    &&& !v.extension.contains('\0')
}

/// The names of the request in progress that the supplier has come to use in paths
/// are segments.
pub open spec fn uses_segments_alone(v: SupplierView) -> bool {
    &&& is_made_with_segments(v)
    &&& !(v.phase is Idle) && !(v.phase is Stopped) ==> is_token(v.request.token)
    &&& match v.phase {
        PhaseView::ProbingEnvironment => is_segment(v.request.environment),
        PhaseView::ProbingComponent
        | PhaseView::Packaging
        | PhaseView::Opening
        | PhaseView::Reading
        | PhaseView::Removing { .. }
        | PhaseView::Discarding { .. } => is_segment(v.request.environment) && is_segment(
            v.request.component,
        ),
        _ => true,
    }
}

proof fn lemma_download_is_segment()
    ensures
        is_segment("download"@),
{
    reveal_strlit("download");
    reveal_strlit(".");
    reveal_strlit("..");
    assert forall|at: int| 0 <= at < "download"@.len() implies "download"@[at] != '/'
        && "download"@[at] != '\0' by {}
    assert(!"download"@.contains('/'));
    assert(!"download"@.contains('\0'));
    assert("download"@.len() == 8);
}

/// A token names one level of a path.
pub proof fn lemma_token_is_segment(token: Seq<char>)
    requires
        is_token(token),
    ensures
        is_segment(token),
{
    reveal_strlit(".");
    reveal_strlit("..");
    assert forall|at: int| 0 <= at < token.len() implies token[at] != '/' && token[at]
        != '\0' by {}
}

proof fn lemma_segments_step(v: SupplierView, outcome: OutcomeView)
    requires
        uses_segments_alone(v),
    ensures
        uses_segments_alone(resumed(v, outcome).0),
        names_segments_alone(resumed(v, outcome).1),
{
    lemma_download_is_segment();
    if !(v.phase is Idle) && !(v.phase is Stopped) {
        lemma_archive_name_is_segment(v.request.token, v.extension);
    }
}

/// A supplier made with segments names nothing but segments while it serves a
/// request: every path that it asks anything of is made of single names, from its
/// own directory down. Joined, such a path lies below that directory.
pub proof fn lemma_request_names_segments_alone(
    v: SupplierView,
    request: RequestView,
    outcomes: Seq<OutcomeView>,
    count: nat,
)
    requires
        v.phase is Idle,
        is_made_with_segments(v),
        is_token(request.token),
        count <= outcomes.len(),
    ensures
        uses_segments_alone(serving_after(v, request, outcomes, count)),
        names_segments_alone(asked_after(v, request, outcomes, count)),
    decreases count,
{
    lemma_download_is_segment();
    if count > 0 {
        let before = (count - 1) as nat;
        lemma_request_names_segments_alone(v, request, outcomes, before);
        lemma_segments_step(serving_after(v, request, outcomes, before), outcomes[before as int]);
    }
}

/// The request in progress apart, and the names that only paths are made of, two
/// suppliers are in the same state.
pub open spec fn is_alike(first: SupplierView, second: SupplierView) -> bool {
    &&& first.environments.len() == second.environments.len()
    &&& first.last_stage == second.last_stage
    &&& first.phase == second.phase
    &&& first.request.stage == second.request.stage
    &&& first.request.environment == second.request.environment
    &&& first.request.component == second.request.component
}

/// Two actions are the same but for the paths that they name: both answer, and with
/// the same result, or neither does.
pub open spec fn answers_alike(first: ActionView, second: ActionView) -> bool {
    match first {
        ActionView::Reply { result } => second == first,
        _ => !(second is Reply),
    }
}

proof fn lemma_alike_step(first: SupplierView, second: SupplierView, outcome: OutcomeView)
    requires
        is_alike(first, second),
    ensures
        is_alike(resumed(first, outcome).0, resumed(second, outcome).0),
        answers_alike(resumed(first, outcome).1, resumed(second, outcome).1),
{
}

/// What a supplier answers depends on the request and on what came of its actions,
/// and on nothing else: not on its directory, not on the token drawn, not on what its
/// environments are called. Two suppliers that hold the same stage and are told the
/// same outcomes for the same request give the same answer at the same step, byte
/// for byte.
pub proof fn lemma_answer_depends_on_outcomes_alone(
    first: SupplierView,
    second: SupplierView,
    asked: RequestView,
    asked_again: RequestView,
    outcomes: Seq<OutcomeView>,
    count: nat,
)
    requires
        first.phase is Idle,
        second.phase is Idle,
        first.last_stage == second.last_stage,
        first.environments.len() == second.environments.len(),
        asked.stage == asked_again.stage,
        asked.environment == asked_again.environment,
        asked.component == asked_again.component,
        count <= outcomes.len(),
    ensures
        is_alike(
            serving_after(first, asked, outcomes, count),
            serving_after(second, asked_again, outcomes, count),
        ),
        answers_alike(
            asked_after(first, asked, outcomes, count),
            asked_after(second, asked_again, outcomes, count),
        ),
    decreases count,
{
    if count > 0 {
        let before = (count - 1) as nat;
        lemma_answer_depends_on_outcomes_alone(
            first,
            second,
            asked,
            asked_again,
            outcomes,
            before,
        );
        lemma_alike_step(
            serving_after(first, asked, outcomes, before),
            serving_after(second, asked_again, outcomes, before),
            outcomes[before as int],
        );
    }
}

} // verus!
