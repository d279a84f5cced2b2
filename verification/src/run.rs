//! What comes of a plan when its steps are carried out one by one.
//!
//! The steps are done elsewhere. After each of them, [`next_step`] is told whether it succeeded and
//! says what is to be done next: the first failure ends the run, and no later step is begun.
use crate::error::MoeError;
use crate::laws::passes;
use crate::offsets::{count_launch, offset_launches, scan_launch};
use crate::plan::{Arg, Buffer, Kernel, KernelModule, Output, Plan, PlanModel, Step, StepModel};
use vstd::prelude::*;

verus! {

/// How a run ends.
#[derive(Debug, PartialEq, Eq)]
pub enum Ending {
    /// Every step succeeded, and the output is computed.
    Computed(Output),
    /// Every step succeeded, and the product is refused.
    Refused(MoeError),
    /// A step failed, and its failure, which says this, is handed on as it is.
    PassedOn(String),
    /// A launch failed, and this is the report.
    Reported(String),
}

/// An [`Ending`] with its text as a sequence.
pub enum EndingModel {
    Computed(Output),
    Refused(MoeError),
    PassedOn(Seq<char>),
    Reported(Seq<char>),
}

impl View for Ending {
    type V = EndingModel;

    open spec fn view(&self) -> EndingModel {
        match *self {
            Ending::Computed(output) => EndingModel::Computed(output),
            Ending::Refused(error) => EndingModel::Refused(error),
            Ending::PassedOn(text) => EndingModel::PassedOn(text@),
            Ending::Reported(text) => EndingModel::Reported(text@),
        }
    }
}

/// What a run does next.
#[derive(Debug, PartialEq, Eq)]
pub enum Next {
    /// The step at this index.
    Do(usize),
    /// Nothing more.
    End(Ending),
}

/// A [`Next`] with its ending by its view.
pub enum NextModel {
    Do(int),
    End(EndingModel),
}

impl View for Next {
    type V = NextModel;

    open spec fn view(&self) -> NextModel {
        match *self {
            Next::Do(i) => NextModel::Do(i as int),
            Next::End(ending) => NextModel::End(ending@),
        }
    }
}

/// How a run ends in which every step succeeds.
pub open spec fn success(plan: PlanModel) -> EndingModel {
    match plan.result {
        Ok(output) => EndingModel::Computed(output),
        Err(error) => EndingModel::Refused(error),
    }
}

/// How a run ends in which `step` fails for `cause`. The report of a failed launch names the
/// kernel; any other failure is handed on as it is.
pub open spec fn failure(step: StepModel, cause: Seq<char>) -> EndingModel {
    match step {
        StepModel::Launch { kernel, .. } => EndingModel::Reported(
            kernel.spec_launch_label() + cause,
        ),
        _ => EndingModel::PassedOn(cause),
    }
}

/// What is done next when the first `done` steps have succeeded and the one behind them has failed
/// for `cause`, if there is one, or was not begun.
pub open spec fn next_of(plan: PlanModel, done: int, cause: Option<Seq<char>>) -> NextModel {
    match cause {
        Some(cause) => NextModel::End(failure(plan.steps[done], cause)),
        None => if done < plan.steps.len() {
            NextModel::Do(done)
        } else {
            NextModel::End(success(plan))
        },
    }
}

/// What is done next when the first `done` steps have succeeded and the one behind them has failed
/// for `cause`, if there is one, or was not begun.
pub fn next_step(plan: &Plan, done: usize, cause: Option<String>) -> (r: Next)
    requires
        done <= plan.steps@.len(),
        cause is Some ==> done < plan.steps@.len(),
    ensures
        r@ == next_of(
            plan@,
            done as int,
            match cause {
                Some(cause) => Some(cause@),
                None => None,
            },
        ),
{
    match cause {
        Some(cause) => {
            let ending: Ending = match &plan.steps[done] {
                Step::Launch(launch) => Ending::Reported(
                    launch.kernel.launch_failure(cause.as_str()),
                ),
                _ => Ending::PassedOn(cause),
            };
            Next::End(ending)
        },
        None => if done < plan.steps.len() {
            Next::Do(done)
        } else {
            match plan.result {
                Ok(output) => Next::End(Ending::Computed(output)),
                Err(error) => Next::End(Ending::Refused(error)),
            }
        },
    }
}

/// How a run ends from the step `done` on, where `replies` tells for each step why it fails when
/// it is begun, if it does.
pub open spec fn outcome(
    plan: PlanModel,
    replies: Seq<Option<Seq<char>>>,
    done: int,
) -> EndingModel
    decreases plan.steps.len() - done,
{
    match next_of(plan, done, None) {
        NextModel::End(ending) => ending,
        NextModel::Do(i) => match replies[i] {
            Some(cause) => next_of(plan, i, Some(cause))->End_0,
            None => outcome(plan, replies, done + 1),
        },
    }
}

/// The steps that are begun from the step `done` on, the one that fails included.
pub open spec fn begun(
    plan: PlanModel,
    replies: Seq<Option<Seq<char>>>,
    done: int,
) -> Seq<StepModel>
    decreases plan.steps.len() - done,
{
    match next_of(plan, done, None) {
        NextModel::End(_) => Seq::empty(),
        NextModel::Do(i) => match replies[i] {
            Some(_) => seq![plan.steps[i]],
            None => seq![plan.steps[i]] + begun(plan, replies, done + 1),
        },
    }
}

/// The kernels that are launched from the step `done` on, the one whose launch fails left out.
pub open spec fn launched(
    plan: PlanModel,
    replies: Seq<Option<Seq<char>>>,
    done: int,
) -> Seq<Kernel>
    decreases plan.steps.len() - done,
{
    match next_of(plan, done, None) {
        NextModel::End(_) => Seq::empty(),
        NextModel::Do(i) => match replies[i] {
            Some(_) => Seq::empty(),
            None => {
                let rest: Seq<Kernel> = launched(plan, replies, done + 1);
                match plan.steps[i] {
                    StepModel::Launch { kernel, .. } => seq![kernel] + rest,
                    _ => rest,
                }
            },
        },
    }
}

/// A run ends at the first step that fails, with the failure of that step, and begins no step
/// behind it.
pub proof fn law_run_ends_at_the_first_failure(
    plan: PlanModel,
    replies: Seq<Option<Seq<char>>>,
    k: int,
)
    requires
        replies.len() == plan.steps.len(),
        0 <= k < plan.steps.len(),
        replies[k] is Some,
        forall|i: int| 0 <= i < k ==> #[trigger] replies[i] is None,
    ensures
        outcome(plan, replies, 0) == failure(plan.steps[k], replies[k]->0),
        begun(plan, replies, 0) == plan.steps.take(k + 1),
{
    lemma_run_to_failure(plan, replies, k, 0);
    assert(plan.steps.subrange(0, k + 1) =~= plan.steps.take(k + 1));
}

proof fn lemma_run_to_failure(
    plan: PlanModel,
    replies: Seq<Option<Seq<char>>>,
    k: int,
    done: int,
)
    requires
        replies.len() == plan.steps.len(),
        0 <= done <= k < plan.steps.len(),
        replies[k] is Some,
        forall|i: int| 0 <= i < k ==> #[trigger] replies[i] is None,
    ensures
        outcome(plan, replies, done) == failure(plan.steps[k], replies[k]->0),
        begun(plan, replies, done) == plan.steps.subrange(done, k + 1),
    decreases k - done,
{
    if done < k {
        lemma_run_to_failure(plan, replies, k, done + 1);
    }
    assert(begun(plan, replies, done) =~= plan.steps.subrange(done, k + 1));
}

/// Where no step fails, every step is begun, in order, and the run ends as the plan says.
pub proof fn law_run_without_failure(plan: PlanModel, replies: Seq<Option<Seq<char>>>)
    requires
        replies.len() == plan.steps.len(),
        forall|i: int| 0 <= i < replies.len() ==> #[trigger] replies[i] is None,
    ensures
        outcome(plan, replies, 0) == success(plan),
        begun(plan, replies, 0) == plan.steps,
{
    lemma_run_to_end(plan, replies, 0);
    assert(plan.steps.subrange(0, plan.steps.len() as int) =~= plan.steps);
}

proof fn lemma_run_to_end(plan: PlanModel, replies: Seq<Option<Seq<char>>>, done: int)
    requires
        replies.len() == plan.steps.len(),
        0 <= done <= plan.steps.len(),
        forall|i: int| 0 <= i < replies.len() ==> #[trigger] replies[i] is None,
    ensures
        outcome(plan, replies, done) == success(plan),
        begun(plan, replies, done) == plan.steps.subrange(done, plan.steps.len() as int),
    decreases plan.steps.len() - done,
{
    if done < plan.steps.len() {
        lemma_run_to_end(plan, replies, done + 1);
    }
    assert(begun(plan, replies, done) =~= plan.steps.subrange(done, plan.steps.len() as int));
}

/// A run ends as the plan says if and only if every step succeeds.
pub proof fn law_run_succeeds_with_every_step(plan: PlanModel, replies: Seq<Option<Seq<char>>>)
    requires
        replies.len() == plan.steps.len(),
    ensures
        outcome(plan, replies, 0) == success(plan) <==> forall|i: int|
            0 <= i < replies.len() ==> #[trigger] replies[i] is None,
{
    if forall|i: int| 0 <= i < replies.len() ==> #[trigger] replies[i] is None {
        law_run_without_failure(plan, replies);
    } else {
        let k: int = lemma_first_failure(replies, 0);
        law_run_ends_at_the_first_failure(plan, replies, k);
    }
}

proof fn lemma_first_failure(replies: Seq<Option<Seq<char>>>, from: int) -> (k: int)
    requires
        0 <= from <= replies.len(),
        forall|i: int| 0 <= i < from ==> #[trigger] replies[i] is None,
        exists|i: int| 0 <= i < replies.len() && #[trigger] replies[i] is Some,
    ensures
        0 <= k < replies.len(),
        replies[k] is Some,
        forall|i: int| 0 <= i < k ==> #[trigger] replies[i] is None,
    decreases replies.len() - from,
{
    if from < replies.len() && replies[from] is Some {
        from
    } else {
        lemma_first_failure(replies, from + 1)
    }
}

/// The launches for the expert offsets succeed if and only if both loads and both launches do.
/// Both kernels are then launched, the counting one first, and both come from one module.
pub proof fn law_expert_offsets_succeed(
    rows: int,
    experts: int,
    result: Result<Output, MoeError>,
    replies: Seq<Option<Seq<char>>>,
)
    requires
        replies.len() == 4,
    ensures
        ({
            let plan: PlanModel = PlanModel { steps: offset_launches(rows, experts), result };
            let ending: EndingModel = outcome(plan, replies, 0);
            &&& ending == success(plan) <==> replies[0] is None && replies[1] is None
                && replies[2] is None && replies[3] is None
            &&& ending == success(plan) ==> {
                &&& begun(plan, replies, 0) == offset_launches(rows, experts)
                &&& launched(plan, replies, 0) == seq![
                    Kernel::CountTokensPerExpert,
                    Kernel::ExpertPrefixSum,
                ]
            }
        }),
        Kernel::CountTokensPerExpert.spec_module() == KernelModule::MoeWmma,
        Kernel::ExpertPrefixSum.spec_module() == KernelModule::MoeWmma,
{
    let plan: PlanModel = PlanModel { steps: offset_launches(rows, experts), result };
    law_run_succeeds_with_every_step(plan, replies);
    if outcome(plan, replies, 0) == success(plan) {
        law_run_without_failure(plan, replies);
        reveal_with_fuel(launched, 5);
        assert(launched(plan, replies, 0) =~= seq![
            Kernel::CountTokensPerExpert,
            Kernel::ExpertPrefixSum,
        ]);
    }
}

/// When the counting launch fails, its report is what comes of the launches for the expert
/// offsets. No kernel is launched, the one that adds the counts up is not even loaded, and nothing
/// that was begun is handed the offsets.
pub proof fn law_failed_count_stops_the_offsets(
    rows: int,
    experts: int,
    result: Result<Output, MoeError>,
    replies: Seq<Option<Seq<char>>>,
)
    requires
        replies.len() == 4,
        replies[0] is None,
        replies[1] is Some,
    ensures
        ({
            let plan: PlanModel = PlanModel { steps: offset_launches(rows, experts), result };
            let steps: Seq<StepModel> = begun(plan, replies, 0);
            &&& outcome(plan, replies, 0) == EndingModel::Reported(
                "count_tokens_per_expert launch: "@ + replies[1]->0,
            )
            &&& steps == seq![
                StepModel::Load(Kernel::CountTokensPerExpert),
                count_launch(rows),
            ]
            &&& launched(plan, replies, 0) == Seq::<Kernel>::empty()
            &&& forall|i: int|
                0 <= i < steps.len() ==> !#[trigger] passes(
                    steps[i],
                    Arg::Buffer(Buffer::ExpertOffsets),
                )
        }),
{
    let plan: PlanModel = PlanModel { steps: offset_launches(rows, experts), result };
    law_run_ends_at_the_first_failure(plan, replies, 1);
    assert(begun(plan, replies, 0) =~= seq![
        StepModel::Load(Kernel::CountTokensPerExpert),
        count_launch(rows),
    ]);
    reveal_with_fuel(launched, 3);
}

/// When the launch that adds the counts up fails, its report is what comes of the launches for the
/// expert offsets, and the counting kernel is the only one that was launched.
pub proof fn law_failed_scan_ends_the_offsets(
    rows: int,
    experts: int,
    result: Result<Output, MoeError>,
    replies: Seq<Option<Seq<char>>>,
)
    requires
        replies.len() == 4,
        replies[0] is None,
        replies[1] is None,
        replies[2] is None,
        replies[3] is Some,
    ensures
        ({
            let plan: PlanModel = PlanModel { steps: offset_launches(rows, experts), result };
            &&& outcome(plan, replies, 0) == EndingModel::Reported(
                "expert_prefix_sum launch: "@ + replies[3]->0,
            )
            &&& begun(plan, replies, 0).last() == scan_launch(experts)
            &&& launched(plan, replies, 0) == seq![Kernel::CountTokensPerExpert]
        }),
{
    let plan: PlanModel = PlanModel { steps: offset_launches(rows, experts), result };
    law_run_ends_at_the_first_failure(plan, replies, 3);
    reveal_with_fuel(launched, 5);
    assert(launched(plan, replies, 0) =~= seq![Kernel::CountTokensPerExpert]);
}

/// With no failure, the next step is the one behind those that are done, as long as there is one,
/// and the result of the plan otherwise. With a failure there is no next step: the cause is handed
/// on as it is, or stands behind the label of the kernel whose launch failed.
pub proof fn law_next_step(plan: PlanModel, done: int, cause: Seq<char>)
    requires
        0 <= done <= plan.steps.len(),
    ensures
        done < plan.steps.len() ==> next_of(plan, done, None) == NextModel::Do(done),
        done == plan.steps.len() && plan.result is Ok ==> next_of(plan, done, None)
            == NextModel::End(EndingModel::Computed(plan.result->Ok_0)),
        done == plan.steps.len() && plan.result is Err ==> next_of(plan, done, None)
            == NextModel::End(EndingModel::Refused(plan.result->Err_0)),
        done < plan.steps.len() && plan.steps[done] is Launch ==> next_of(plan, done, Some(cause))
            == NextModel::End(
            EndingModel::Reported(plan.steps[done]->kernel.spec_launch_label() + cause),
        ),
        done < plan.steps.len() && !(plan.steps[done] is Launch) ==> next_of(
            plan,
            done,
            Some(cause),
        ) == NextModel::End(EndingModel::PassedOn(cause)),
{
}

/// What is done next, and how a run ends, is seen as it is.
pub proof fn law_endings_are_seen_whole(i: usize, output: Output, error: MoeError, text: String)
    ensures
        Next::Do(i)@ == NextModel::Do(i as int),
        Next::End(Ending::Computed(output))@ == NextModel::End(EndingModel::Computed(output)),
        Next::End(Ending::Refused(error))@ == NextModel::End(EndingModel::Refused(error)),
        Next::End(Ending::PassedOn(text))@ == NextModel::End(EndingModel::PassedOn(text@)),
        Next::End(Ending::Reported(text))@ == NextModel::End(EndingModel::Reported(text@)),
{
}

} // verus!
