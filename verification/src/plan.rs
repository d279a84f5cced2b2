//! What a product asks of a device: buffers, conversions and kernel launches, in order.
use crate::dtype::{DType, Half, Quant};
use crate::error::MoeError;
use vstd::prelude::*;
use vstd::string::*;

verus! {

/// The buffers that a product allocates.
#[derive(Debug, Clone, Copy, PartialEq, Eq, Structural)]
pub enum Buffer {
    /// The product itself.
    Output,
    /// The number of tokens routed to each expert.
    ExpertCounts,
    /// Where each expert's tokens start, and one last entry for where they all end.
    ExpertOffsets,
    /// The input, quantized to `q8_1` blocks.
    QuantizedInput,
}

/// The allocation of `len` elements of type `elem`.
#[derive(Debug, Clone, Copy, PartialEq, Eq, Structural)]
pub struct Alloc {
    pub buffer: Buffer,
    pub elem: DType,
    pub len: usize,
    /// Whether the memory is cleared; it holds anything otherwise.
    pub zeroed: bool,
}

/// The modules that the kernels are loaded from.
#[derive(Debug, Clone, Copy, PartialEq, Eq, Structural)]
pub enum KernelModule {
    MoeWmma,
    MoeWmmaGguf,
    MoeGguf,
}

/// The kernels that a product launches.
#[derive(Debug, Clone, Copy, PartialEq, Eq, Structural)]
#[allow(non_camel_case_types)]
pub enum Kernel {
    /// Counts the tokens routed to each expert.
    CountTokensPerExpert,
    /// Turns the counts into offsets.
    ExpertPrefixSum,
    /// The product with 16-bit weights.
    Wmma { half: Half, is_prefill: bool },
    /// The product with quantized weights, for a prompt.
    GgufPrefill { half: Half, quant: Quant },
    /// Quantizes the input to `q8_1`.
    QuantizeQ8_1,
    /// The product of the quantized input with quantized weights.
    Gguf { quant: Quant },
}

impl Kernel {
    /// The name under which the kernel is found in its module.
    pub open spec fn spec_name(self) -> Seq<char> {
        match self {
            Kernel::CountTokensPerExpert => "count_tokens_per_expert"@,
            Kernel::ExpertPrefixSum => "expert_prefix_sum"@,
            Kernel::Wmma { half: Half::F16, is_prefill: true } => "moe_wmma_half_16_16_2"@,
            Kernel::Wmma { half: Half::F16, is_prefill: false } => "moe_wmma_half_8_32_1"@,
            Kernel::Wmma { half: Half::BF16, is_prefill: true } => "moe_wmma_bf16_16_16_2"@,
            Kernel::Wmma { half: Half::BF16, is_prefill: false } => "moe_wmma_bf16_8_32_1"@,
            Kernel::GgufPrefill { half: Half::F16, quant: Quant::Q8_0 } => "moe_gguf_prefill_half_q8_0"@,
            Kernel::GgufPrefill { half: Half::F16, quant: Quant::Q4K } => "moe_gguf_prefill_half_q4k"@,
            Kernel::GgufPrefill { half: Half::F16, quant: Quant::Q2K } => "moe_gguf_prefill_half_q2k"@,
            Kernel::GgufPrefill { half: Half::F16, quant: Quant::Q3K } => "moe_gguf_prefill_half_q3k"@,
            Kernel::GgufPrefill { half: Half::F16, quant: Quant::Q5K } => "moe_gguf_prefill_half_q5k"@,
            Kernel::GgufPrefill { half: Half::F16, quant: Quant::Q6K } => "moe_gguf_prefill_half_q6k"@,
            Kernel::GgufPrefill { half: Half::BF16, quant: Quant::Q8_0 } => "moe_gguf_prefill_bf16_q8_0"@,
            Kernel::GgufPrefill { half: Half::BF16, quant: Quant::Q4K } => "moe_gguf_prefill_bf16_q4k"@,
            Kernel::GgufPrefill { half: Half::BF16, quant: Quant::Q2K } => "moe_gguf_prefill_bf16_q2k"@,
            Kernel::GgufPrefill { half: Half::BF16, quant: Quant::Q3K } => "moe_gguf_prefill_bf16_q3k"@,
            Kernel::GgufPrefill { half: Half::BF16, quant: Quant::Q5K } => "moe_gguf_prefill_bf16_q5k"@,
            Kernel::GgufPrefill { half: Half::BF16, quant: Quant::Q6K } => "moe_gguf_prefill_bf16_q6k"@,
            Kernel::QuantizeQ8_1 => "moe_quantize_q8_1"@,
            Kernel::Gguf { quant: Quant::Q8_0 } => "moe_gguf_q8_0"@,
            Kernel::Gguf { quant: Quant::Q4K } => "moe_gguf_q4k"@,
            Kernel::Gguf { quant: Quant::Q2K } => "moe_gguf_q2k"@,
            Kernel::Gguf { quant: Quant::Q3K } => "moe_gguf_q3k"@,
            Kernel::Gguf { quant: Quant::Q5K } => "moe_gguf_q5k"@,
            Kernel::Gguf { quant: Quant::Q6K } => "moe_gguf_q6k"@,
        }
    }

    /// The module that defines the kernel.
    pub open spec fn spec_module(self) -> KernelModule {
        match self {
            Kernel::CountTokensPerExpert => KernelModule::MoeWmma,
            Kernel::ExpertPrefixSum => KernelModule::MoeWmma,
            Kernel::Wmma { .. } => KernelModule::MoeWmma,
            Kernel::GgufPrefill { .. } => KernelModule::MoeWmmaGguf,
            Kernel::QuantizeQ8_1 => KernelModule::MoeGguf,
            Kernel::Gguf { .. } => KernelModule::MoeGguf,
        }
    }

    /// What a report of a failed launch starts with.
    pub open spec fn spec_launch_label(self) -> Seq<char> {
        match self {
            Kernel::CountTokensPerExpert => "count_tokens_per_expert launch: "@,
            Kernel::ExpertPrefixSum => "expert_prefix_sum launch: "@,
            Kernel::Wmma { .. } => "moe_wmma launch: "@,
            Kernel::GgufPrefill { .. } => "moe_gguf_prefill launch: "@,
            Kernel::QuantizeQ8_1 => "quantize_q8_1 launch: "@,
            Kernel::Gguf { .. } => "moe_gguf kernel launch: "@,
        }
    }

    /// The name under which the kernel is found in its module.
    pub fn name(self) -> (r: &'static str)
        ensures
            r@ == self.spec_name(),
    {
        match self {
            Kernel::CountTokensPerExpert => "count_tokens_per_expert",
            Kernel::ExpertPrefixSum => "expert_prefix_sum",
            Kernel::Wmma { half: Half::F16, is_prefill: true } => "moe_wmma_half_16_16_2",
            Kernel::Wmma { half: Half::F16, is_prefill: false } => "moe_wmma_half_8_32_1",
            Kernel::Wmma { half: Half::BF16, is_prefill: true } => "moe_wmma_bf16_16_16_2",
            Kernel::Wmma { half: Half::BF16, is_prefill: false } => "moe_wmma_bf16_8_32_1",
            Kernel::GgufPrefill { half: Half::F16, quant: Quant::Q8_0 } => "moe_gguf_prefill_half_q8_0",
            Kernel::GgufPrefill { half: Half::F16, quant: Quant::Q4K } => "moe_gguf_prefill_half_q4k",
            Kernel::GgufPrefill { half: Half::F16, quant: Quant::Q2K } => "moe_gguf_prefill_half_q2k",
            Kernel::GgufPrefill { half: Half::F16, quant: Quant::Q3K } => "moe_gguf_prefill_half_q3k",
            Kernel::GgufPrefill { half: Half::F16, quant: Quant::Q5K } => "moe_gguf_prefill_half_q5k",
            Kernel::GgufPrefill { half: Half::F16, quant: Quant::Q6K } => "moe_gguf_prefill_half_q6k",
            Kernel::GgufPrefill { half: Half::BF16, quant: Quant::Q8_0 } => "moe_gguf_prefill_bf16_q8_0",
            Kernel::GgufPrefill { half: Half::BF16, quant: Quant::Q4K } => "moe_gguf_prefill_bf16_q4k",
            Kernel::GgufPrefill { half: Half::BF16, quant: Quant::Q2K } => "moe_gguf_prefill_bf16_q2k",
            Kernel::GgufPrefill { half: Half::BF16, quant: Quant::Q3K } => "moe_gguf_prefill_bf16_q3k",
            Kernel::GgufPrefill { half: Half::BF16, quant: Quant::Q5K } => "moe_gguf_prefill_bf16_q5k",
            Kernel::GgufPrefill { half: Half::BF16, quant: Quant::Q6K } => "moe_gguf_prefill_bf16_q6k",
            Kernel::QuantizeQ8_1 => "moe_quantize_q8_1",
            Kernel::Gguf { quant: Quant::Q8_0 } => "moe_gguf_q8_0",
            Kernel::Gguf { quant: Quant::Q4K } => "moe_gguf_q4k",
            Kernel::Gguf { quant: Quant::Q2K } => "moe_gguf_q2k",
            Kernel::Gguf { quant: Quant::Q3K } => "moe_gguf_q3k",
            Kernel::Gguf { quant: Quant::Q5K } => "moe_gguf_q5k",
            Kernel::Gguf { quant: Quant::Q6K } => "moe_gguf_q6k",
        }
    }

    /// The module that defines the kernel.
    pub fn module(self) -> (r: KernelModule)
        ensures
            r == self.spec_module(),
    {
        match self {
            Kernel::CountTokensPerExpert => KernelModule::MoeWmma,
            Kernel::ExpertPrefixSum => KernelModule::MoeWmma,
            Kernel::Wmma { .. } => KernelModule::MoeWmma,
            Kernel::GgufPrefill { .. } => KernelModule::MoeWmmaGguf,
            Kernel::QuantizeQ8_1 => KernelModule::MoeGguf,
            Kernel::Gguf { .. } => KernelModule::MoeGguf,
        }
    }

    /// The report of a launch that failed for `cause`.
    pub fn launch_failure(self, cause: &str) -> (r: String)
        ensures
            r@ == self.spec_launch_label() + cause@,
    {
        let label: &'static str = match self {
            Kernel::CountTokensPerExpert => "count_tokens_per_expert launch: ",
            Kernel::ExpertPrefixSum => "expert_prefix_sum launch: ",
            Kernel::Wmma { .. } => "moe_wmma launch: ",
            Kernel::GgufPrefill { .. } => "moe_gguf_prefill launch: ",
            Kernel::QuantizeQ8_1 => "quantize_q8_1 launch: ",
            Kernel::Gguf { .. } => "moe_gguf kernel launch: ",
        };
        let mut report = label.to_owned();
        report.append(cause);
        report
    }
}

/// No two kernels share a name.
pub proof fn law_kernel_names_differ(a: Kernel, b: Kernel)
    requires
        a != b,
    ensures
        a.spec_name() != b.spec_name(),
{
    reveal_strlit("count_tokens_per_expert");
    reveal_strlit("expert_prefix_sum");
    reveal_strlit("moe_wmma_half_16_16_2");
    reveal_strlit("moe_wmma_half_8_32_1");
    reveal_strlit("moe_wmma_bf16_16_16_2");
    reveal_strlit("moe_wmma_bf16_8_32_1");
    reveal_strlit("moe_gguf_prefill_half_q8_0");
    reveal_strlit("moe_gguf_prefill_half_q4k");
    reveal_strlit("moe_gguf_prefill_half_q2k");
    reveal_strlit("moe_gguf_prefill_half_q3k");
    reveal_strlit("moe_gguf_prefill_half_q5k");
    reveal_strlit("moe_gguf_prefill_half_q6k");
    reveal_strlit("moe_gguf_prefill_bf16_q8_0");
    reveal_strlit("moe_gguf_prefill_bf16_q4k");
    reveal_strlit("moe_gguf_prefill_bf16_q2k");
    reveal_strlit("moe_gguf_prefill_bf16_q3k");
    reveal_strlit("moe_gguf_prefill_bf16_q5k");
    reveal_strlit("moe_gguf_prefill_bf16_q6k");
    reveal_strlit("moe_quantize_q8_1");
    reveal_strlit("moe_gguf_q8_0");
    reveal_strlit("moe_gguf_q4k");
    reveal_strlit("moe_gguf_q2k");
    reveal_strlit("moe_gguf_q3k");
    reveal_strlit("moe_gguf_q5k");
    reveal_strlit("moe_gguf_q6k");
    if a.spec_name() == b.spec_name() {
        let n: Seq<char> = a.spec_name();
        let m: Seq<char> = b.spec_name();
        assert(n.len() == m.len());
        assert(n[9] == m[9] && n[17] == m[17]);
        assert(n[n.len() - 2] == m[m.len() - 2]);
    }
}

/// The grid, the block and the dynamic shared memory of a launch.
#[derive(Debug, Clone, Copy, PartialEq, Eq)]
pub struct LaunchConfig {
    pub grid_dim: (u32, u32, u32),
    pub block_dim: (u32, u32, u32),
    pub shared_mem_bytes: u32,
}

/// One argument of a kernel.
#[derive(Debug, Clone, Copy, PartialEq, Eq, Structural)]
pub enum Arg {
    /// The elements of the input.
    Input,
    /// The elements of the input after its conversion.
    ConvertedInput,
    /// The weights.
    Weights,
    /// The sorted token ids.
    SortedTokenIds,
    /// The expert ids.
    ExpertsIds,
    /// The routing weights.
    TopkWeights,
    /// A null pointer.
    Null,
    /// An allocated buffer.
    Buffer(Buffer),
    /// A number.
    Int(i32),
}

/// The launch of a kernel.
#[derive(Debug, PartialEq, Eq)]
pub struct Launch {
    pub kernel: Kernel,
    pub config: LaunchConfig,
    pub args: Vec<Arg>,
}

/// One thing to do on the device.
#[derive(Debug, PartialEq, Eq)]
pub enum Step {
    /// Allocates a buffer.
    Alloc(Alloc),
    /// Converts the input to a 16-bit type.
    ConvertInput(Half),
    /// Loads a kernel from its module.
    Load(Kernel),
    /// Launches the kernel that was loaded last.
    Launch(Launch),
}

/// A [`Step`] with the arguments of a launch as a sequence.
pub enum StepModel {
    Alloc(Alloc),
    ConvertInput(Half),
    Load(Kernel),
    Launch { kernel: Kernel, config: LaunchConfig, args: Seq<Arg> },
}

impl View for Step {
    type V = StepModel;

    open spec fn view(&self) -> StepModel {
        match *self {
            Step::Alloc(alloc) => StepModel::Alloc(alloc),
            Step::ConvertInput(half) => StepModel::ConvertInput(half),
            Step::Load(kernel) => StepModel::Load(kernel),
            Step::Launch(launch) => StepModel::Launch {
                kernel: launch.kernel,
                config: launch.config,
                args: launch.args@,
            },
        }
    }
}

/// The steps of a list, each by its view.
pub open spec fn steps_model(steps: Seq<Step>) -> Seq<StepModel> {
    steps.map_values(|step: Step| step@)
}

/// Appends a step.
pub(crate) fn push_step(steps: &mut Vec<Step>, step: Step)
    ensures
        steps_model(final(steps)@) == steps_model(old(steps)@).push(step@),
{
    steps.push(step);
    assert(steps_model(steps@) =~= steps_model(old(steps)@).push(step@));
}

/// A launch, and the load of its kernel before it.
pub open spec fn load_and_launch(launch: StepModel) -> Seq<StepModel> {
    seq![StepModel::Load(launch->kernel), launch]
}

/// Appends a launch, and the load of its kernel before it.
pub(crate) fn push_launch(steps: &mut Vec<Step>, launch: Launch)
    ensures
        steps_model(final(steps)@) == steps_model(old(steps)@) + load_and_launch(
            Step::Launch(launch)@,
        ),
{
    push_step(steps, Step::Load(launch.kernel));
    push_step(steps, Step::Launch(launch));
    assert(steps_model(steps@) =~= steps_model(old(steps)@) + load_and_launch(
        Step::Launch(launch)@,
    ));
}

/// The matrix that a product leaves in [`Buffer::Output`].
#[derive(Debug, Clone, Copy, PartialEq, Eq, Structural)]
pub struct Output {
    pub rows: usize,
    pub cols: usize,
    pub dtype: DType,
}

/// What a product does: the steps to carry out, in order, and what comes of them if each of them
/// succeeds. [`crate::run`] says what comes of them otherwise.
#[derive(Debug, PartialEq, Eq)]
pub struct Plan {
    pub steps: Vec<Step>,
    pub result: Result<Output, MoeError>,
}

/// A [`Plan`] with its steps as a sequence.
#[verifier::ext_equal]
pub struct PlanModel {
    pub steps: Seq<StepModel>,
    pub result: Result<Output, MoeError>,
}

impl View for Plan {
    type V = PlanModel;

    open spec fn view(&self) -> PlanModel {
        PlanModel { steps: steps_model(self.steps@), result: self.result }
    }
}

/// The plan that does nothing and fails.
pub open spec fn refusal(error: MoeError) -> PlanModel {
    PlanModel { steps: Seq::empty(), result: Err(error) }
}

/// The plan that does nothing and fails with `error`.
pub(crate) fn refuse(error: MoeError) -> (plan: Plan)
    ensures
        plan@ == refusal(error),
{
    let plan = Plan { steps: Vec::new(), result: Err(error) };
    assert(plan@.steps =~= Seq::empty());
    plan
}

/// Each kernel comes from the module of its kind, and the report of its failed launch names its
/// kind.
pub proof fn law_kernels_keep_their_kind(kernel: Kernel)
    ensures
        kernel is CountTokensPerExpert ==> kernel.spec_module() == KernelModule::MoeWmma && kernel.spec_launch_label()
            == "count_tokens_per_expert launch: "@,
        kernel is ExpertPrefixSum ==> kernel.spec_module() == KernelModule::MoeWmma && kernel.spec_launch_label()
            == "expert_prefix_sum launch: "@,
        kernel is Wmma ==> kernel.spec_module() == KernelModule::MoeWmma && kernel.spec_launch_label()
            == "moe_wmma launch: "@,
        kernel is GgufPrefill ==> kernel.spec_module() == KernelModule::MoeWmmaGguf && kernel.spec_launch_label()
            == "moe_gguf_prefill launch: "@,
        kernel is QuantizeQ8_1 ==> kernel.spec_module() == KernelModule::MoeGguf && kernel.spec_launch_label()
            == "quantize_q8_1 launch: "@,
        kernel is Gguf ==> kernel.spec_module() == KernelModule::MoeGguf && kernel.spec_launch_label()
            == "moe_gguf kernel launch: "@,
{
}

/// A plan is seen as it is: step for step, argument for argument, and with its result.
pub proof fn law_plans_are_seen_whole(plan: Plan, i: int)
    requires
        0 <= i < plan.steps@.len(),
    ensures
        plan@.result == plan.result,
        plan@.steps.len() == plan.steps@.len(),
        match plan.steps@[i] {
            Step::Alloc(alloc) => plan@.steps[i] == StepModel::Alloc(alloc),
            Step::ConvertInput(half) => plan@.steps[i] == StepModel::ConvertInput(half),
            Step::Load(kernel) => plan@.steps[i] == StepModel::Load(kernel),
            Step::Launch(launch) => {
                &&& plan@.steps[i] is Launch
                &&& plan@.steps[i]->kernel == launch.kernel
                &&& plan@.steps[i]->config == launch.config
                &&& plan@.steps[i]->args == launch.args@
            },
        },
{
}

/// A refusal does nothing, and ends in the error that it is made for.
pub proof fn law_refusals_do_nothing(error: MoeError)
    ensures
        refusal(error).steps.len() == 0,
        refusal(error).result is Err,
        refusal(error).result->Err_0 == error,
{
}

} // verus!
