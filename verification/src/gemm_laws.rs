//! What the product with 16-bit weights does for each request, from the operands straight to the
//! device.
use crate::arith::div_up;
use crate::dtype::DType;
use crate::error::MoeError;
use crate::fault::Fault;
use crate::gemm::{gemm_fault, gemm_plan};
use crate::offset_laws::{counts_and_adds_up, law_offset_launches};
use crate::plan::{Arg, Buffer, Kernel, KernelModule, Output, PlanModel, StepModel};
use crate::tensor::{Location, Operand, TensorInfo};
use vstd::prelude::*;

verus! {

/// A request is accepted exactly when the input is a matrix and the weights a stack of matrices of
/// the same 16-bit type, the ids are unsigned 32-bit numbers, the routing weights, if there are
/// any, are 32-bit floats, and all of them are on a CUDA device.
pub proof fn law_gemm_accepts(
    input: TensorInfo,
    weights: TensorInfo,
    topk_weights: Option<TensorInfo>,
    sorted_token_ids: TensorInfo,
    experts_ids: TensorInfo,
    topk: usize,
    is_prefill: bool,
)
    ensures
        gemm_plan(
            input,
            weights,
            topk_weights,
            sorted_token_ids,
            experts_ids,
            topk,
            is_prefill,
        ).result is Ok <==> {
            &&& input.dtype == DType::F16 || input.dtype == DType::BF16
            &&& weights.dtype == input.dtype
            &&& input.dims@.len() == 2
            &&& weights.dims@.len() == 3
            &&& input.location == Location::Cuda
            &&& weights.location == Location::Cuda
            &&& sorted_token_ids.location == Location::Cuda
            &&& sorted_token_ids.dtype == DType::U32
            &&& experts_ids.location == Location::Cuda
            &&& experts_ids.dtype == DType::U32
            &&& topk_weights matches Some(t) ==> t.location == Location::Cuda && t.dtype
                == DType::F32
        },
{
}

/// A request that is refused names the first operand that is wrong, in the order input, weights,
/// sorted token ids, expert ids, routing weights, and nothing is done for it.
pub proof fn law_gemm_refusals(
    input: TensorInfo,
    weights: TensorInfo,
    topk_weights: Option<TensorInfo>,
    sorted_token_ids: TensorInfo,
    experts_ids: TensorInfo,
    topk: usize,
    is_prefill: bool,
)
    ensures
        ({
            let plan: PlanModel = gemm_plan(
                input,
                weights,
                topk_weights,
                sorted_token_ids,
                experts_ids,
                topk,
                is_prefill,
            );
            let typed: bool = input.dtype == DType::F16 || input.dtype == DType::BF16;
            let shaped: bool = typed && input.dims@.len() == 2 && weights.dims@.len() == 3;
            let placed: bool = shaped && input.location == Location::Cuda;
            let weights_read: bool = placed && weights.location == Location::Cuda && weights.dtype
                == input.dtype;
            let tokens_read: bool = weights_read && sorted_token_ids.location == Location::Cuda
                && sorted_token_ids.dtype == DType::U32;
            let experts_read: bool = tokens_read && experts_ids.location == Location::Cuda
                && experts_ids.dtype == DType::U32;
            &&& plan.result is Err ==> plan.steps.len() == 0
            &&& !typed ==> plan.result == Err::<Output, MoeError>(MoeError::UnsupportedInputDType)
            &&& typed && input.dims@.len() != 2 ==> plan.result == Err::<Output, MoeError>(
                (MoeError::UnexpectedRank {
                    operand: Operand::Input,
                    expected_rank: 2,
                    rank: input.dims@.len() as usize,
                }),
            )
            &&& typed && input.dims@.len() == 2 && weights.dims@.len() != 3 ==> plan.result == Err::<Output, MoeError>(
                (MoeError::UnexpectedRank {
                    operand: Operand::Weights,
                    expected_rank: 3,
                    rank: weights.dims@.len() as usize,
                }),
            )
            &&& shaped && input.location != Location::Cuda ==> plan.result == Err::<Output, MoeError>(
                MoeError::NotACudaDevice(input.location),
            )
            &&& placed && weights.location != Location::Cuda ==> plan.result == Err::<Output, MoeError>(
                MoeError::NotOnCuda(Operand::Weights),
            )
            &&& placed && weights.location == Location::Cuda && weights.dtype != input.dtype
                ==> plan.result == Err::<Output, MoeError>(
                (MoeError::UnexpectedDType {
                    operand: Operand::Weights,
                    expected: input.dtype,
                    got: weights.dtype,
                }),
            )
            &&& weights_read && sorted_token_ids.location != Location::Cuda ==> plan.result == Err::<Output, MoeError>(
                MoeError::NotOnCuda(Operand::SortedTokenIds),
            )
            &&& weights_read && sorted_token_ids.location == Location::Cuda
                && sorted_token_ids.dtype != DType::U32 ==> plan.result == Err::<Output, MoeError>(
                (MoeError::UnexpectedDType {
                    operand: Operand::SortedTokenIds,
                    expected: DType::U32,
                    got: sorted_token_ids.dtype,
                }),
            )
            &&& tokens_read && experts_ids.location != Location::Cuda ==> plan.result == Err::<Output, MoeError>(
                MoeError::NotOnCuda(Operand::ExpertsIds),
            )
            &&& tokens_read && experts_ids.location == Location::Cuda && experts_ids.dtype
                != DType::U32 ==> plan.result == Err::<Output, MoeError>(
                (MoeError::UnexpectedDType {
                    operand: Operand::ExpertsIds,
                    expected: DType::U32,
                    got: experts_ids.dtype,
                }),
            )
            &&& topk_weights matches Some(t) ==> {
                &&& experts_read && t.location != Location::Cuda ==> plan.result == Err::<Output, MoeError>(
                    MoeError::NotOnCuda(Operand::TopkWeights),
                )
                &&& experts_read && t.location == Location::Cuda && t.dtype != DType::F32
                    ==> plan.result == Err::<Output, MoeError>(
                    (MoeError::UnexpectedDType {
                        operand: Operand::TopkWeights,
                        expected: DType::F32,
                        got: t.dtype,
                    }),
                )
            }
        }),
{
}

/// A request is faulty exactly when the rows of the output cannot be counted, when the depths of
/// the operands differ, or when a size of an accepted request does not fit in a `usize`; what is
/// looked at earlier is what is reported.
pub proof fn law_gemm_faults(
    input: TensorInfo,
    weights: TensorInfo,
    topk_weights: Option<TensorInfo>,
    sorted_token_ids: TensorInfo,
    experts_ids: TensorInfo,
    topk: usize,
)
    ensures
        ({
            let fault: Option<Fault> = gemm_fault(
                input,
                weights,
                topk_weights,
                sorted_token_ids,
                experts_ids,
                topk,
            );
            let accepted: bool = gemm_plan(
                input,
                weights,
                topk_weights,
                sorted_token_ids,
                experts_ids,
                topk,
                true,
            ).result is Ok;
            let counted: bool = (input.dtype == DType::F16 || input.dtype == DType::BF16)
                && input.dims@.len() == 2;
            let rows: int = if topk_weights is Some {
                input.dims@[0] as int
            } else {
                input.dims@[0] * topk
            };
            let experts: int = weights.dims@[0] as int;
            let cols: int = weights.dims@[1] as int;
            let compared: bool = counted && rows <= usize::MAX && weights.dims@.len() == 3;
            let same: bool = input.dims@[1] == weights.dims@[2];
            let fits: bool = rows * cols <= usize::MAX && rows + 256 <= usize::MAX && experts * 4
                <= usize::MAX && cols + 32 <= usize::MAX;
            &&& !counted ==> fault is None
            &&& counted && rows > usize::MAX ==> fault == Some(Fault::Overflow)
            &&& counted && rows <= usize::MAX && weights.dims@.len() != 3 ==> fault is None
            &&& compared && !same ==> fault == Some(
                (Fault::LastDimMismatch { input: input.dims@[1], weight: weights.dims@[2] }),
            )
            &&& compared && same && !accepted ==> fault is None
            &&& compared && same && accepted && !fits ==> fault == Some(Fault::Overflow)
            &&& compared && same && accepted && fits ==> fault is None
        }),
{
}

/// The output has the type of the input, a column to each row of an expert's matrix, and the rows
/// of the input if they come with routing weights, or `topk` for each of them otherwise. It is
/// allocated first, element for element, and then the counts, cleared, and the offsets, one more
/// than there are experts.
pub proof fn law_gemm_buffers(
    input: TensorInfo,
    weights: TensorInfo,
    topk_weights: Option<TensorInfo>,
    sorted_token_ids: TensorInfo,
    experts_ids: TensorInfo,
    topk: usize,
    is_prefill: bool,
)
    requires
        gemm_fault(input, weights, topk_weights, sorted_token_ids, experts_ids, topk) is None,
    ensures
        ({
            let plan: PlanModel = gemm_plan(
                input,
                weights,
                topk_weights,
                sorted_token_ids,
                experts_ids,
                topk,
                is_prefill,
            );
            plan.result matches Ok(output) ==> {
                &&& output.dtype == input.dtype
                &&& topk_weights is Some ==> output.rows == input.dims@[0]
                &&& topk_weights is None ==> output.rows == input.dims@[0] * topk
                &&& output.cols == weights.dims@[1]
                &&& plan.steps.len() == 9
                &&& plan.steps[0] matches StepModel::Alloc(a)
                &&& a.buffer == Buffer::Output
                &&& a.elem == input.dtype
                &&& a.len == output.rows * output.cols
                &&& !a.zeroed
                &&& plan.steps[1] matches StepModel::Alloc(a)
                &&& a.buffer == Buffer::ExpertCounts
                &&& a.elem == DType::U32
                &&& a.len == weights.dims@[0]
                &&& a.zeroed
                &&& plan.steps[2] matches StepModel::Alloc(a)
                &&& a.buffer == Buffer::ExpertOffsets
                &&& a.elem == DType::U32
                &&& a.len == weights.dims@[0] + 1
                &&& !a.zeroed
                &&& forall|i: int| 3 <= i < 9 ==> !(#[trigger] plan.steps[i] is Alloc)
            }
        }),
{
    assert(input.dims@[0] * topk >= 0) by (nonlinear_arith);
    if gemm_plan(
        input,
        weights,
        topk_weights,
        sorted_token_ids,
        experts_ids,
        topk,
        is_prefill,
    ).result is Ok {
        let rows: int = if topk_weights is Some {
            input.dims@[0] as int
        } else {
            input.dims@[0] * topk
        };
        let cols: int = weights.dims@[1] as int;
        assert(rows * cols >= 0) by (nonlinear_arith)
            requires
                rows >= 0,
                cols >= 0,
        ;
    }
}

/// The rows are counted and the counts added up before the product is computed: the steps behind
/// the allocations load and launch `count_tokens_per_expert`, `expert_prefix_sum`, and the kernel
/// of the product, in this order.
pub proof fn law_gemm_launches(
    input: TensorInfo,
    weights: TensorInfo,
    topk_weights: Option<TensorInfo>,
    sorted_token_ids: TensorInfo,
    experts_ids: TensorInfo,
    topk: usize,
    is_prefill: bool,
)
    ensures
        ({
            let plan: PlanModel = gemm_plan(
                input,
                weights,
                topk_weights,
                sorted_token_ids,
                experts_ids,
                topk,
                is_prefill,
            );
            plan.result is Ok ==> {
                &&& plan.steps.len() == 9
                &&& plan.steps[3] matches StepModel::Load(count)
                &&& count.spec_name() == "count_tokens_per_expert"@
                &&& plan.steps[4] is Launch
                &&& plan.steps[4]->kernel == count
                &&& plan.steps[5] matches StepModel::Load(scan)
                &&& scan.spec_name() == "expert_prefix_sum"@
                &&& plan.steps[6] is Launch
                &&& plan.steps[6]->kernel == scan
                &&& plan.steps[7] matches StepModel::Load(product)
                &&& plan.steps[8] is Launch
                &&& plan.steps[8]->kernel == product
                &&& count.spec_module() == KernelModule::MoeWmma
                &&& scan.spec_module() == KernelModule::MoeWmma
                &&& product.spec_module() == KernelModule::MoeWmma
            }
        }),
{
}

/// The kernel of the product is the one of the type of the input, in its shape for prompts or in
/// its shape for single tokens.
pub proof fn law_gemm_kernel(
    input: TensorInfo,
    weights: TensorInfo,
    topk_weights: Option<TensorInfo>,
    sorted_token_ids: TensorInfo,
    experts_ids: TensorInfo,
    topk: usize,
    is_prefill: bool,
)
    ensures
        ({
            let plan: PlanModel = gemm_plan(
                input,
                weights,
                topk_weights,
                sorted_token_ids,
                experts_ids,
                topk,
                is_prefill,
            );
            let kernel: Kernel = plan.steps.last()->kernel;
            plan.result is Ok ==> {
                &&& input.dtype == DType::F16 && is_prefill ==> kernel.spec_name()
                    == "moe_wmma_half_16_16_2"@
                &&& input.dtype == DType::F16 && !is_prefill ==> kernel.spec_name()
                    == "moe_wmma_half_8_32_1"@
                &&& input.dtype == DType::BF16 && is_prefill ==> kernel.spec_name()
                    == "moe_wmma_bf16_16_16_2"@
                &&& input.dtype == DType::BF16 && !is_prefill ==> kernel.spec_name()
                    == "moe_wmma_bf16_8_32_1"@
            }
        }),
{
}

/// Whatever the types, the mode and the sizes, the kernel of the product is handed the input, the
/// weights, the sorted token ids, the offsets, the routing weights or a null pointer, and the
/// output, and then the numbers of experts, of experts to a token, of rows, of columns, and the
/// depth.
pub proof fn law_gemm_arguments(
    input: TensorInfo,
    weights: TensorInfo,
    topk_weights: Option<TensorInfo>,
    sorted_token_ids: TensorInfo,
    experts_ids: TensorInfo,
    topk: usize,
    is_prefill: bool,
)
    requires
        gemm_fault(input, weights, topk_weights, sorted_token_ids, experts_ids, topk) is None,
    ensures
        ({
            let plan: PlanModel = gemm_plan(
                input,
                weights,
                topk_weights,
                sorted_token_ids,
                experts_ids,
                topk,
                is_prefill,
            );
            let args: Seq<Arg> = plan.steps.last()->args;
            plan.result matches Ok(output) ==> {
                &&& args.len() == 11
                &&& args[0] == Arg::Input
                &&& args[1] == Arg::Weights
                &&& args[2] == Arg::SortedTokenIds
                &&& args[3] == Arg::Buffer(Buffer::ExpertOffsets)
                &&& topk_weights is Some ==> args[4] == Arg::TopkWeights
                &&& topk_weights is None ==> args[4] == Arg::Null
                &&& args[5] == Arg::Buffer(Buffer::Output)
                &&& args[6] == Arg::Int(weights.dims@[0] as i32)
                &&& args[7] == Arg::Int(topk as i32)
                &&& args[8] == Arg::Int(output.rows as i32)
                &&& args[9] == Arg::Int(weights.dims@[1] as i32)
                &&& args[10] == Arg::Int(input.dims@[1] as i32)
            }
        }),
{
    law_gemm_buffers(
        input,
        weights,
        topk_weights,
        sorted_token_ids,
        experts_ids,
        topk,
        is_prefill,
    );
}

/// The grid of the product has a row of blocks to each expert, with as many tiles of 32 columns as
/// there are columns to cover: `tiles` of them reach the columns, and one less would not. A block
/// has 128 threads, and shared memory for two tiles of 32 by 16 elements of two bytes and one of 32
/// by 32 sums of four bytes.
pub proof fn law_gemm_grid(
    input: TensorInfo,
    weights: TensorInfo,
    topk_weights: Option<TensorInfo>,
    sorted_token_ids: TensorInfo,
    experts_ids: TensorInfo,
    topk: usize,
    is_prefill: bool,
    tiles: int,
)
    requires
        32 * (tiles - 1) < weights.dims@[1] <= 32 * tiles,
    ensures
        ({
            let plan: PlanModel = gemm_plan(
                input,
                weights,
                topk_weights,
                sorted_token_ids,
                experts_ids,
                topk,
                is_prefill,
            );
            plan.result is Ok ==> plan.steps.last()->config.grid_dim == (
                weights.dims@[0] as u32,
                tiles as u32,
                1u32,
            ) && plan.steps.last()->config.block_dim == (128u32, 1u32, 1u32)
                && plan.steps.last()->config.shared_mem_bytes == 2 * (32 * 16 * 2) + 32 * 32 * 4
        }),
{
    assert(div_up(weights.dims@[1] as int, 32) == tiles);
}

/// The counting launch is handed the expert ids, the counts and the number of rows, with a thread
/// to each row in whole blocks of 256; the launch that adds the counts up is handed the counts, the
/// offsets and the number of experts, with a thread and four bytes to each expert, and 32 of these
/// at least, in one block.
pub proof fn law_gemm_offsets(
    input: TensorInfo,
    weights: TensorInfo,
    topk_weights: Option<TensorInfo>,
    sorted_token_ids: TensorInfo,
    experts_ids: TensorInfo,
    topk: usize,
    is_prefill: bool,
    blocks: int,
)
    requires
        gemm_fault(input, weights, topk_weights, sorted_token_ids, experts_ids, topk) is None,
    ensures
        ({
            let plan: PlanModel = gemm_plan(
                input,
                weights,
                topk_weights,
                sorted_token_ids,
                experts_ids,
                topk,
                is_prefill,
            );
            plan.result matches Ok(output) ==> 256 * (blocks - 1) < output.rows <= 256 * blocks ==> counts_and_adds_up(
                plan.steps[4],
                plan.steps[6],
                output.rows as int,
                weights.dims@[0] as int,
                blocks,
            )
        }),
{
    law_gemm_buffers(
        input,
        weights,
        topk_weights,
        sorted_token_ids,
        experts_ids,
        topk,
        is_prefill,
    );
    let plan: PlanModel = gemm_plan(
        input,
        weights,
        topk_weights,
        sorted_token_ids,
        experts_ids,
        topk,
        is_prefill,
    );
    if plan.result matches Ok(output) && 256 * (blocks - 1) < output.rows <= 256 * blocks {
        law_offset_launches(plan.result->Ok_0.rows as int, weights.dims@[0] as int, blocks);
    }
}

} // verus!
