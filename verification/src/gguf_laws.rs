//! What the product with quantized weights does for each request, from the operands straight to the
//! device.
use crate::arith::{div_up, lemma_padded_bounds, padded};
use crate::dtype::{DType, GgmlDType, Half};
use crate::error::MoeError;
use crate::fault::Fault;
use crate::gguf::{gguf_fault, gguf_plan};
use crate::offset_laws::{counts_and_adds_up, law_offset_launches};
use crate::plan::{Arg, Buffer, Kernel, KernelModule, LaunchConfig, Output, PlanModel, StepModel};
use crate::tensor::{Location, Operand, QTensorInfo, TensorInfo};
use vstd::prelude::*;

verus! {

/// A request is accepted exactly when the input is a matrix and the weights a stack of matrices in
/// one of the formats `Q8_0`, `Q2K`, `Q3K`, `Q4K`, `Q5K` and `Q6K`, the ids are unsigned 32-bit
/// numbers, the routing weights, if there are any, are 32-bit floats, all of them are on a CUDA
/// device, and a prompt is to be computed in a 16-bit type, or single tokens are 32-bit floats.
pub proof fn law_gguf_accepts(
    input: TensorInfo,
    weights: QTensorInfo,
    topk_weights: Option<TensorInfo>,
    sorted_token_ids: TensorInfo,
    experts_ids: TensorInfo,
    topk: usize,
    is_prefill: bool,
    dtype: DType,
)
    ensures
        ({
            let plan: PlanModel = gguf_plan(
                input,
                weights,
                topk_weights,
                sorted_token_ids,
                experts_ids,
                topk,
                is_prefill,
                dtype,
            );
            let supported: bool = weights.dtype == GgmlDType::Q8_0 || weights.dtype == GgmlDType::Q4K
                || weights.dtype == GgmlDType::Q2K || weights.dtype == GgmlDType::Q3K || weights.dtype
                == GgmlDType::Q5K || weights.dtype == GgmlDType::Q6K;
            plan.result is Ok <==> {
                &&& supported
                &&& input.dims@.len() == 2
                &&& weights.dims@.len() == 3
                &&& input.location == Location::Cuda
                &&& weights.location == Location::Cuda
                &&& sorted_token_ids.location == Location::Cuda
                &&& sorted_token_ids.dtype == DType::U32
                &&& experts_ids.location == Location::Cuda
                &&& experts_ids.dtype == DType::U32
                &&& topk_weights matches Some(t) ==> t.location == Location::Cuda && t.dtype
                    == DType::F32
                &&& is_prefill ==> dtype == DType::F16 || dtype == DType::BF16
                &&& !is_prefill ==> input.dtype == DType::F32
            }
        }),
{
}

/// A request that is refused names the first thing that is wrong with it, in the order shapes,
/// device, format, weights, routing weights, sorted token ids, expert ids. Nothing is done for it
/// then. Only then the type that is computed in matters: the one of a prompt is refused once the
/// output is allocated and the offsets are computed, the one of single tokens once the output is
/// allocated.
pub proof fn law_gguf_refusals(
    input: TensorInfo,
    weights: QTensorInfo,
    topk_weights: Option<TensorInfo>,
    sorted_token_ids: TensorInfo,
    experts_ids: TensorInfo,
    topk: usize,
    is_prefill: bool,
    dtype: DType,
)
    ensures
        ({
            let plan: PlanModel = gguf_plan(
                input,
                weights,
                topk_weights,
                sorted_token_ids,
                experts_ids,
                topk,
                is_prefill,
                dtype,
            );
            let supported: bool = weights.dtype == GgmlDType::Q8_0 || weights.dtype == GgmlDType::Q4K
                || weights.dtype == GgmlDType::Q2K || weights.dtype == GgmlDType::Q3K || weights.dtype
                == GgmlDType::Q5K || weights.dtype == GgmlDType::Q6K;
            let shaped: bool = input.dims@.len() == 2 && weights.dims@.len() == 3;
            let placed: bool = shaped && input.location == Location::Cuda;
            let weights_read: bool = placed && supported && weights.location == Location::Cuda;
            let routed: bool = weights_read && (topk_weights matches Some(t) ==> t.location
                == Location::Cuda && t.dtype == DType::F32);
            let tokens_read: bool = routed && sorted_token_ids.location == Location::Cuda
                && sorted_token_ids.dtype == DType::U32;
            let experts_read: bool = tokens_read && experts_ids.location == Location::Cuda
                && experts_ids.dtype == DType::U32;
            &&& !experts_read ==> plan.result is Err && plan.steps.len() == 0
            &&& input.dims@.len() != 2 ==> plan.result == Err::<Output, MoeError>(
                (MoeError::UnexpectedRank {
                    operand: Operand::Input,
                    expected_rank: 2,
                    rank: input.dims@.len() as usize,
                }),
            )
            &&& input.dims@.len() == 2 && weights.dims@.len() != 3 ==> plan.result == Err::<Output, MoeError>(
                (MoeError::UnexpectedRank {
                    operand: Operand::Weights,
                    expected_rank: 3,
                    rank: weights.dims@.len() as usize,
                }),
            )
            &&& shaped && input.location != Location::Cuda ==> plan.result == Err::<Output, MoeError>(
                MoeError::NotACudaDevice(input.location),
            )
            &&& placed && !supported ==> plan.result == Err::<Output, MoeError>(MoeError::UnsupportedWeights)
            &&& placed && supported && weights.location != Location::Cuda ==> plan.result == Err::<Output, MoeError>(
                MoeError::NoDevicePointer,
            )
            &&& topk_weights matches Some(t) ==> {
                &&& weights_read && t.location != Location::Cuda ==> plan.result == Err::<Output, MoeError>(
                    MoeError::NotOnCuda(Operand::TopkWeights),
                )
                &&& weights_read && t.location == Location::Cuda && t.dtype != DType::F32
                    ==> plan.result == Err::<Output, MoeError>(
                    (MoeError::UnexpectedDType {
                        operand: Operand::TopkWeights,
                        expected: DType::F32,
                        got: t.dtype,
                    }),
                )
            }
            &&& routed && sorted_token_ids.location != Location::Cuda ==> plan.result == Err::<Output, MoeError>(
                MoeError::NotOnCuda(Operand::SortedTokenIds),
            )
            &&& routed && sorted_token_ids.location == Location::Cuda && sorted_token_ids.dtype
                != DType::U32 ==> plan.result == Err::<Output, MoeError>(
                (MoeError::UnexpectedDType {
                    operand: Operand::SortedTokenIds,
                    expected: DType::U32,
                    got: sorted_token_ids.dtype,
                }),
            )
            &&& tokens_read && experts_ids.location != Location::Cuda ==> plan.result == Err::<Output, MoeError>(
                MoeError::NotOnCuda(Operand::ExpertsIds),
            )
            &&& tokens_read && experts_ids.location == Location::Cuda && experts_ids.dtype
                != DType::U32 ==> plan.result == Err::<Output, MoeError>(
                (MoeError::UnexpectedDType {
                    operand: Operand::ExpertsIds,
                    expected: DType::U32,
                    got: experts_ids.dtype,
                }),
            )
            &&& experts_read && is_prefill && dtype != DType::F16 && dtype != DType::BF16 ==> {
                &&& plan.result == Err::<Output, MoeError>(MoeError::UnsupportedPrefillDType)
                &&& plan.steps.len() == 7
                &&& plan.steps == gguf_plan(
                    input,
                    weights,
                    topk_weights,
                    sorted_token_ids,
                    experts_ids,
                    topk,
                    true,
                    DType::F16,
                ).steps.take(7)
            }
            &&& experts_read && !is_prefill && input.dtype != DType::F32 ==> {
                &&& plan.result == Err::<Output, MoeError>(
                    (MoeError::UnexpectedDType {
                        operand: Operand::Input,
                        expected: DType::F32,
                        got: input.dtype,
                    }),
                )
                &&& plan.steps.len() == 1
                &&& plan.steps[0] is Alloc
                &&& plan.steps[0]->Alloc_0.buffer == Buffer::Output
            }
        }),
{
    let plan: PlanModel = gguf_plan(
        input,
        weights,
        topk_weights,
        sorted_token_ids,
        experts_ids,
        topk,
        is_prefill,
        dtype,
    );
    if plan.steps.len() == 7 {
        assert(plan.steps =~= gguf_plan(
            input,
            weights,
            topk_weights,
            sorted_token_ids,
            experts_ids,
            topk,
            true,
            DType::F16,
        ).steps.take(7));
    }
}

/// Whether the blocks of `dtype` hold `block_elems` weights in `block_bytes` bytes.
pub open spec fn packs(dtype: GgmlDType, block_elems: int, block_bytes: int) -> bool {
    ||| dtype == GgmlDType::Q8_0 && block_elems == 32 && block_bytes == 34
    ||| dtype == GgmlDType::Q4K && block_elems == 256 && block_bytes == 144
    ||| dtype == GgmlDType::Q2K && block_elems == 256 && block_bytes == 84
    ||| dtype == GgmlDType::Q3K && block_elems == 256 && block_bytes == 110
    ||| dtype == GgmlDType::Q5K && block_elems == 256 && block_bytes == 176
    ||| dtype == GgmlDType::Q6K && block_elems == 256 && block_bytes == 210
}

/// A request is faulty exactly when the rows of the output cannot be counted, when the depths of
/// the operands differ, when the depth of a request that is not refused outright is no multiple of
/// 8, when the rows of single tokens are to be divided by a `topk` of zero, or when a size does not
/// fit in a `usize`; what is looked at earlier is what is reported. `width` is the depth rounded up
/// to a multiple of 512.
pub proof fn law_gguf_faults(
    input: TensorInfo,
    weights: QTensorInfo,
    topk_weights: Option<TensorInfo>,
    sorted_token_ids: TensorInfo,
    experts_ids: TensorInfo,
    topk: usize,
    is_prefill: bool,
    block_elems: int,
    block_bytes: int,
    width: int,
)
    requires
        width % 512 == 0,
        input.dims@[1] <= width < input.dims@[1] + 512,
    ensures
        ({
            let fault: Option<Fault> = gguf_fault(
                input,
                weights,
                topk_weights,
                sorted_token_ids,
                experts_ids,
                topk,
                is_prefill,
            );
            let looked_at: bool = gguf_plan(
                input,
                weights,
                topk_weights,
                sorted_token_ids,
                experts_ids,
                topk,
                true,
                DType::F16,
            ).result is Ok;
            let counted: bool = input.dims@.len() == 2;
            let input_rows: int = input.dims@[0] as int;
            let rows: int = if topk_weights is Some {
                input_rows
            } else {
                input_rows * topk
            };
            let experts: int = weights.dims@[0] as int;
            let cols: int = weights.dims@[1] as int;
            let depth: int = input.dims@[1] as int;
            let compared: bool = counted && rows <= usize::MAX && weights.dims@.len() == 3;
            let same: bool = compared && depth == weights.dims@[2];
            let allocated: bool = same && looked_at && rows * cols <= usize::MAX;
            let aligned: bool = allocated && depth % 8 == 0;
            let prefill_fits: bool = rows + 256 <= usize::MAX && experts * 4 <= usize::MAX && cols
                + 32 <= usize::MAX;
            let decoded: bool = aligned && !is_prefill && input.dtype == DType::F32;
            let widened: bool = decoded && depth + 512 <= usize::MAX;
            let divided: bool = widened && (topk_weights is Some || topk != 0);
            let decode_fits: bool = input_rows * (width / 32) * 36 <= usize::MAX && width + 256
                <= usize::MAX && cols + 4 <= usize::MAX && depth / block_elems * block_bytes * 4
                + 1024 <= usize::MAX;
            &&& !counted ==> fault is None
            &&& counted && rows > usize::MAX ==> fault == Some(Fault::Overflow)
            &&& counted && rows <= usize::MAX && weights.dims@.len() != 3 ==> fault is None
            &&& compared && !same ==> fault == Some(
                (Fault::LastDimMismatch { input: input.dims@[1], weight: weights.dims@[2] }),
            )
            &&& same && !looked_at ==> fault is None
            &&& same && looked_at && rows * cols > usize::MAX ==> fault == Some(Fault::Overflow)
            &&& allocated && depth % 8 != 0 ==> fault == Some(Fault::UnalignedRows)
            &&& aligned && is_prefill && !prefill_fits ==> fault == Some(Fault::Overflow)
            &&& aligned && is_prefill && prefill_fits ==> fault is None
            &&& aligned && !is_prefill && input.dtype != DType::F32 ==> fault is None
            &&& decoded && depth + 512 > usize::MAX ==> fault == Some(Fault::Overflow)
            &&& widened && topk_weights is None && topk == 0 ==> fault == Some(Fault::ZeroTopk)
            &&& divided && packs(weights.dtype, block_elems, block_bytes) && !decode_fits ==> fault
                == Some(Fault::Overflow)
            &&& divided && packs(weights.dtype, block_elems, block_bytes) && decode_fits ==> fault
                is None
        }),
{
    lemma_width(input.dims@[1] as int, width);
}

proof fn lemma_width(depth: int, width: int)
    requires
        0 <= depth,
        width % 512 == 0,
        depth <= width < depth + 512,
    ensures
        padded(depth, 512) == width,
        div_up(width, 256) == width / 256,
{
    lemma_padded_bounds(depth, 512);
}

/// The output holds 32-bit floats, a column to each row of an expert's matrix, and the rows of the
/// input if they come with routing weights, or `topk` for each of them otherwise. It is allocated
/// first, element for element, in either mode.
pub proof fn law_gguf_output_is_allocated_first(
    input: TensorInfo,
    weights: QTensorInfo,
    topk_weights: Option<TensorInfo>,
    sorted_token_ids: TensorInfo,
    experts_ids: TensorInfo,
    topk: usize,
    is_prefill: bool,
    dtype: DType,
)
    requires
        gguf_fault(
            input,
            weights,
            topk_weights,
            sorted_token_ids,
            experts_ids,
            topk,
            is_prefill,
        ) is None,
    ensures
        ({
            let plan: PlanModel = gguf_plan(
                input,
                weights,
                topk_weights,
                sorted_token_ids,
                experts_ids,
                topk,
                is_prefill,
                dtype,
            );
            plan.result matches Ok(output) ==> {
                &&& output.dtype == DType::F32
                &&& topk_weights is Some ==> output.rows == input.dims@[0]
                &&& topk_weights is None ==> output.rows == input.dims@[0] * topk
                &&& output.cols == weights.dims@[1]
                &&& plan.steps.len() > 0
                &&& plan.steps[0] matches StepModel::Alloc(a)
                &&& a.buffer == Buffer::Output
                &&& a.elem == DType::F32
                &&& a.len == output.rows * output.cols
                &&& !a.zeroed
            }
        }),
{
    let plan: PlanModel = gguf_plan(
        input,
        weights,
        topk_weights,
        sorted_token_ids,
        experts_ids,
        topk,
        is_prefill,
        dtype,
    );
    if plan.result is Ok {
        assert(input.dims@[0] * topk >= 0) by (nonlinear_arith);
        let rows: int = if topk_weights is Some {
            input.dims@[0] as int
        } else {
            input.dims@[0] * topk
        };
        let cols: int = weights.dims@[1] as int;
        assert(rows * cols >= 0) by (nonlinear_arith)
            requires
                rows >= 0,
                cols >= 0,
        ;
    }
}

/// The routing weights that the caller gives are the ones that the kernel of the product is handed,
/// in either mode, and a null pointer stands for them only when there are none.
pub proof fn law_gguf_routing_weights(
    input: TensorInfo,
    weights: QTensorInfo,
    topk_weights: Option<TensorInfo>,
    sorted_token_ids: TensorInfo,
    experts_ids: TensorInfo,
    topk: usize,
    is_prefill: bool,
    dtype: DType,
)
    ensures
        ({
            let plan: PlanModel = gguf_plan(
                input,
                weights,
                topk_weights,
                sorted_token_ids,
                experts_ids,
                topk,
                is_prefill,
                dtype,
            );
            plan.result is Ok ==> {
                &&& plan.steps.last() is Launch
                &&& topk_weights is Some ==> plan.steps.last()->args[4] == Arg::TopkWeights
                &&& topk_weights is None ==> plan.steps.last()->args[4] == Arg::Null
            }
        }),
{
}

/// For a prompt, the counts, cleared, and the offsets, one more than there are experts, are
/// allocated behind the output; the rows are counted and the counts added up; then the input is
/// converted to `dtype`, and the kernel of the product is loaded and launched.
pub proof fn law_prefill_steps(
    input: TensorInfo,
    weights: QTensorInfo,
    topk_weights: Option<TensorInfo>,
    sorted_token_ids: TensorInfo,
    experts_ids: TensorInfo,
    topk: usize,
    dtype: DType,
    blocks: int,
)
    requires
        gguf_fault(
            input,
            weights,
            topk_weights,
            sorted_token_ids,
            experts_ids,
            topk,
            true,
        ) is None,
    ensures
        ({
            let plan: PlanModel = gguf_plan(
                input,
                weights,
                topk_weights,
                sorted_token_ids,
                experts_ids,
                topk,
                true,
                dtype,
            );
            plan.result matches Ok(output) ==> {
                &&& plan.steps.len() == 10
                &&& plan.steps[1] matches StepModel::Alloc(a)
                &&& a.buffer == Buffer::ExpertCounts
                &&& a.elem == DType::U32
                &&& a.len == weights.dims@[0]
                &&& a.zeroed
                &&& plan.steps[2] matches StepModel::Alloc(a)
                &&& a.buffer == Buffer::ExpertOffsets
                &&& a.elem == DType::U32
                &&& a.len == weights.dims@[0] + 1
                &&& !a.zeroed
                &&& plan.steps[3] == StepModel::Load(Kernel::CountTokensPerExpert)
                &&& plan.steps[5] == StepModel::Load(Kernel::ExpertPrefixSum)
                &&& 256 * (blocks - 1) < output.rows <= 256 * blocks ==> counts_and_adds_up(
                    plan.steps[4],
                    plan.steps[6],
                    output.rows as int,
                    weights.dims@[0] as int,
                    blocks,
                )
                &&& dtype == DType::F16 ==> plan.steps[7] == StepModel::ConvertInput(Half::F16)
                &&& dtype == DType::BF16 ==> plan.steps[7] == StepModel::ConvertInput(Half::BF16)
                &&& plan.steps[9] is Launch
                &&& plan.steps[8] == StepModel::Load(plan.steps[9]->kernel)
                &&& plan.steps[9]->kernel.spec_module() == KernelModule::MoeWmmaGguf
            }
        }),
{
    law_gguf_output_is_allocated_first(
        input,
        weights,
        topk_weights,
        sorted_token_ids,
        experts_ids,
        topk,
        true,
        dtype,
    );
    let plan: PlanModel = gguf_plan(
        input,
        weights,
        topk_weights,
        sorted_token_ids,
        experts_ids,
        topk,
        true,
        dtype,
    );
    if plan.result matches Ok(output) && 256 * (blocks - 1) < output.rows <= 256 * blocks {
        law_offset_launches(plan.result->Ok_0.rows as int, weights.dims@[0] as int, blocks);
    }
}

/// Whatever the format and the type that is computed in, the kernel for a prompt is handed the
/// converted input, the weights, the sorted token ids, the offsets, the routing weights or a null
/// pointer, and the output, and then the numbers of experts, of experts to a token, of rows, of
/// columns, the depth, and the number of the format.
pub proof fn law_prefill_arguments(
    input: TensorInfo,
    weights: QTensorInfo,
    topk_weights: Option<TensorInfo>,
    sorted_token_ids: TensorInfo,
    experts_ids: TensorInfo,
    topk: usize,
    dtype: DType,
)
    requires
        gguf_fault(
            input,
            weights,
            topk_weights,
            sorted_token_ids,
            experts_ids,
            topk,
            true,
        ) is None,
    ensures
        ({
            let plan: PlanModel = gguf_plan(
                input,
                weights,
                topk_weights,
                sorted_token_ids,
                experts_ids,
                topk,
                true,
                dtype,
            );
            let args: Seq<Arg> = plan.steps.last()->args;
            plan.result matches Ok(output) ==> {
                &&& args.len() == 12
                &&& args[0] == Arg::ConvertedInput
                &&& args[1] == Arg::Weights
                &&& args[2] == Arg::SortedTokenIds
                &&& args[3] == Arg::Buffer(Buffer::ExpertOffsets)
                &&& topk_weights is Some ==> args[4] == Arg::TopkWeights
                &&& topk_weights is None ==> args[4] == Arg::Null
                &&& args[5] == Arg::Buffer(Buffer::Output)
                &&& args[6] == Arg::Int(weights.dims@[0] as i32)
                &&& args[7] == Arg::Int(topk as i32)
                &&& args[8] == Arg::Int(output.rows as i32)
                &&& args[9] == Arg::Int(weights.dims@[1] as i32)
                &&& args[10] == Arg::Int(input.dims@[1] as i32)
                &&& weights.dtype == GgmlDType::Q8_0 ==> args[11] == Arg::Int(0i32)
                &&& weights.dtype == GgmlDType::Q4K ==> args[11] == Arg::Int(1i32)
                &&& weights.dtype == GgmlDType::Q2K ==> args[11] == Arg::Int(2i32)
                &&& weights.dtype == GgmlDType::Q3K ==> args[11] == Arg::Int(3i32)
                &&& weights.dtype == GgmlDType::Q5K ==> args[11] == Arg::Int(4i32)
                &&& weights.dtype == GgmlDType::Q6K ==> args[11] == Arg::Int(5i32)
            }
        }),
{
    law_gguf_output_is_allocated_first(
        input,
        weights,
        topk_weights,
        sorted_token_ids,
        experts_ids,
        topk,
        true,
        dtype,
    );
}

/// The kernel for a prompt is the one of the type that is computed in and of the format of the
/// weights.
pub proof fn law_prefill_kernel(
    input: TensorInfo,
    weights: QTensorInfo,
    topk_weights: Option<TensorInfo>,
    sorted_token_ids: TensorInfo,
    experts_ids: TensorInfo,
    topk: usize,
    dtype: DType,
)
    ensures
        ({
            let plan: PlanModel = gguf_plan(
                input,
                weights,
                topk_weights,
                sorted_token_ids,
                experts_ids,
                topk,
                true,
                dtype,
            );
            let name: Seq<char> = plan.steps.last()->kernel.spec_name();
            plan.result is Ok ==> {
                &&& dtype == DType::F16 && weights.dtype == GgmlDType::Q8_0 ==> name
                    == "moe_gguf_prefill_half_q8_0"@
                &&& dtype == DType::F16 && weights.dtype == GgmlDType::Q4K ==> name
                    == "moe_gguf_prefill_half_q4k"@
                &&& dtype == DType::F16 && weights.dtype == GgmlDType::Q2K ==> name
                    == "moe_gguf_prefill_half_q2k"@
                &&& dtype == DType::F16 && weights.dtype == GgmlDType::Q3K ==> name
                    == "moe_gguf_prefill_half_q3k"@
                &&& dtype == DType::F16 && weights.dtype == GgmlDType::Q5K ==> name
                    == "moe_gguf_prefill_half_q5k"@
                &&& dtype == DType::F16 && weights.dtype == GgmlDType::Q6K ==> name
                    == "moe_gguf_prefill_half_q6k"@
                &&& dtype == DType::BF16 && weights.dtype == GgmlDType::Q8_0 ==> name
                    == "moe_gguf_prefill_bf16_q8_0"@
                &&& dtype == DType::BF16 && weights.dtype == GgmlDType::Q4K ==> name
                    == "moe_gguf_prefill_bf16_q4k"@
                &&& dtype == DType::BF16 && weights.dtype == GgmlDType::Q2K ==> name
                    == "moe_gguf_prefill_bf16_q2k"@
                &&& dtype == DType::BF16 && weights.dtype == GgmlDType::Q3K ==> name
                    == "moe_gguf_prefill_bf16_q3k"@
                &&& dtype == DType::BF16 && weights.dtype == GgmlDType::Q5K ==> name
                    == "moe_gguf_prefill_bf16_q5k"@
                &&& dtype == DType::BF16 && weights.dtype == GgmlDType::Q6K ==> name
                    == "moe_gguf_prefill_bf16_q6k"@
            }
        }),
{
}

/// The grid for a prompt has a row of blocks to each expert, with as many tiles of 32 columns as
/// there are columns to cover. A block has four rows of 32 or of 64 threads, and shared memory for
/// two tiles of 32 rows of as many two-byte elements as a block of the format holds, for 32 packed
/// blocks, and for 32 by 32 sums of four bytes.
pub proof fn law_prefill_grid(
    input: TensorInfo,
    weights: QTensorInfo,
    topk_weights: Option<TensorInfo>,
    sorted_token_ids: TensorInfo,
    experts_ids: TensorInfo,
    topk: usize,
    dtype: DType,
    tiles: int,
    block_elems: int,
    block_bytes: int,
)
    requires
        32 * (tiles - 1) < weights.dims@[1] <= 32 * tiles,
        packs(weights.dtype, block_elems, block_bytes),
    ensures
        ({
            let plan: PlanModel = gguf_plan(
                input,
                weights,
                topk_weights,
                sorted_token_ids,
                experts_ids,
                topk,
                true,
                dtype,
            );
            let config: LaunchConfig = plan.steps.last()->config;
            plan.result is Ok ==> {
                &&& config.grid_dim == (weights.dims@[0] as u32, tiles as u32, 1u32)
                &&& weights.dtype == GgmlDType::Q8_0 || weights.dtype == GgmlDType::Q4K
                    ==> config.block_dim == (32u32, 4u32, 1u32)
                &&& weights.dtype != GgmlDType::Q8_0 && weights.dtype != GgmlDType::Q4K
                    ==> config.block_dim == (64u32, 4u32, 1u32)
                &&& config.shared_mem_bytes == 2 * (32 * block_elems * 2) + 32 * block_bytes + 32 * 32
                    * 4
            }
        }),
{
    assert(div_up(weights.dims@[1] as int, 32) == tiles);
}

/// For single tokens, the rows of the input are quantized into a buffer of their own, with 36 bytes
/// to each 32 elements of a row that is padded to `width`, and the product is computed from it.
pub proof fn law_decode_steps(
    input: TensorInfo,
    weights: QTensorInfo,
    topk_weights: Option<TensorInfo>,
    sorted_token_ids: TensorInfo,
    experts_ids: TensorInfo,
    topk: usize,
    dtype: DType,
    width: int,
)
    requires
        gguf_fault(
            input,
            weights,
            topk_weights,
            sorted_token_ids,
            experts_ids,
            topk,
            false,
        ) is None,
        width % 512 == 0,
        input.dims@[1] <= width < input.dims@[1] + 512,
    ensures
        ({
            let plan: PlanModel = gguf_plan(
                input,
                weights,
                topk_weights,
                sorted_token_ids,
                experts_ids,
                topk,
                false,
                dtype,
            );
            plan.result is Ok ==> {
                &&& plan.steps.len() == 6
                &&& plan.steps[1] matches StepModel::Alloc(a)
                &&& a.buffer == Buffer::QuantizedInput
                &&& a.elem == DType::U8
                &&& a.len == input.dims@[0] * (width / 32) * 36
                &&& !a.zeroed
                &&& plan.steps[2] == StepModel::Load(Kernel::QuantizeQ8_1)
                &&& plan.steps[3] matches StepModel::Launch { kernel, config, args }
                &&& kernel.spec_name() == "moe_quantize_q8_1"@
                &&& kernel.spec_module() == KernelModule::MoeGguf
                &&& config.grid_dim == ((width / 256) as u32, input.dims@[0] as u32, 1u32)
                &&& config.block_dim == (256u32, 1u32, 1u32)
                &&& config.shared_mem_bytes == 0
                &&& args.len() == 4
                &&& args[0] == Arg::Input
                &&& args[1] == Arg::Buffer(Buffer::QuantizedInput)
                &&& args[2] == Arg::Int(input.dims@[1] as i32)
                &&& args[3] == Arg::Int(width as i32)
                &&& plan.steps[5] is Launch
                &&& plan.steps[4] == StepModel::Load(plan.steps[5]->kernel)
                &&& plan.steps[5]->kernel.spec_module() == KernelModule::MoeGguf
            }
        }),
{
    lemma_width(input.dims@[1] as int, width);
    let rows: int = input.dims@[0] as int;
    let blocks: int = width / 32;
    assert(rows * blocks * 36 >= 0) by (nonlinear_arith)
        requires
            rows >= 0,
            blocks >= 0,
    ;
}

/// Whatever the format, the kernel for single tokens is handed the weights, the quantized input, the
/// sorted token ids, the expert ids, the routing weights or a null pointer, and the output, and then
/// the numbers of experts, of experts to a token, of rows, of columns, the depth, and the depth that
/// the quantized rows are padded to.
pub proof fn law_decode_arguments(
    input: TensorInfo,
    weights: QTensorInfo,
    topk_weights: Option<TensorInfo>,
    sorted_token_ids: TensorInfo,
    experts_ids: TensorInfo,
    topk: usize,
    dtype: DType,
    width: int,
)
    requires
        gguf_fault(
            input,
            weights,
            topk_weights,
            sorted_token_ids,
            experts_ids,
            topk,
            false,
        ) is None,
        width % 512 == 0,
        input.dims@[1] <= width < input.dims@[1] + 512,
    ensures
        ({
            let plan: PlanModel = gguf_plan(
                input,
                weights,
                topk_weights,
                sorted_token_ids,
                experts_ids,
                topk,
                false,
                dtype,
            );
            let args: Seq<Arg> = plan.steps.last()->args;
            plan.result matches Ok(output) ==> {
                &&& args.len() == 12
                &&& args[0] == Arg::Weights
                &&& args[1] == Arg::Buffer(Buffer::QuantizedInput)
                &&& args[2] == Arg::SortedTokenIds
                &&& args[3] == Arg::ExpertsIds
                &&& topk_weights is Some ==> args[4] == Arg::TopkWeights
                &&& topk_weights is None ==> args[4] == Arg::Null
                &&& args[5] == Arg::Buffer(Buffer::Output)
                &&& args[6] == Arg::Int(weights.dims@[0] as i32)
                &&& args[7] == Arg::Int(topk as i32)
                &&& args[8] == Arg::Int(output.rows as i32)
                &&& args[9] == Arg::Int(weights.dims@[1] as i32)
                &&& args[10] == Arg::Int(input.dims@[1] as i32)
                &&& args[11] == Arg::Int(width as i32)
            }
        }),
{
    lemma_width(input.dims@[1] as int, width);
    law_gguf_output_is_allocated_first(
        input,
        weights,
        topk_weights,
        sorted_token_ids,
        experts_ids,
        topk,
        false,
        dtype,
    );
}

/// The kernel for single tokens is the one of the format of the weights.
pub proof fn law_decode_kernel(
    input: TensorInfo,
    weights: QTensorInfo,
    topk_weights: Option<TensorInfo>,
    sorted_token_ids: TensorInfo,
    experts_ids: TensorInfo,
    topk: usize,
    dtype: DType,
)
    ensures
        ({
            let plan: PlanModel = gguf_plan(
                input,
                weights,
                topk_weights,
                sorted_token_ids,
                experts_ids,
                topk,
                false,
                dtype,
            );
            let name: Seq<char> = plan.steps.last()->kernel.spec_name();
            plan.result is Ok ==> {
                &&& weights.dtype == GgmlDType::Q8_0 ==> name == "moe_gguf_q8_0"@
                &&& weights.dtype == GgmlDType::Q4K ==> name == "moe_gguf_q4k"@
                &&& weights.dtype == GgmlDType::Q2K ==> name == "moe_gguf_q2k"@
                &&& weights.dtype == GgmlDType::Q3K ==> name == "moe_gguf_q3k"@
                &&& weights.dtype == GgmlDType::Q5K ==> name == "moe_gguf_q5k"@
                &&& weights.dtype == GgmlDType::Q6K ==> name == "moe_gguf_q6k"@
            }
        }),
{
}

/// The grid for single tokens has a row of blocks to each row of the output, and a block to each
/// four columns, the last one possibly not full. A block has four warps of 32 threads, and shared
/// memory for the packed row of an expert, `row_blocks` blocks of its format, to each warp, and for
/// 1024 bytes more.
pub proof fn law_decode_grid(
    input: TensorInfo,
    weights: QTensorInfo,
    topk_weights: Option<TensorInfo>,
    sorted_token_ids: TensorInfo,
    experts_ids: TensorInfo,
    topk: usize,
    dtype: DType,
    groups: int,
    block_elems: int,
    block_bytes: int,
    row_blocks: int,
)
    requires
        gguf_fault(
            input,
            weights,
            topk_weights,
            sorted_token_ids,
            experts_ids,
            topk,
            false,
        ) is None,
        4 * (groups - 1) < weights.dims@[1] <= 4 * groups,
        packs(weights.dtype, block_elems, block_bytes),
        row_blocks * block_elems <= input.dims@[1] < (row_blocks + 1) * block_elems,
    ensures
        ({
            let plan: PlanModel = gguf_plan(
                input,
                weights,
                topk_weights,
                sorted_token_ids,
                experts_ids,
                topk,
                false,
                dtype,
            );
            let config: LaunchConfig = plan.steps.last()->config;
            plan.result matches Ok(output) ==> {
                &&& config.grid_dim == (groups as u32, output.rows as u32, 1u32)
                &&& config.block_dim == (32u32, 4u32, 1u32)
                &&& config.shared_mem_bytes == (row_blocks * block_bytes * 4 + 1024) as u32
            }
        }),
{
    assert(div_up(weights.dims@[1] as int, 4) == groups);
    assert(input.dims@[1] as int / block_elems == row_blocks) by {
        let depth: int = input.dims@[1] as int;
        if block_elems == 32 {
            assert(row_blocks * 32 <= depth < (row_blocks + 1) * 32);
        } else {
            assert(block_elems == 256);
            assert(row_blocks * 256 <= depth < (row_blocks + 1) * 256);
        }
    }
    law_gguf_output_is_allocated_first(
        input,
        weights,
        topk_weights,
        sorted_token_ids,
        experts_ids,
        topk,
        false,
        dtype,
    );
}

} // verus!
