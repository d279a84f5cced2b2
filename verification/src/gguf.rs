//! The product with quantized weights.
use crate::arith::{ceil_div, div_up, pad, padded};
use crate::dtype::{half_of, quant_of, DType, Half, Quant};
use crate::error::MoeError;
use crate::fault::Fault;
use crate::gemm::{output_rows, topk_weights_arg, M_BLK, N_BLK, SIZEOF_FLOAT, SIZEOF_HALF};
use crate::offsets::{
    alloc_expert_buffers, check_offsets_fit, expert_offsets_steps, launch_expert_offsets,
    offsets_fit,
};
use crate::plan::{
    load_and_launch, push_launch, push_step, refusal, refuse, steps_model, Alloc, Arg, Buffer,
    Kernel, Launch, LaunchConfig, Output, Plan, PlanModel, Step, StepModel,
};
use crate::tensor::{
    check_operand, check_optional_operand, dims2, dims3, first_error, operand_error,
    optional_operand_error, rank_error, Location, Operand, QTensorInfo, TensorInfo,
};
use vstd::prelude::*;

verus! {

/// The elements that a quantized row is padded to a multiple of.
pub const MATRIX_ROW_PADDING: usize = 512;

/// The threads of a block that quantizes.
pub const CUDA_QUANTIZE_BLOCK_SIZE: u32 = 256;

/// The elements of a `q8_1` block.
pub const QK8_1: usize = 32;

/// The bytes of a `q8_1` block: a byte to an element, and two 16-bit numbers.
pub const SIZEOF_BLOCK_Q8_1: usize = 36;

/// The threads of a warp.
pub const WARP_SIZE: u32 = 32;

/// The warps of a block.
pub const WARPS_PER_BLOCK: u32 = 4;

/// The shared memory of a block of the decode kernel besides the weights.
pub const DECODE_EXTRA_BYTES: usize = 1024;

/// The first reason, in the order in which the operands are looked at, for which the product is
/// refused before anything is done.
pub open spec fn gguf_error(
    input: TensorInfo,
    weights: QTensorInfo,
    topk_weights: Option<TensorInfo>,
    sorted_token_ids: TensorInfo,
    experts_ids: TensorInfo,
) -> Option<MoeError> {
    if input.dims@.len() != 2 {
        Some(rank_error(Operand::Input, 2, input.dims@))
    } else if weights.dims@.len() != 3 {
        Some(rank_error(Operand::Weights, 3, weights.dims@))
    } else if input.location != Location::Cuda {
        Some(MoeError::NotACudaDevice(input.location))
    } else if quant_of(weights.dtype) is None {
        Some(MoeError::UnsupportedWeights)
    } else if weights.location != Location::Cuda {
        Some(MoeError::NoDevicePointer)
    } else {
        first_error(
            optional_operand_error(Operand::TopkWeights, topk_weights, DType::F32),
            first_error(
                operand_error(Operand::SortedTokenIds, sorted_token_ids, DType::U32),
                operand_error(Operand::ExpertsIds, experts_ids, DType::U32),
            ),
        )
    }
}

/// The bytes of `rows` rows of `depth` elements, quantized to `q8_1` blocks and padded.
pub open spec fn quantized_bytes(rows: int, depth: int) -> int {
    rows * (padded(depth, MATRIX_ROW_PADDING as int) / QK8_1 as int) * SIZEOF_BLOCK_Q8_1
}

/// The shared memory of a block of the prefill kernel: a tile of the input, a tile of the weights
/// before and after they are unpacked, and a tile of sums, which starts at a multiple of 4 bytes.
pub open spec fn prefill_shared_bytes(quant: Quant) -> int {
    let qk: int = quant.spec_block_elems() as int;
    let operands: int = M_BLK * qk * SIZEOF_HALF + N_BLK * qk * SIZEOF_HALF + N_BLK
        * quant.spec_block_bytes();
    padded(operands, 4) + M_BLK * N_BLK * SIZEOF_FLOAT
}

/// The shared memory of a block of the decode kernel: a row of packed weights to each warp, and
/// some more.
pub open spec fn decode_shared_bytes(quant: Quant, depth: int) -> int {
    depth / (quant.spec_block_elems() as int) * quant.spec_block_bytes() * WARPS_PER_BLOCK
        + DECODE_EXTRA_BYTES
}

/// Whether the sizes of the prefill launches fit in a `usize`.
pub open spec fn prefill_fits(rows: int, cols: int, experts: int) -> bool {
    &&& offsets_fit(rows, experts)
    &&& cols + N_BLK <= usize::MAX
}

/// Whether the sizes of the decode launches fit in a `usize`.
pub open spec fn decode_fits(quant: Quant, input_rows: int, cols: int, depth: int) -> bool {
    &&& depth + MATRIX_ROW_PADDING <= usize::MAX
    &&& quantized_bytes(input_rows, depth) <= usize::MAX
    &&& padded(depth, MATRIX_ROW_PADDING as int) + CUDA_QUANTIZE_BLOCK_SIZE <= usize::MAX
    &&& cols + WARPS_PER_BLOCK <= usize::MAX
    &&& decode_shared_bytes(quant, depth) <= usize::MAX
}

/// What is wrong with the request, if something is that is not an error.
pub open spec fn gguf_fault(
    input: TensorInfo,
    weights: QTensorInfo,
    topk_weights: Option<TensorInfo>,
    sorted_token_ids: TensorInfo,
    experts_ids: TensorInfo,
    topk: usize,
    is_prefill: bool,
) -> Option<Fault> {
    let input_rows: int = input.dims@[0] as int;
    let rows: int = output_rows(input_rows, topk_weights is Some, topk as int);
    let experts: int = weights.dims@[0] as int;
    let cols: int = weights.dims@[1] as int;
    let depth: int = input.dims@[1] as int;
    if input.dims@.len() != 2 {
        None
    } else if rows > usize::MAX {
        Some(Fault::Overflow)
    } else if weights.dims@.len() != 3 {
        None
    } else if depth != weights.dims@[2] {
        Some(Fault::LastDimMismatch { input: input.dims@[1], weight: weights.dims@[2] })
    } else if gguf_error(input, weights, topk_weights, sorted_token_ids, experts_ids) is Some {
        None
    } else if rows * cols > usize::MAX {
        Some(Fault::Overflow)
    } else if depth % 8 != 0 {
        Some(Fault::UnalignedRows)
    } else if is_prefill {
        if !prefill_fits(rows, cols, experts) {
            Some(Fault::Overflow)
        } else {
            None
        }
    } else if operand_error(Operand::Input, input, DType::F32) is Some {
        None
    } else if depth + MATRIX_ROW_PADDING > usize::MAX {
        Some(Fault::Overflow)
    } else if topk_weights is None && topk == 0 {
        Some(Fault::ZeroTopk)
    } else if !decode_fits(quant_of(weights.dtype)->0, input_rows, cols, depth) {
        Some(Fault::Overflow)
    } else {
        None
    }
}

/// The allocation of the output.
pub open spec fn output_alloc(rows: int, cols: int) -> StepModel {
    StepModel::Alloc(
        Alloc {
            buffer: Buffer::Output,
            elem: DType::F32,
            len: (rows * cols) as usize,
            zeroed: false,
        },
    )
}

/// The launch that computes the product for a prompt, one row of blocks to an expert.
pub open spec fn prefill_launch(
    half: Half,
    quant: Quant,
    weighted: bool,
    topk: int,
    rows: int,
    experts: int,
    cols: int,
    depth: int,
) -> StepModel {
    StepModel::Launch {
        kernel: Kernel::GgufPrefill { half, quant },
        config: LaunchConfig {
            grid_dim: (experts as u32, div_up(cols, N_BLK as int) as u32, 1),
            block_dim: (quant.spec_prefill_threads(), WARPS_PER_BLOCK, 1),
            shared_mem_bytes: prefill_shared_bytes(quant) as u32,
        },
        args: seq![
            Arg::ConvertedInput,
            Arg::Weights,
            Arg::SortedTokenIds,
            Arg::Buffer(Buffer::ExpertOffsets),
            topk_weights_arg(weighted),
            Arg::Buffer(Buffer::Output),
            Arg::Int(experts as i32),
            Arg::Int(topk as i32),
            Arg::Int(rows as i32),
            Arg::Int(cols as i32),
            Arg::Int(depth as i32),
            Arg::Int(quant.spec_code()),
        ],
    }
}

/// The launch that quantizes `input_rows` rows of `depth` elements.
pub open spec fn quantize_launch(input_rows: int, depth: int) -> StepModel {
    let depth_padded: int = padded(depth, MATRIX_ROW_PADDING as int);
    StepModel::Launch {
        kernel: Kernel::QuantizeQ8_1,
        config: LaunchConfig {
            grid_dim: (
                div_up(depth_padded, CUDA_QUANTIZE_BLOCK_SIZE as int) as u32,
                input_rows as u32,
                1,
            ),
            block_dim: (CUDA_QUANTIZE_BLOCK_SIZE, 1, 1),
            shared_mem_bytes: 0,
        },
        args: seq![
            Arg::Input,
            Arg::Buffer(Buffer::QuantizedInput),
            Arg::Int(depth as i32),
            Arg::Int(depth_padded as i32),
        ],
    }
}

/// The launch that computes the product with the quantized input, one warp to an element.
pub open spec fn decode_launch(
    quant: Quant,
    weighted: bool,
    topk: int,
    rows: int,
    experts: int,
    cols: int,
    depth: int,
) -> StepModel {
    StepModel::Launch {
        kernel: Kernel::Gguf { quant },
        config: LaunchConfig {
            grid_dim: (div_up(cols, WARPS_PER_BLOCK as int) as u32, rows as u32, 1),
            block_dim: (WARP_SIZE, WARPS_PER_BLOCK, 1),
            shared_mem_bytes: decode_shared_bytes(quant, depth) as u32,
        },
        args: seq![
            Arg::Weights,
            Arg::Buffer(Buffer::QuantizedInput),
            Arg::SortedTokenIds,
            Arg::ExpertsIds,
            topk_weights_arg(weighted),
            Arg::Buffer(Buffer::Output),
            Arg::Int(experts as i32),
            Arg::Int(topk as i32),
            Arg::Int(rows as i32),
            Arg::Int(cols as i32),
            Arg::Int(depth as i32),
            Arg::Int(padded(depth, MATRIX_ROW_PADDING as int) as i32),
        ],
    }
}

/// What is done for a prompt once the output is allocated. The type that is computed in is looked
/// at only after the expert offsets are on their way.
pub open spec fn prefill_plan(
    quant: Quant,
    dtype: DType,
    weighted: bool,
    topk: int,
    rows: int,
    experts: int,
    cols: int,
    depth: int,
) -> PlanModel {
    match half_of(dtype) {
        None => PlanModel {
            steps: expert_offsets_steps(rows, experts),
            result: Err(MoeError::UnsupportedPrefillDType),
        },
        Some(half) => PlanModel {
            steps: expert_offsets_steps(rows, experts) + seq![
                StepModel::ConvertInput(half),
            ] + load_and_launch(
                prefill_launch(half, quant, weighted, topk, rows, experts, cols, depth),
            ),
            result: Ok(Output { rows: rows as usize, cols: cols as usize, dtype: DType::F32 }),
        },
    }
}

/// What is done for single tokens once the output is allocated.
pub open spec fn decode_plan(
    quant: Quant,
    input: TensorInfo,
    weighted: bool,
    topk: int,
    rows: int,
    experts: int,
    cols: int,
    depth: int,
) -> PlanModel {
    match operand_error(Operand::Input, input, DType::F32) {
        Some(error) => refusal(error),
        None => PlanModel {
            steps: seq![
                StepModel::Alloc(
                    Alloc {
                        buffer: Buffer::QuantizedInput,
                        elem: DType::U8,
                        len: quantized_bytes(input.dims@[0] as int, depth) as usize,
                        zeroed: false,
                    },
                ),
            ] + load_and_launch(quantize_launch(input.dims@[0] as int, depth)) + load_and_launch(
                decode_launch(quant, weighted, topk, rows, experts, cols, depth),
            ),
            result: Ok(Output { rows: rows as usize, cols: cols as usize, dtype: DType::F32 }),
        },
    }
}

/// The plan of the product.
pub open spec fn gguf_plan(
    input: TensorInfo,
    weights: QTensorInfo,
    topk_weights: Option<TensorInfo>,
    sorted_token_ids: TensorInfo,
    experts_ids: TensorInfo,
    topk: usize,
    is_prefill: bool,
    dtype: DType,
) -> PlanModel {
    match gguf_error(input, weights, topk_weights, sorted_token_ids, experts_ids) {
        Some(error) => refusal(error),
        None => {
            let quant: Quant = quant_of(weights.dtype)->0;
            let weighted: bool = topk_weights is Some;
            let rows: int = output_rows(input.dims@[0] as int, weighted, topk as int);
            let experts: int = weights.dims@[0] as int;
            let cols: int = weights.dims@[1] as int;
            let depth: int = input.dims@[1] as int;
            let rest: PlanModel = if is_prefill {
                prefill_plan(quant, dtype, weighted, topk as int, rows, experts, cols, depth)
            } else {
                decode_plan(quant, input, weighted, topk as int, rows, experts, cols, depth)
            };
            PlanModel {
                steps: seq![output_alloc(rows, cols)] + rest.steps,
                result: rest.result,
            }
        },
    }
}

/// What is wrong with a request to [`moe_gemm_gguf`], which does not accept it then.
pub fn moe_gemm_gguf_fault(
    input: &TensorInfo,
    weights: &QTensorInfo,
    topk_weights: &Option<TensorInfo>,
    sorted_token_ids: &TensorInfo,
    experts_ids: &TensorInfo,
    topk: usize,
    is_prefill: bool,
) -> (r: Option<Fault>)
    ensures
        r == gguf_fault(
            *input,
            *weights,
            *topk_weights,
            *sorted_token_ids,
            *experts_ids,
            topk,
            is_prefill,
        ),
{
    let (input_rows, size_k): (usize, usize) = match dims2(Operand::Input, &input.dims) {
        Ok(d) => d,
        Err(_) => return None,
    };
    let size_m: usize = if topk_weights.is_none() {
        match input_rows.checked_mul(topk) {
            Some(size_m) => size_m,
            None => return Some(Fault::Overflow),
        }
    } else {
        input_rows
    };
    let (num_experts, size_n, size_k1): (usize, usize, usize) = match dims3(
        Operand::Weights,
        &weights.dims,
    ) {
        Ok(d) => d,
        Err(_) => return None,
    };
    if size_k != size_k1 {
        return Some(Fault::LastDimMismatch { input: size_k, weight: size_k1 });
    }
    if input.location != Location::Cuda {
        return None;
    }
    let quant: Quant = match Quant::of(weights.dtype) {
        Some(quant) => quant,
        None => return None,
    };
    if weights.location != Location::Cuda || check_optional_operand(
        Operand::TopkWeights,
        topk_weights,
        DType::F32,
    ).is_some() || check_operand(Operand::SortedTokenIds, sorted_token_ids, DType::U32).is_some()
        || check_operand(Operand::ExpertsIds, experts_ids, DType::U32).is_some() {
        return None;
    }
    if size_m.checked_mul(size_n).is_none() {
        return Some(Fault::Overflow);
    }
    if size_k % 8 != 0 {
        return Some(Fault::UnalignedRows);
    }
    if is_prefill {
        if !check_offsets_fit(size_m, num_experts) || size_n > usize::MAX - N_BLK {
            return Some(Fault::Overflow);
        }
        return None;
    }
    if check_operand(Operand::Input, input, DType::F32).is_some() {
        return None;
    }
    if size_k > usize::MAX - MATRIX_ROW_PADDING {
        return Some(Fault::Overflow);
    }
    if topk_weights.is_none() && topk == 0 {
        return Some(Fault::ZeroTopk);
    }
    if !check_decode_fits(quant, input_rows, size_n, size_k) {
        return Some(Fault::Overflow);
    }
    None
}

/// Whether the sizes of the decode launches fit in a `usize`.
fn check_decode_fits(quant: Quant, input_rows: usize, size_n: usize, size_k: usize) -> (r: bool)
    requires
        size_k + MATRIX_ROW_PADDING <= usize::MAX,
    ensures
        r == decode_fits(quant, input_rows as int, size_n as int, size_k as int),
{
    let kx_padded: usize = pad(size_k, MATRIX_ROW_PADDING);
    let row_blocks: usize = kx_padded / QK8_1;
    let blocks: usize = match input_rows.checked_mul(row_blocks) {
        Some(blocks) => blocks,
        None => {
            return false;
        },
    };
    if blocks.checked_mul(SIZEOF_BLOCK_Q8_1).is_none() {
        return false;
    }
    let weight_blocks: usize = size_k / quant.block_elems();
    let row_bytes: usize = match weight_blocks.checked_mul(quant.block_bytes()) {
        Some(row_bytes) => row_bytes,
        None => {
            return false;
        },
    };
    let block_bytes: usize = match row_bytes.checked_mul(WARPS_PER_BLOCK as usize) {
        Some(block_bytes) => block_bytes,
        None => {
            return false;
        },
    };
    kx_padded <= usize::MAX - CUDA_QUANTIZE_BLOCK_SIZE as usize && size_n <= usize::MAX
        - WARPS_PER_BLOCK as usize && block_bytes <= usize::MAX - DECODE_EXTRA_BYTES
}

/// Appends what is done for a prompt once the output is allocated.
fn plan_prefill(
    quant: Quant,
    dtype: DType,
    weighted: bool,
    topk: usize,
    size_m: usize,
    num_experts: usize,
    size_n: usize,
    size_k: usize,
    steps: &mut Vec<Step>,
) -> (r: Result<Output, MoeError>)
    requires
        prefill_fits(size_m as int, size_n as int, num_experts as int),
    ensures
        ({
            let model: PlanModel = prefill_plan(
                quant,
                dtype,
                weighted,
                topk as int,
                size_m as int,
                num_experts as int,
                size_n as int,
                size_k as int,
            );
            &&& steps_model(final(steps)@) == steps_model(old(steps)@) + model.steps
            &&& r == model.result
        }),
{
    alloc_expert_buffers(num_experts, steps);
    launch_expert_offsets(size_m, num_experts, steps);

    let grid_n: u32 = ceil_div(size_n, N_BLK) as u32;
    let qk: usize = quant.block_elems();
    let block_size_bytes: usize = quant.block_bytes();
    let a_sh_bytes: usize = M_BLK * qk * SIZEOF_HALF;
    let b_sh_bytes: usize = N_BLK * qk * SIZEOF_HALF;
    let b_quant_sh_bytes: usize = N_BLK * block_size_bytes;
    let c_sh_bytes: usize = M_BLK * N_BLK * SIZEOF_FLOAT;
    let mut smem_total: usize = a_sh_bytes + b_sh_bytes + b_quant_sh_bytes;
    let c_offset: usize = smem_total % 4;
    if c_offset != 0 {
        smem_total += 4 - c_offset;
    }
    smem_total += c_sh_bytes;
    assert(smem_total == prefill_shared_bytes(quant));

    let half: Half = match Half::of(dtype) {
        Some(half) => half,
        None => {
            assert(steps_model(steps@) =~= steps_model(old(steps)@) + expert_offsets_steps(
                size_m as int,
                num_experts as int,
            ));
            return Err(MoeError::UnsupportedPrefillDType);
        },
    };
    push_step(steps, Step::ConvertInput(half));
    let launch = Launch {
        kernel: Kernel::GgufPrefill { half, quant },
        config: LaunchConfig {
            grid_dim: (num_experts as u32, grid_n, 1),
            block_dim: (quant.prefill_threads(), WARPS_PER_BLOCK, 1),
            shared_mem_bytes: smem_total as u32,
        },
        args: vec![
            Arg::ConvertedInput,
            Arg::Weights,
            Arg::SortedTokenIds,
            Arg::Buffer(Buffer::ExpertOffsets),
            if weighted { Arg::TopkWeights } else { Arg::Null },
            Arg::Buffer(Buffer::Output),
            Arg::Int(num_experts as i32),
            Arg::Int(topk as i32),
            Arg::Int(size_m as i32),
            Arg::Int(size_n as i32),
            Arg::Int(size_k as i32),
            Arg::Int(quant.code()),
        ],
    };
    push_launch(steps, launch);
    assert(steps_model(steps@) =~= steps_model(old(steps)@) + prefill_plan(
        quant,
        dtype,
        weighted,
        topk as int,
        size_m as int,
        num_experts as int,
        size_n as int,
        size_k as int,
    ).steps);
    Ok(Output { rows: size_m, cols: size_n, dtype: DType::F32 })
}

/// Appends what is done for single tokens once the output is allocated.
fn plan_decode(
    quant: Quant,
    input: &TensorInfo,
    weighted: bool,
    topk: usize,
    size_m: usize,
    num_experts: usize,
    size_n: usize,
    size_k: usize,
    steps: &mut Vec<Step>,
) -> (r: Result<Output, MoeError>)
    requires
        input.dims@.len() == 2,
        size_m == output_rows(input.dims@[0] as int, weighted, topk as int),
        operand_error(Operand::Input, *input, DType::F32) is None ==> {
            &&& weighted || topk != 0
            &&& decode_fits(quant, input.dims@[0] as int, size_n as int, size_k as int)
        },
    ensures
        ({
            let model: PlanModel = decode_plan(
                quant,
                *input,
                weighted,
                topk as int,
                size_m as int,
                num_experts as int,
                size_n as int,
                size_k as int,
            );
            &&& steps_model(final(steps)@) == steps_model(old(steps)@) + model.steps
            &&& r == model.result
        }),
{
    if let Some(error) = check_operand(Operand::Input, input, DType::F32) {
        assert(steps_model(steps@) =~= steps_model(old(steps)@) + Seq::empty());
        return Err(error);
    }
    let ghost input_rows: int = input.dims@[0] as int;
    let kx_padded: usize = pad(size_k, MATRIX_ROW_PADDING);
    let m: usize = if weighted {
        size_m
    } else {
        proof {
            vstd::arithmetic::div_mod::lemma_div_by_multiple(input_rows, topk as int);
        }
        size_m / topk
    };
    assert(m == input_rows);

    proof {
        let blocks: int = m * (kx_padded / QK8_1);
        assert(0 <= blocks) by (nonlinear_arith)
            requires
                blocks == m * (kx_padded / QK8_1),
        ;
    }
    let y_size_in_bytes: usize = m * (kx_padded / QK8_1) * SIZEOF_BLOCK_Q8_1;
    push_step(
        steps,
        Step::Alloc(
            Alloc {
                buffer: Buffer::QuantizedInput,
                elem: DType::U8,
                len: y_size_in_bytes,
                zeroed: false,
            },
        ),
    );

    let num_blocks: u32 = ceil_div(kx_padded, CUDA_QUANTIZE_BLOCK_SIZE as usize) as u32;
    let quantize = Launch {
        kernel: Kernel::QuantizeQ8_1,
        config: LaunchConfig {
            grid_dim: (num_blocks, m as u32, 1),
            block_dim: (CUDA_QUANTIZE_BLOCK_SIZE, 1, 1),
            shared_mem_bytes: 0,
        },
        args: vec![
            Arg::Input,
            Arg::Buffer(Buffer::QuantizedInput),
            Arg::Int(size_k as i32),
            Arg::Int(kx_padded as i32),
        ],
    };
    push_launch(steps, quantize);

    let n_wraps: u32 = WARPS_PER_BLOCK;
    let launch = Launch {
        kernel: Kernel::Gguf { quant },
        config: LaunchConfig {
            grid_dim: (ceil_div(size_n, n_wraps as usize) as u32, size_m as u32, 1),
            block_dim: (WARP_SIZE, n_wraps, 1),
            shared_mem_bytes: (size_k / quant.block_elems() * quant.block_bytes()
                * n_wraps as usize + DECODE_EXTRA_BYTES) as u32,
        },
        args: vec![
            Arg::Weights,
            Arg::Buffer(Buffer::QuantizedInput),
            Arg::SortedTokenIds,
            Arg::ExpertsIds,
            if weighted { Arg::TopkWeights } else { Arg::Null },
            Arg::Buffer(Buffer::Output),
            Arg::Int(num_experts as i32),
            Arg::Int(topk as i32),
            Arg::Int(size_m as i32),
            Arg::Int(size_n as i32),
            Arg::Int(size_k as i32),
            Arg::Int(kx_padded as i32),
        ],
    };
    push_launch(steps, launch);
    assert(steps_model(steps@) =~= steps_model(old(steps)@) + decode_plan(
        quant,
        *input,
        weighted,
        topk as int,
        size_m as int,
        num_experts as int,
        size_n as int,
        size_k as int,
    ).steps);
    Ok(Output { rows: size_m, cols: size_n, dtype: DType::F32 })
}

/// The product of each row of `input` with the quantized weights of the experts that the row is
/// routed to.
///
/// A prompt (`is_prefill`) is computed in the 16-bit type `dtype`; single tokens are quantized
/// first. The output holds 32-bit numbers either way.
#[verifier::rlimit(40)]
pub fn moe_gemm_gguf(
    input: &TensorInfo,
    weights: &QTensorInfo,
    topk_weights: &Option<TensorInfo>,
    sorted_token_ids: &TensorInfo,
    experts_ids: &TensorInfo,
    topk: usize,
    is_prefill: bool,
    dtype: DType,
) -> (plan: Plan)
    requires
        gguf_fault(
            *input,
            *weights,
            *topk_weights,
            *sorted_token_ids,
            *experts_ids,
            topk,
            is_prefill,
        ) is None,
    ensures
        plan@ == gguf_plan(
            *input,
            *weights,
            *topk_weights,
            *sorted_token_ids,
            *experts_ids,
            topk,
            is_prefill,
            dtype,
        ),
{
    let (mut size_m, size_k): (usize, usize) = match dims2(Operand::Input, &input.dims) {
        Ok(d) => d,
        Err(error) => return refuse(error),
    };
    if topk_weights.is_none() {
        size_m = size_m * topk;
    }
    let (num_experts, size_n, _): (usize, usize, usize) = match dims3(
        Operand::Weights,
        &weights.dims,
    ) {
        Ok(d) => d,
        Err(error) => return refuse(error),
    };
    if input.location != Location::Cuda {
        return refuse(MoeError::NotACudaDevice(input.location));
    }
    let quant: Quant = match Quant::of(weights.dtype) {
        Some(quant) => quant,
        None => return refuse(MoeError::UnsupportedWeights),
    };
    if weights.location != Location::Cuda {
        return refuse(MoeError::NoDevicePointer);
    }
    if let Some(error) = check_optional_operand(Operand::TopkWeights, topk_weights, DType::F32) {
        return refuse(error);
    }
    if let Some(error) = check_operand(Operand::SortedTokenIds, sorted_token_ids, DType::U32) {
        return refuse(error);
    }
    if let Some(error) = check_operand(Operand::ExpertsIds, experts_ids, DType::U32) {
        return refuse(error);
    }
    let weighted: bool = topk_weights.is_some();

    let mut steps: Vec<Step> = Vec::new();
    push_step(
        &mut steps,
        Step::Alloc(
            Alloc {
                buffer: Buffer::Output,
                elem: DType::F32,
                len: size_m * size_n,
                zeroed: false,
            },
        ),
    );
    let result: Result<Output, MoeError> = if is_prefill {
        plan_prefill(
            quant,
            dtype,
            weighted,
            topk,
            size_m,
            num_experts,
            size_n,
            size_k,
            &mut steps,
        )
    } else {
        plan_decode(
            quant,
            input,
            weighted,
            topk,
            size_m,
            num_experts,
            size_n,
            size_k,
            &mut steps,
        )
    };
    let plan = Plan { steps, result };
    assert(plan@ =~= gguf_plan(
        *input,
        *weights,
        *topk_weights,
        *sorted_token_ids,
        *experts_ids,
        topk,
        is_prefill,
        dtype,
    ));
    plan
}

} // verus!
