//! The product with 16-bit weights.
use crate::arith::{ceil_div, div_up, padded};
use crate::dtype::{half_of, DType, Half};
use crate::error::{EntryPoint, MoeError};
use crate::fault::Fault;
use crate::offsets::{
    alloc_expert_buffers, check_offsets_fit, expert_offsets_steps, launch_expert_offsets,
    offsets_fit,
};
use crate::plan::{
    load_and_launch, push_launch, push_step, refusal, refuse, Alloc, Arg, Buffer, Kernel, Launch,
    LaunchConfig, Output, Plan, PlanModel, Step, StepModel,
};
use crate::tensor::{
    check_operand, check_optional_operand, dims2, dims3, first_error, operand_error,
    optional_operand_error, rank_error, Location, Operand, TensorInfo,
};
use vstd::prelude::*;

verus! {

/// The rows of a tile of the output.
pub const M_BLK: usize = 32;

/// The columns of a tile of the output.
pub const N_BLK: usize = 32;

/// The depth of the tiles of the operands.
pub const K_BLK: usize = 16;

/// The threads of a block.
pub const BLOCK_THREADS: u32 = 128;

/// The bytes of a 16-bit element.
pub const SIZEOF_HALF: usize = 2;

/// The bytes of a 32-bit element.
pub const SIZEOF_FLOAT: usize = 4;

/// The rows of the output: those of the input when they come with routing weights, and `topk` for
/// each of them otherwise.
pub open spec fn output_rows(input_rows: int, weighted: bool, topk: int) -> int {
    if weighted {
        input_rows
    } else {
        input_rows * topk
    }
}

/// The argument that stands for the routing weights, or for their absence.
pub open spec fn topk_weights_arg(weighted: bool) -> Arg {
    if weighted {
        Arg::TopkWeights
    } else {
        Arg::Null
    }
}

/// The shared memory of a block: a tile of the input, a tile of the weights, and a tile of sums,
/// which starts at a multiple of 16 bytes.
pub open spec fn wmma_shared_bytes() -> int {
    let operands: int = M_BLK * K_BLK * SIZEOF_HALF + N_BLK * K_BLK * SIZEOF_HALF;
    padded(operands, 16) + M_BLK * N_BLK * SIZEOF_FLOAT
}

/// The first reason, in the order in which the operands are looked at, for which the product is
/// refused.
pub open spec fn gemm_error(
    input: TensorInfo,
    weights: TensorInfo,
    topk_weights: Option<TensorInfo>,
    sorted_token_ids: TensorInfo,
    experts_ids: TensorInfo,
) -> Option<MoeError> {
    if half_of(input.dtype) is None {
        Some(MoeError::UnsupportedInputDType)
    } else if input.dims@.len() != 2 {
        Some(rank_error(Operand::Input, 2, input.dims@))
    } else if weights.dims@.len() != 3 {
        Some(rank_error(Operand::Weights, 3, weights.dims@))
    } else if input.location != Location::Cuda {
        Some(MoeError::NotACudaDevice(input.location))
    } else {
        first_error(
            operand_error(Operand::Weights, weights, input.dtype),
            first_error(
                operand_error(Operand::SortedTokenIds, sorted_token_ids, DType::U32),
                first_error(
                    operand_error(Operand::ExpertsIds, experts_ids, DType::U32),
                    optional_operand_error(Operand::TopkWeights, topk_weights, DType::F32),
                ),
            ),
        )
    }
}

/// Whether the sizes of a product with `rows` rows and `cols` columns fit in a `usize`.
pub open spec fn gemm_fits(rows: int, cols: int, experts: int) -> bool {
    &&& rows * cols <= usize::MAX
    &&& offsets_fit(rows, experts)
    &&& cols + N_BLK <= usize::MAX
}

/// What is wrong with the request, if something is that is not an error.
pub open spec fn gemm_fault(
    input: TensorInfo,
    weights: TensorInfo,
    topk_weights: Option<TensorInfo>,
    sorted_token_ids: TensorInfo,
    experts_ids: TensorInfo,
    topk: usize,
) -> Option<Fault> {
    let rows: int = output_rows(input.dims@[0] as int, topk_weights is Some, topk as int);
    if half_of(input.dtype) is None || input.dims@.len() != 2 {
        None
    } else if rows > usize::MAX {
        Some(Fault::Overflow)
    } else if weights.dims@.len() != 3 {
        None
    } else if input.dims@[1] != weights.dims@[2] {
        Some(Fault::LastDimMismatch { input: input.dims@[1], weight: weights.dims@[2] })
    } else if gemm_error(input, weights, topk_weights, sorted_token_ids, experts_ids) is Some {
        None
    } else if !gemm_fits(rows, weights.dims@[1] as int, weights.dims@[0] as int) {
        Some(Fault::Overflow)
    } else {
        None
    }
}

/// The launch that computes the product, one row of blocks to an expert.
pub open spec fn gemm_launch(
    half: Half,
    is_prefill: bool,
    weighted: bool,
    topk: int,
    rows: int,
    experts: int,
    cols: int,
    depth: int,
) -> StepModel {
    StepModel::Launch {
        kernel: Kernel::Wmma { half, is_prefill },
        config: LaunchConfig {
            grid_dim: (experts as u32, div_up(cols, N_BLK as int) as u32, 1),
            block_dim: (BLOCK_THREADS, 1, 1),
            shared_mem_bytes: wmma_shared_bytes() as u32,
        },
        args: seq![
            Arg::Input,
            Arg::Weights,
            Arg::SortedTokenIds,
            Arg::Buffer(Buffer::ExpertOffsets),
            topk_weights_arg(weighted),
            Arg::Buffer(Buffer::Output),
            Arg::Int(experts as i32),
            Arg::Int(topk as i32),
            Arg::Int(rows as i32),
            Arg::Int(cols as i32),
            Arg::Int(depth as i32),
        ],
    }
}

/// The plan of the product.
pub open spec fn gemm_plan(
    input: TensorInfo,
    weights: TensorInfo,
    topk_weights: Option<TensorInfo>,
    sorted_token_ids: TensorInfo,
    experts_ids: TensorInfo,
    topk: usize,
    is_prefill: bool,
) -> PlanModel {
    match gemm_error(input, weights, topk_weights, sorted_token_ids, experts_ids) {
        Some(error) => refusal(error),
        None => {
            let weighted: bool = topk_weights is Some;
            let rows: int = output_rows(input.dims@[0] as int, weighted, topk as int);
            let experts: int = weights.dims@[0] as int;
            let cols: int = weights.dims@[1] as int;
            let depth: int = weights.dims@[2] as int;
            PlanModel {
                steps: seq![
                    StepModel::Alloc(
                        Alloc {
                            buffer: Buffer::Output,
                            elem: input.dtype,
                            len: (rows * cols) as usize,
                            zeroed: false,
                        },
                    ),
                ] + expert_offsets_steps(rows, experts) + load_and_launch(
                    gemm_launch(
                        half_of(input.dtype)->0,
                        is_prefill,
                        weighted,
                        topk as int,
                        rows,
                        experts,
                        cols,
                        depth,
                    ),
                ),
                result: Ok(
                    Output { rows: rows as usize, cols: cols as usize, dtype: input.dtype },
                ),
            }
        },
    }
}

/// The plan of either product where CUDA is not available.
pub fn without_cuda(entry: EntryPoint) -> (plan: Plan)
    ensures
        plan@ == refusal(MoeError::CudaFeatureRequired(entry)),
{
    refuse(MoeError::CudaFeatureRequired(entry))
}

/// What is wrong with a request to [`moe_gemm`], which does not accept it then.
pub fn moe_gemm_fault(
    input: &TensorInfo,
    weights: &TensorInfo,
    topk_weights: &Option<TensorInfo>,
    sorted_token_ids: &TensorInfo,
    experts_ids: &TensorInfo,
    topk: usize,
) -> (r: Option<Fault>)
    ensures
        r == gemm_fault(
            *input,
            *weights,
            *topk_weights,
            *sorted_token_ids,
            *experts_ids,
            topk,
        ),
{
    if Half::of(input.dtype).is_none() {
        return None;
    }
    let (input_rows, size_k1): (usize, usize) = match dims2(Operand::Input, &input.dims) {
        Ok(d) => d,
        Err(_) => return None,
    };
    let size_m: usize = if topk_weights.is_none() {
        match input_rows.checked_mul(topk) {
            Some(size_m) => size_m,
            None => return Some(Fault::Overflow),
        }
    } else {
        input_rows
    };
    let (num_experts, size_n, size_k): (usize, usize, usize) = match dims3(
        Operand::Weights,
        &weights.dims,
    ) {
        Ok(d) => d,
        Err(_) => return None,
    };
    if size_k != size_k1 {
        return Some(Fault::LastDimMismatch { input: size_k1, weight: size_k });
    }
    if input.location != Location::Cuda || check_operand(
        Operand::Weights,
        weights,
        input.dtype,
    ).is_some() || check_operand(Operand::SortedTokenIds, sorted_token_ids, DType::U32).is_some()
        || check_operand(Operand::ExpertsIds, experts_ids, DType::U32).is_some()
        || check_optional_operand(Operand::TopkWeights, topk_weights, DType::F32).is_some() {
        return None;
    }
    if size_m.checked_mul(size_n).is_none() || !check_offsets_fit(size_m, num_experts) || size_n
        > usize::MAX - N_BLK {
        return Some(Fault::Overflow);
    }
    None
}

/// The product of each row of `input` with the weights of the experts that the row is routed to.
///
/// `input` has a row to each token, `weights` a matrix to each expert. With `topk_weights` the
/// rows are already one to a token and an expert; without, each is used `topk` times.
pub fn moe_gemm(
    input: &TensorInfo,
    weights: &TensorInfo,
    topk_weights: &Option<TensorInfo>,
    sorted_token_ids: &TensorInfo,
    experts_ids: &TensorInfo,
    topk: usize,
    is_prefill: bool,
) -> (plan: Plan)
    requires
        gemm_fault(
            *input,
            *weights,
            *topk_weights,
            *sorted_token_ids,
            *experts_ids,
            topk,
        ) is None,
    ensures
        plan@ == gemm_plan(
            *input,
            *weights,
            *topk_weights,
            *sorted_token_ids,
            *experts_ids,
            topk,
            is_prefill,
        ),
{
    let half: Half = match Half::of(input.dtype) {
        Some(half) => half,
        None => return refuse(MoeError::UnsupportedInputDType),
    };
    let (mut size_m, size_k1): (usize, usize) = match dims2(Operand::Input, &input.dims) {
        Ok(d) => d,
        Err(error) => return refuse(error),
    };
    if topk_weights.is_none() {
        size_m = size_m * topk;
    }
    let (num_experts, size_n, size_k): (usize, usize, usize) = match dims3(
        Operand::Weights,
        &weights.dims,
    ) {
        Ok(d) => d,
        Err(error) => return refuse(error),
    };
    if input.location != Location::Cuda {
        return refuse(MoeError::NotACudaDevice(input.location));
    }
    if let Some(error) = check_operand(Operand::Weights, weights, half.dtype()) {
        return refuse(error);
    }
    if let Some(error) = check_operand(Operand::SortedTokenIds, sorted_token_ids, DType::U32) {
        return refuse(error);
    }
    if let Some(error) = check_operand(Operand::ExpertsIds, experts_ids, DType::U32) {
        return refuse(error);
    }
    if let Some(error) = check_optional_operand(Operand::TopkWeights, topk_weights, DType::F32) {
        return refuse(error);
    }
    let topk_weights_arg: Arg = if topk_weights.is_some() {
        Arg::TopkWeights
    } else {
        Arg::Null
    };

    let mut steps: Vec<Step> = Vec::new();
    push_step(
        &mut steps,
        Step::Alloc(
            Alloc {
                buffer: Buffer::Output,
                elem: half.dtype(),
                len: size_m * size_n,
                zeroed: false,
            },
        ),
    );
    alloc_expert_buffers(num_experts, &mut steps);
    launch_expert_offsets(size_m, num_experts, &mut steps);

    let grid_n: u32 = ceil_div(size_n, N_BLK) as u32;
    let a_sh_bytes: usize = M_BLK * K_BLK * SIZEOF_HALF;
    let b_sh_bytes: usize = N_BLK * K_BLK * SIZEOF_HALF;
    let c_sh_bytes: usize = M_BLK * N_BLK * SIZEOF_FLOAT;
    let ab_bytes: usize = a_sh_bytes + b_sh_bytes;
    let pad_amount: usize = (16 - (ab_bytes % 16)) % 16;
    let smem_bytes: u32 = (ab_bytes + pad_amount + c_sh_bytes) as u32;
    let launch = Launch {
        kernel: Kernel::Wmma { half, is_prefill },
        config: LaunchConfig {
            grid_dim: (num_experts as u32, grid_n, 1),
            block_dim: (BLOCK_THREADS, 1, 1),
            shared_mem_bytes: smem_bytes,
        },
        args: vec![
            Arg::Input,
            Arg::Weights,
            Arg::SortedTokenIds,
            Arg::Buffer(Buffer::ExpertOffsets),
            topk_weights_arg,
            Arg::Buffer(Buffer::Output),
            Arg::Int(num_experts as i32),
            Arg::Int(topk as i32),
            Arg::Int(size_m as i32),
            Arg::Int(size_n as i32),
            Arg::Int(size_k as i32),
        ],
    };
    push_launch(&mut steps, launch);

    let plan = Plan {
        steps,
        result: Ok(Output { rows: size_m, cols: size_n, dtype: half.dtype() }),
    };
    assert(plan@ =~= gemm_plan(
        *input,
        *weights,
        *topk_weights,
        *sorted_token_ids,
        *experts_ids,
        topk,
        is_prefill,
    ));
    plan
}

} // verus!
