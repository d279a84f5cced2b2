//! What holds of every plan.
use crate::arith::{div_up, lemma_div_up_bounds, lemma_padded_bounds, padded};
use crate::dtype::{half_of, DType, Half, Quant};
use crate::gemm::{
    gemm_error, gemm_fault, gemm_launch, gemm_plan, output_rows, wmma_shared_bytes, K_BLK, M_BLK,
    N_BLK, SIZEOF_FLOAT, SIZEOF_HALF,
};
use crate::gguf::{
    decode_launch, gguf_error, gguf_fault, gguf_plan, prefill_launch, prefill_shared_bytes,
    quantize_launch, quantized_bytes, CUDA_QUANTIZE_BLOCK_SIZE, MATRIX_ROW_PADDING, QK8_1,
    SIZEOF_BLOCK_Q8_1, WARPS_PER_BLOCK,
};
use crate::offsets::{
    count_launch, counts_alloc, expert_offsets_steps, offsets_alloc, scan_launch, scan_threads,
    COUNT_THREADS,
};
use crate::plan::{Arg, Buffer, LaunchConfig, PlanModel, StepModel};
use crate::tensor::{QTensorInfo, TensorInfo};
use vstd::prelude::*;

verus! {

/// Whether `step` allocates `buffer`.
pub open spec fn allocates(step: StepModel, buffer: Buffer) -> bool {
    step matches StepModel::Alloc(alloc) && alloc.buffer == buffer
}

/// Whether `step` is a launch that is handed `arg`.
pub open spec fn passes(step: StepModel, arg: Arg) -> bool {
    step matches StepModel::Launch { args, .. } && args.contains(arg)
}

/// Whether each buffer that a launch is handed was allocated by an earlier step.
pub open spec fn allocated_before_use(steps: Seq<StepModel>) -> bool {
    forall|i: int, buffer: Buffer|
        0 <= i < steps.len() && #[trigger] passes(steps[i], Arg::Buffer(buffer)) ==> exists|j: int|
            0 <= j < i && #[trigger] allocates(steps[j], buffer)
}

/// Whether each launch that is handed the converted input comes after the conversion.
pub open spec fn converted_before_use(steps: Seq<StepModel>) -> bool {
    forall|i: int|
        0 <= i < steps.len() && #[trigger] passes(steps[i], Arg::ConvertedInput) ==> exists|j: int|
            0 <= j < i && #[trigger] steps[j] is ConvertInput
}

/// Whether no buffer is allocated twice.
pub open spec fn allocated_once(steps: Seq<StepModel>) -> bool {
    forall|i: int, j: int, buffer: Buffer|
        0 <= i < steps.len() && 0 <= j < steps.len() && #[trigger] allocates(steps[i], buffer)
            && #[trigger] allocates(steps[j], buffer) ==> i == j
}

/// Whether the counts, which the kernel only adds to, start at zero.
pub open spec fn counts_start_at_zero(steps: Seq<StepModel>) -> bool {
    forall|i: int|
        0 <= i < steps.len() && #[trigger] allocates(steps[i], Buffer::ExpertCounts)
            ==> steps[i]->Alloc_0.zeroed
}

/// Whether each launch comes right after the load of its kernel.
pub open spec fn loaded_before_launch(steps: Seq<StepModel>) -> bool {
    forall|i: int|
        0 <= i < steps.len() && #[trigger] steps[i] is Launch ==> i > 0 && steps[i - 1]
            == StepModel::Load(steps[i]->kernel)
}

/// Whether the steps can be carried out in their order.
pub open spec fn in_order(steps: Seq<StepModel>) -> bool {
    &&& allocated_before_use(steps)
    &&& converted_before_use(steps)
    &&& allocated_once(steps)
    &&& loaded_before_launch(steps)
    &&& counts_start_at_zero(steps)
}

/// Every launch of the product with 16-bit weights finds its kernel loaded, its buffers
/// allocated, once each, and the counts cleared.
pub proof fn law_gemm_in_order(
    input: TensorInfo,
    weights: TensorInfo,
    topk_weights: Option<TensorInfo>,
    sorted_token_ids: TensorInfo,
    experts_ids: TensorInfo,
    topk: usize,
    is_prefill: bool,
)
    ensures
        in_order(
            gemm_plan(
                input,
                weights,
                topk_weights,
                sorted_token_ids,
                experts_ids,
                topk,
                is_prefill,
            ).steps,
        ),
{
    let steps: Seq<StepModel> = gemm_plan(
        input,
        weights,
        topk_weights,
        sorted_token_ids,
        experts_ids,
        topk,
        is_prefill,
    ).steps;
    if steps.len() > 0 {
        assert(allocates(steps[0], Buffer::Output));
        assert(allocates(steps[1], Buffer::ExpertCounts));
        assert(allocates(steps[2], Buffer::ExpertOffsets));
        assert(steps.len() == 9);
    }
}

/// Every launch of the product with quantized weights finds its kernel loaded, its buffers
/// allocated, once each, the counts cleared and the input converted.
pub proof fn law_gguf_in_order(
    input: TensorInfo,
    weights: QTensorInfo,
    topk_weights: Option<TensorInfo>,
    sorted_token_ids: TensorInfo,
    experts_ids: TensorInfo,
    topk: usize,
    is_prefill: bool,
    dtype: DType,
)
    ensures
        in_order(
            gguf_plan(
                input,
                weights,
                topk_weights,
                sorted_token_ids,
                experts_ids,
                topk,
                is_prefill,
                dtype,
            ).steps,
        ),
{
    let steps: Seq<StepModel> = gguf_plan(
        input,
        weights,
        topk_weights,
        sorted_token_ids,
        experts_ids,
        topk,
        is_prefill,
        dtype,
    ).steps;
    if steps.len() > 0 {
        assert(allocates(steps[0], Buffer::Output));
        if is_prefill {
            assert(allocates(steps[1], Buffer::ExpertCounts));
            assert(allocates(steps[2], Buffer::ExpertOffsets));
            if half_of(dtype) is Some {
                assert(steps[7] is ConvertInput);
            }
        } else if steps.len() > 1 {
            assert(allocates(steps[1], Buffer::QuantizedInput));
        }
    }
}

/// Whether a plan that succeeds starts by allocating the matrix that it hands back, element for
/// element, and ends with the one launch that is handed it; and whether a plan that fails hands
/// it to none.
pub open spec fn output_is_computed(plan: PlanModel) -> bool {
    match plan.result {
        Ok(output) => {
            &&& plan.steps.len() > 0
            &&& plan.steps[0] matches StepModel::Alloc(alloc)
            &&& alloc.buffer == Buffer::Output
            &&& alloc.elem == output.dtype
            &&& alloc.len == output.rows * output.cols
            &&& forall|i: int|
                0 <= i < plan.steps.len() ==> (#[trigger] passes(
                    plan.steps[i],
                    Arg::Buffer(Buffer::Output),
                ) <==> i == plan.steps.len() - 1)
        },
        Err(_) => forall|i: int|
            0 <= i < plan.steps.len() ==> !#[trigger] passes(
                plan.steps[i],
                Arg::Buffer(Buffer::Output),
            ),
    }
}

/// The product with 16-bit weights computes the matrix that it hands back, of the type of the
/// input, and does nothing at all when it fails.
pub proof fn law_gemm_output(
    input: TensorInfo,
    weights: TensorInfo,
    topk_weights: Option<TensorInfo>,
    sorted_token_ids: TensorInfo,
    experts_ids: TensorInfo,
    topk: usize,
    is_prefill: bool,
)
    requires
        gemm_fault(input, weights, topk_weights, sorted_token_ids, experts_ids, topk) is None,
    ensures
        ({
            let plan: PlanModel = gemm_plan(
                input,
                weights,
                topk_weights,
                sorted_token_ids,
                experts_ids,
                topk,
                is_prefill,
            );
            &&& output_is_computed(plan)
            &&& plan.result matches Ok(output) ==> output.dtype == input.dtype && output.rows
                == output_rows(input.dims@[0] as int, topk_weights is Some, topk as int)
                && output.cols == weights.dims@[1]
            &&& plan.result is Err ==> plan.steps.len() == 0
        }),
{
    let plan: PlanModel = gemm_plan(
        input,
        weights,
        topk_weights,
        sorted_token_ids,
        experts_ids,
        topk,
        is_prefill,
    );
    if plan.result is Ok {
        lemma_product_nonnegative(input.dims@[0] as int, topk as int);
        lemma_product_nonnegative(
            output_rows(input.dims@[0] as int, topk_weights is Some, topk as int),
            weights.dims@[1] as int,
        );
        assert(plan.steps.len() == 9);
        assert(plan.steps[8]->args[5] == Arg::Buffer(Buffer::Output));
        assert(passes(plan.steps[8], Arg::Buffer(Buffer::Output)));
    }
}

proof fn lemma_product_nonnegative(a: int, b: int)
    requires
        a >= 0,
        b >= 0,
    ensures
        a * b >= 0,
{
    assert(a * b >= 0) by (nonlinear_arith)
        requires
            a >= 0,
            b >= 0,
    ;
}

/// The product with quantized weights computes the matrix of 32-bit numbers that it hands back,
/// and computes none when it fails.
pub proof fn law_gguf_output(
    input: TensorInfo,
    weights: QTensorInfo,
    topk_weights: Option<TensorInfo>,
    sorted_token_ids: TensorInfo,
    experts_ids: TensorInfo,
    topk: usize,
    is_prefill: bool,
    dtype: DType,
)
    requires
        gguf_fault(
            input,
            weights,
            topk_weights,
            sorted_token_ids,
            experts_ids,
            topk,
            is_prefill,
        ) is None,
    ensures
        ({
            let plan: PlanModel = gguf_plan(
                input,
                weights,
                topk_weights,
                sorted_token_ids,
                experts_ids,
                topk,
                is_prefill,
                dtype,
            );
            &&& output_is_computed(plan)
            &&& plan.result matches Ok(output) ==> output.dtype == DType::F32 && output.rows
                == output_rows(input.dims@[0] as int, topk_weights is Some, topk as int)
                && output.cols == weights.dims@[1]
        }),
{
    let plan: PlanModel = gguf_plan(
        input,
        weights,
        topk_weights,
        sorted_token_ids,
        experts_ids,
        topk,
        is_prefill,
        dtype,
    );
    if plan.result is Ok {
        let last: int = plan.steps.len() - 1;
        lemma_product_nonnegative(input.dims@[0] as int, topk as int);
        lemma_product_nonnegative(
            output_rows(input.dims@[0] as int, topk_weights is Some, topk as int),
            weights.dims@[1] as int,
        );
        assert(plan.steps[last]->args[5] == Arg::Buffer(Buffer::Output));
        assert(passes(plan.steps[last], Arg::Buffer(Buffer::Output)));
    }
}

/// Whether the input is a prompt decides nothing about the product with 16-bit weights but the
/// kernel that is loaded and launched last.
pub proof fn law_gemm_prefill_picks_the_kernel(
    input: TensorInfo,
    weights: TensorInfo,
    topk_weights: Option<TensorInfo>,
    sorted_token_ids: TensorInfo,
    experts_ids: TensorInfo,
    topk: usize,
)
    ensures
        ({
            let prompt: PlanModel = gemm_plan(
                input,
                weights,
                topk_weights,
                sorted_token_ids,
                experts_ids,
                topk,
                true,
            );
            let tokens: PlanModel = gemm_plan(
                input,
                weights,
                topk_weights,
                sorted_token_ids,
                experts_ids,
                topk,
                false,
            );
            &&& prompt.result == tokens.result
            &&& prompt.steps.len() == tokens.steps.len()
            &&& prompt.steps.len() > 0 ==> {
                &&& prompt.steps.take(prompt.steps.len() - 2) == tokens.steps.take(
                    tokens.steps.len() - 2,
                )
                &&& prompt.steps.last()->config == tokens.steps.last()->config
                &&& prompt.steps.last()->args == tokens.steps.last()->args
            }
        }),
{
    let prompt: PlanModel = gemm_plan(
        input,
        weights,
        topk_weights,
        sorted_token_ids,
        experts_ids,
        topk,
        true,
    );
    let tokens: PlanModel = gemm_plan(
        input,
        weights,
        topk_weights,
        sorted_token_ids,
        experts_ids,
        topk,
        false,
    );
    if prompt.steps.len() > 0 {
        assert(prompt.steps.take(prompt.steps.len() - 2) =~= tokens.steps.take(
            tokens.steps.len() - 2,
        ));
    }
}

/// For single tokens the product with quantized weights does not depend on the type that a prompt
/// would be computed in.
pub proof fn law_gguf_decode_ignores_dtype(
    input: TensorInfo,
    weights: QTensorInfo,
    topk_weights: Option<TensorInfo>,
    sorted_token_ids: TensorInfo,
    experts_ids: TensorInfo,
    topk: usize,
    dtype: DType,
    other: DType,
)
    ensures
        gguf_plan(
            input,
            weights,
            topk_weights,
            sorted_token_ids,
            experts_ids,
            topk,
            false,
            dtype,
        ) == gguf_plan(
            input,
            weights,
            topk_weights,
            sorted_token_ids,
            experts_ids,
            topk,
            false,
            other,
        ),
{
}

/// For a prompt the product with quantized weights does not depend on the type of the input, which
/// it converts.
pub proof fn law_gguf_prefill_ignores_input_dtype(
    input: TensorInfo,
    other: TensorInfo,
    weights: QTensorInfo,
    topk_weights: Option<TensorInfo>,
    sorted_token_ids: TensorInfo,
    experts_ids: TensorInfo,
    topk: usize,
    dtype: DType,
)
    requires
        other.dims == input.dims,
        other.location == input.location,
    ensures
        gguf_plan(
            input,
            weights,
            topk_weights,
            sorted_token_ids,
            experts_ids,
            topk,
            true,
            dtype,
        ) == gguf_plan(
            other,
            weights,
            topk_weights,
            sorted_token_ids,
            experts_ids,
            topk,
            true,
            dtype,
        ),
{
}

/// Both products sort the rows out among the experts by the same steps, and add the counts up in a
/// single block.
pub proof fn law_products_share_expert_offsets(
    input: TensorInfo,
    weights: TensorInfo,
    quantized: QTensorInfo,
    topk_weights: Option<TensorInfo>,
    sorted_token_ids: TensorInfo,
    experts_ids: TensorInfo,
    topk: usize,
    is_prefill: bool,
    dtype: DType,
)
    requires
        weights.dims@ == quantized.dims@,
        gemm_error(input, weights, topk_weights, sorted_token_ids, experts_ids) is None,
        gguf_error(input, quantized, topk_weights, sorted_token_ids, experts_ids) is None,
    ensures
        ({
            let offsets: Seq<StepModel> = gemm_plan(
                input,
                weights,
                topk_weights,
                sorted_token_ids,
                experts_ids,
                topk,
                is_prefill,
            ).steps.subrange(1, 7);
            &&& offsets == gguf_plan(
                input,
                quantized,
                topk_weights,
                sorted_token_ids,
                experts_ids,
                topk,
                true,
                dtype,
            ).steps.subrange(1, 7)
            &&& offsets[5]->config.grid_dim == (1u32, 1u32, 1u32)
        }),
{
    let rows: int = output_rows(input.dims@[0] as int, topk_weights is Some, topk as int);
    let steps: Seq<StepModel> = expert_offsets_steps(rows, weights.dims@[0] as int);
    assert(gemm_plan(
        input,
        weights,
        topk_weights,
        sorted_token_ids,
        experts_ids,
        topk,
        is_prefill,
    ).steps.subrange(1, 7) =~= steps);
    assert(gguf_plan(
        input,
        quantized,
        topk_weights,
        sorted_token_ids,
        experts_ids,
        topk,
        true,
        dtype,
    ).steps.subrange(1, 7) =~= steps);
}

/// The threads that count tokens are one to a row, rounded up to a whole block, as long as their
/// blocks can be numbered.
pub proof fn law_count_covers_rows(rows: int)
    requires
        rows >= 0,
        div_up(rows, COUNT_THREADS as int) <= u32::MAX,
    ensures
        ({
            let config: LaunchConfig = count_launch(rows)->config;
            rows <= config.grid_dim.0 * config.block_dim.0 < rows + COUNT_THREADS
        }),
{
    lemma_div_up_bounds(rows, COUNT_THREADS as int);
}

/// The block that adds the counts up has a thread and four bytes of shared memory to each expert,
/// and no less than a warp, as long as the sizes can be passed.
pub proof fn law_scan_covers_experts(experts: int)
    requires
        experts >= 0,
        scan_threads(experts) * 4 <= u32::MAX,
    ensures
        ({
            let config: LaunchConfig = scan_launch(experts)->config;
            &&& config.grid_dim == (1u32, 1u32, 1u32)
            &&& config.block_dim.0 >= experts
            &&& config.block_dim.0 >= 32
            &&& config.shared_mem_bytes == 4 * config.block_dim.0
            &&& counts_alloc(experts).len == experts
            &&& offsets_alloc(experts).len == experts + 1
        }),
{
}

/// The launch of the product with 16-bit weights has a row of blocks to each expert, with as many
/// tiles as the columns take and no more.
pub proof fn law_gemm_covers_columns(
    half: Half,
    is_prefill: bool,
    weighted: bool,
    topk: int,
    rows: int,
    experts: int,
    cols: int,
    depth: int,
)
    requires
        0 <= experts <= u32::MAX,
        cols >= 0,
        div_up(cols, N_BLK as int) <= u32::MAX,
    ensures
        ({
            let config: LaunchConfig = gemm_launch(
                half,
                is_prefill,
                weighted,
                topk,
                rows,
                experts,
                cols,
                depth,
            )->config;
            &&& config.grid_dim.0 == experts
            &&& cols <= config.grid_dim.1 * N_BLK < cols + N_BLK
        }),
{
    lemma_div_up_bounds(cols, N_BLK as int);
}

/// The prefill launch of the product with quantized weights has a row of blocks to each expert,
/// with as many tiles as the columns take and no more.
pub proof fn law_prefill_covers_columns(
    half: Half,
    quant: Quant,
    weighted: bool,
    topk: int,
    rows: int,
    experts: int,
    cols: int,
    depth: int,
)
    requires
        0 <= experts <= u32::MAX,
        cols >= 0,
        div_up(cols, N_BLK as int) <= u32::MAX,
    ensures
        ({
            let config: LaunchConfig = prefill_launch(
                half,
                quant,
                weighted,
                topk,
                rows,
                experts,
                cols,
                depth,
            )->config;
            &&& config.grid_dim.0 == experts
            &&& cols <= config.grid_dim.1 * N_BLK < cols + N_BLK
        }),
{
    lemma_div_up_bounds(cols, N_BLK as int);
}

/// The launch that quantizes has a row of blocks to each row of the input and exactly one thread
/// to each element of a padded row, and the buffer has exactly one `q8_1` block to each 32 of
/// these.
pub proof fn law_quantize_covers_input(input_rows: int, depth: int)
    requires
        0 <= input_rows <= u32::MAX,
        depth >= 0,
        div_up(padded(depth, MATRIX_ROW_PADDING as int), CUDA_QUANTIZE_BLOCK_SIZE as int)
            <= u32::MAX,
    ensures
        ({
            let config: LaunchConfig = quantize_launch(input_rows, depth)->config;
            let depth_padded: int = padded(depth, MATRIX_ROW_PADDING as int);
            &&& depth <= depth_padded < depth + MATRIX_ROW_PADDING
            &&& config.grid_dim.0 * config.block_dim.0 == depth_padded
            &&& config.grid_dim.1 == input_rows
            &&& quantized_bytes(input_rows, depth) * QK8_1 == input_rows * depth_padded
                * SIZEOF_BLOCK_Q8_1
        }),
{
    let p: int = padded(depth, MATRIX_ROW_PADDING as int);
    lemma_padded_bounds(depth, MATRIX_ROW_PADDING as int);
    lemma_div_up_bounds(p, CUDA_QUANTIZE_BLOCK_SIZE as int);
    let b: int = p / QK8_1 as int;
    assert(b * QK8_1 == p);
    assert(input_rows * b * SIZEOF_BLOCK_Q8_1 * QK8_1 == input_rows * (b * QK8_1)
        * SIZEOF_BLOCK_Q8_1) by (nonlinear_arith);
}

/// The launch for single tokens has a warp to each element of the output, rounded up to a whole
/// block in each row.
pub proof fn law_decode_covers_output(
    quant: Quant,
    weighted: bool,
    topk: int,
    rows: int,
    experts: int,
    cols: int,
    depth: int,
)
    requires
        0 <= rows <= u32::MAX,
        cols >= 0,
        div_up(cols, WARPS_PER_BLOCK as int) <= u32::MAX,
    ensures
        ({
            let config: LaunchConfig = decode_launch(
                quant,
                weighted,
                topk,
                rows,
                experts,
                cols,
                depth,
            )->config;
            &&& config.grid_dim.1 == rows
            &&& cols <= config.grid_dim.0 * config.block_dim.1 < cols + WARPS_PER_BLOCK
        }),
{
    lemma_div_up_bounds(cols, WARPS_PER_BLOCK as int);
}

/// Whether the argument of `step` at `place` is the number `n`.
pub open spec fn passes_number(step: StepModel, place: int, n: int) -> bool {
    step->args[place] matches Arg::Int(v) && v == n
}

/// The kernels are handed the sizes as they are, as long as these fit in 32 bits with a sign.
pub proof fn law_sizes_are_passed_on(
    half: Half,
    quant: Quant,
    is_prefill: bool,
    weighted: bool,
    topk: int,
    rows: int,
    experts: int,
    cols: int,
    depth: int,
)
    requires
        0 <= topk <= i32::MAX,
        0 <= rows <= i32::MAX,
        0 <= experts <= i32::MAX,
        0 <= cols <= i32::MAX,
        0 <= depth <= i32::MAX,
        padded(depth, MATRIX_ROW_PADDING as int) <= i32::MAX,
    ensures
        passes_number(count_launch(rows), 2, rows),
        passes_number(scan_launch(experts), 2, experts),
        ({
            let step: StepModel = gemm_launch(
                half,
                is_prefill,
                weighted,
                topk,
                rows,
                experts,
                cols,
                depth,
            );
            &&& passes_number(step, 6, experts)
            &&& passes_number(step, 7, topk)
            &&& passes_number(step, 8, rows)
            &&& passes_number(step, 9, cols)
            &&& passes_number(step, 10, depth)
        }),
        ({
            let step: StepModel = prefill_launch(
                half,
                quant,
                weighted,
                topk,
                rows,
                experts,
                cols,
                depth,
            );
            &&& passes_number(step, 6, experts)
            &&& passes_number(step, 7, topk)
            &&& passes_number(step, 8, rows)
            &&& passes_number(step, 9, cols)
            &&& passes_number(step, 10, depth)
        }),
        ({
            let step: StepModel = decode_launch(quant, weighted, topk, rows, experts, cols, depth);
            &&& passes_number(step, 6, experts)
            &&& passes_number(step, 7, topk)
            &&& passes_number(step, 8, rows)
            &&& passes_number(step, 9, cols)
            &&& passes_number(step, 10, depth)
            &&& passes_number(step, 11, padded(depth, MATRIX_ROW_PADDING as int))
        }),
        passes_number(quantize_launch(rows, depth), 2, depth),
        passes_number(
            quantize_launch(rows, depth),
            3,
            padded(depth, MATRIX_ROW_PADDING as int),
        ),
{
    lemma_padded_bounds(depth, MATRIX_ROW_PADDING as int);
}

/// The tiles of sums need no padding before them: the tiles of the operands end at a multiple of
/// 16 bytes for 16-bit weights, and of 4 bytes for quantized ones.
pub proof fn law_shared_tiles_are_aligned(quant: Quant)
    ensures
        (wmma_shared_bytes() - M_BLK * N_BLK * SIZEOF_FLOAT) % 16 == 0,
        wmma_shared_bytes() == (M_BLK + N_BLK) * K_BLK * SIZEOF_HALF + M_BLK * N_BLK
            * SIZEOF_FLOAT,
        (prefill_shared_bytes(quant) - M_BLK * N_BLK * SIZEOF_FLOAT) % 4 == 0,
        prefill_shared_bytes(quant) == (M_BLK + N_BLK) * quant.spec_block_elems() * SIZEOF_HALF
            + N_BLK * quant.spec_block_bytes() + M_BLK * N_BLK * SIZEOF_FLOAT,
{
}

} // verus!
