//! The launches that sort out which rows belong to which expert.
use crate::arith::{ceil_div, div_up};
use crate::dtype::DType;
use crate::plan::{
    load_and_launch, push_launch, push_step, steps_model, Alloc, Arg, Buffer, Kernel, Launch,
    LaunchConfig, Step, StepModel,
};
use vstd::prelude::*;

verus! {

/// The threads of a block that counts tokens.
pub const COUNT_THREADS: u32 = 256;

/// The least number of threads of the block that adds the counts up.
pub const MIN_SCAN_THREADS: usize = 32;

/// The bytes of one entry of the shared memory of the block that adds the counts up.
pub const SIZEOF_COUNT: usize = 4;

/// The threads of the one block that adds the counts up.
pub open spec fn scan_threads(experts: int) -> int {
    if experts < MIN_SCAN_THREADS {
        MIN_SCAN_THREADS as int
    } else {
        experts
    }
}

/// Whether the sizes of the launches for `rows` rows and `experts` experts fit in a `usize`.
pub open spec fn offsets_fit(rows: int, experts: int) -> bool {
    &&& rows + COUNT_THREADS <= usize::MAX
    &&& scan_threads(experts) * SIZEOF_COUNT <= usize::MAX
}

/// The buffer of the counts, which the kernel only adds to.
pub open spec fn counts_alloc(experts: int) -> Alloc {
    Alloc { buffer: Buffer::ExpertCounts, elem: DType::U32, len: experts as usize, zeroed: true }
}

/// The buffer of the offsets.
pub open spec fn offsets_alloc(experts: int) -> Alloc {
    Alloc {
        buffer: Buffer::ExpertOffsets,
        elem: DType::U32,
        len: (experts + 1) as usize,
        zeroed: false,
    }
}

/// Counts the rows of each expert, one thread to a row.
pub open spec fn count_launch(rows: int) -> StepModel {
    StepModel::Launch {
        kernel: Kernel::CountTokensPerExpert,
        config: LaunchConfig {
            grid_dim: (div_up(rows, COUNT_THREADS as int) as u32, 1, 1),
            block_dim: (COUNT_THREADS, 1, 1),
            shared_mem_bytes: 0,
        },
        args: seq![Arg::ExpertsIds, Arg::Buffer(Buffer::ExpertCounts), Arg::Int(rows as i32)],
    }
}

/// Adds the counts up in a single block, one thread to an expert, whatever their number.
pub open spec fn scan_launch(experts: int) -> StepModel {
    StepModel::Launch {
        kernel: Kernel::ExpertPrefixSum,
        config: LaunchConfig {
            grid_dim: (1, 1, 1),
            block_dim: (scan_threads(experts) as u32, 1, 1),
            shared_mem_bytes: (scan_threads(experts) * SIZEOF_COUNT) as u32,
        },
        args: seq![
            Arg::Buffer(Buffer::ExpertCounts),
            Arg::Buffer(Buffer::ExpertOffsets),
            Arg::Int(experts as i32),
        ],
    }
}

/// The two launches, each after the load of its kernel.
pub open spec fn offset_launches(rows: int, experts: int) -> Seq<StepModel> {
    load_and_launch(count_launch(rows)) + load_and_launch(scan_launch(experts))
}

/// All that is done to have the offsets of `experts` experts that share `rows` rows.
pub open spec fn expert_offsets_steps(rows: int, experts: int) -> Seq<StepModel> {
    seq![
        StepModel::Alloc(counts_alloc(experts)),
        StepModel::Alloc(offsets_alloc(experts)),
    ] + offset_launches(rows, experts)
}

/// Whether the sizes of the launches for `size_m` rows and `num_experts` experts fit in a `usize`.
pub(crate) fn check_offsets_fit(size_m: usize, num_experts: usize) -> (r: bool)
    ensures
        r == offsets_fit(size_m as int, num_experts as int),
{
    let scan_threads: usize = if num_experts < MIN_SCAN_THREADS {
        MIN_SCAN_THREADS
    } else {
        num_experts
    };
    size_m <= usize::MAX - COUNT_THREADS as usize && scan_threads <= usize::MAX / SIZEOF_COUNT
}

/// Appends the allocation of the buffers that the launches fill.
pub(crate) fn alloc_expert_buffers(num_experts: usize, steps: &mut Vec<Step>)
    requires
        num_experts < usize::MAX,
    ensures
        steps_model(final(steps)@) == steps_model(old(steps)@).push(
            StepModel::Alloc(counts_alloc(num_experts as int)),
        ).push(StepModel::Alloc(offsets_alloc(num_experts as int))),
{
    push_step(
        steps,
        Step::Alloc(
            Alloc {
                buffer: Buffer::ExpertCounts,
                elem: DType::U32,
                len: num_experts,
                zeroed: true,
            },
        ),
    );
    push_step(
        steps,
        Step::Alloc(
            Alloc {
                buffer: Buffer::ExpertOffsets,
                elem: DType::U32,
                len: num_experts + 1,
                zeroed: false,
            },
        ),
    );
}

/// Appends the two launches that compute the offsets of `num_experts` experts that share `size_m`
/// rows, each after the load of its kernel.
pub fn launch_expert_offsets(size_m: usize, num_experts: usize, steps: &mut Vec<Step>)
    requires
        offsets_fit(size_m as int, num_experts as int),
    ensures
        steps_model(final(steps)@) == steps_model(old(steps)@) + offset_launches(
            size_m as int,
            num_experts as int,
        ),
{
    let threads: u32 = COUNT_THREADS;
    let blocks: u32 = ceil_div(size_m, threads as usize) as u32;
    let count = Launch {
        kernel: Kernel::CountTokensPerExpert,
        config: LaunchConfig {
            grid_dim: (blocks, 1, 1),
            block_dim: (threads, 1, 1),
            shared_mem_bytes: 0,
        },
        args: vec![Arg::ExpertsIds, Arg::Buffer(Buffer::ExpertCounts), Arg::Int(size_m as i32)],
    };
    push_launch(steps, count);

    let mut scan_threads: usize = num_experts;
    if scan_threads < MIN_SCAN_THREADS {
        scan_threads = MIN_SCAN_THREADS;
    }
    let smem_size: u32 = (scan_threads * SIZEOF_COUNT) as u32;
    let scan = Launch {
        kernel: Kernel::ExpertPrefixSum,
        config: LaunchConfig {
            grid_dim: (1, 1, 1),
            block_dim: (scan_threads as u32, 1, 1),
            shared_mem_bytes: smem_size,
        },
        args: vec![
            Arg::Buffer(Buffer::ExpertCounts),
            Arg::Buffer(Buffer::ExpertOffsets),
            Arg::Int(num_experts as i32),
        ],
    };
    push_launch(steps, scan);
    assert(steps_model(steps@) =~= steps_model(old(steps)@) + offset_launches(
        size_m as int,
        num_experts as int,
    ));
}

} // verus!
