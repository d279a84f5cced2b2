//! What the launches for the expert offsets are handed, and how large they are.
use crate::arith::div_up;
use crate::offsets::offset_launches;
use crate::plan::{Arg, Buffer, Kernel, KernelModule, StepModel};
use vstd::prelude::*;

verus! {

/// Whether `count` counts `rows` rows into the counts, and `scan` turns the counts of `experts`
/// experts into the offsets.
///
/// The counting launch is handed the expert ids, the counts and the number of rows, and has a
/// thread to each row in `blocks` blocks of 256. The other one is handed the counts, the
/// offsets and the number of experts, and has a single block with a thread and four bytes to each
/// expert, and 32 of these at least.
pub open spec fn counts_and_adds_up(
    count: StepModel,
    scan: StepModel,
    rows: int,
    experts: int,
    blocks: int,
) -> bool {
    &&& count matches StepModel::Launch { kernel, config, args }
    &&& kernel.spec_name() == "count_tokens_per_expert"@
    &&& args.len() == 3
    &&& args[0] == Arg::ExpertsIds
    &&& args[1] == Arg::Buffer(Buffer::ExpertCounts)
    &&& args[2] == Arg::Int(rows as i32)
    &&& config.grid_dim == (blocks as u32, 1u32, 1u32)
    &&& config.block_dim == (256u32, 1u32, 1u32)
    &&& config.shared_mem_bytes == 0
    &&& scan matches StepModel::Launch { kernel, config, args }
    &&& kernel.spec_name() == "expert_prefix_sum"@
    &&& args.len() == 3
    &&& args[0] == Arg::Buffer(Buffer::ExpertCounts)
    &&& args[1] == Arg::Buffer(Buffer::ExpertOffsets)
    &&& args[2] == Arg::Int(experts as i32)
    &&& config.grid_dim == (1u32, 1u32, 1u32)
    &&& experts >= 32 ==> config.block_dim.0 == experts as u32 && config.shared_mem_bytes == (4
        * experts) as u32
    &&& experts < 32 ==> config.block_dim.0 == 32 && config.shared_mem_bytes == 128
    &&& config.block_dim.1 == 1
    &&& config.block_dim.2 == 1
}

/// The launches for the offsets load the counting kernel and count, and then load the other kernel
/// and add the counts up, for every number of rows and of experts. The blocks that count are as
/// many as the rows take: one less would not reach them all.
pub proof fn law_offset_launches(rows: int, experts: int, blocks: int)
    requires
        256 * (blocks - 1) < rows <= 256 * blocks,
    ensures
        ({
            let steps: Seq<StepModel> = offset_launches(rows, experts);
            &&& steps.len() == 4
            &&& steps[0] == StepModel::Load(Kernel::CountTokensPerExpert)
            &&& steps[2] == StepModel::Load(Kernel::ExpertPrefixSum)
            &&& counts_and_adds_up(steps[1], steps[3], rows, experts, blocks)
        }),
        Kernel::CountTokensPerExpert.spec_module() == KernelModule::MoeWmma,
        Kernel::ExpertPrefixSum.spec_module() == KernelModule::MoeWmma,
{
    assert(div_up(rows, 256) == blocks);
}

} // verus!
