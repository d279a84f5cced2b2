use candle_moe::dtype::{DType, Half};
use candle_moe::error::MoeError;
use candle_moe::fault::Fault;
use candle_moe::gemm::{moe_gemm, moe_gemm_fault};
use candle_moe::offsets::launch_expert_offsets;
use candle_moe::plan::{Alloc, Arg, Buffer, Kernel, Launch, LaunchConfig, Output, Plan, Step};
use candle_moe::tensor::{Location, Operand, TensorInfo};

fn cuda(dims: &[usize], dtype: DType) -> TensorInfo {
    TensorInfo { dims: dims.to_vec(), dtype, location: Location::Cuda }
}

struct Request {
    input: TensorInfo,
    weights: TensorInfo,
    topk_weights: Option<TensorInfo>,
    sorted_token_ids: TensorInfo,
    experts_ids: TensorInfo,
    topk: usize,
    is_prefill: bool,
}

fn request() -> Request {
    Request {
        input: cuda(&[10, 64], DType::F16),
        weights: cuda(&[8, 100, 64], DType::F16),
        topk_weights: None,
        sorted_token_ids: cuda(&[20], DType::U32),
        experts_ids: cuda(&[20], DType::U32),
        topk: 2,
        is_prefill: true,
    }
}

fn fault(r: &Request) -> Option<Fault> {
    moe_gemm_fault(
        &r.input,
        &r.weights,
        &r.topk_weights,
        &r.sorted_token_ids,
        &r.experts_ids,
        r.topk,
    )
}

fn plan(r: &Request) -> Plan {
    assert_eq!(fault(r), None);
    moe_gemm(
        &r.input,
        &r.weights,
        &r.topk_weights,
        &r.sorted_token_ids,
        &r.experts_ids,
        r.topk,
        r.is_prefill,
    )
}

fn refused(r: &Request) -> MoeError {
    let plan = plan(r);
    assert!(plan.steps.is_empty());
    plan.result.unwrap_err()
}

#[test]
fn a_product_is_planned_step_by_step() {
    let plan = plan(&request());
    assert_eq!(plan.result, Ok(Output { rows: 20, cols: 100, dtype: DType::F16 }));
    let expected = vec![
        Step::Alloc(Alloc {
            buffer: Buffer::Output,
            elem: DType::F16,
            len: 2000,
            zeroed: false,
        }),
        Step::Alloc(Alloc {
            buffer: Buffer::ExpertCounts,
            elem: DType::U32,
            len: 8,
            zeroed: true,
        }),
        Step::Alloc(Alloc {
            buffer: Buffer::ExpertOffsets,
            elem: DType::U32,
            len: 9,
            zeroed: false,
        }),
        Step::Load(Kernel::CountTokensPerExpert),
        Step::Launch(Launch {
            kernel: Kernel::CountTokensPerExpert,
            config: LaunchConfig {
                grid_dim: (1, 1, 1),
                block_dim: (256, 1, 1),
                shared_mem_bytes: 0,
            },
            args: vec![Arg::ExpertsIds, Arg::Buffer(Buffer::ExpertCounts), Arg::Int(20)],
        }),
        Step::Load(Kernel::ExpertPrefixSum),
        Step::Launch(Launch {
            kernel: Kernel::ExpertPrefixSum,
            config: LaunchConfig {
                grid_dim: (1, 1, 1),
                block_dim: (32, 1, 1),
                shared_mem_bytes: 128,
            },
            args: vec![
                Arg::Buffer(Buffer::ExpertCounts),
                Arg::Buffer(Buffer::ExpertOffsets),
                Arg::Int(8),
            ],
        }),
        Step::Load(Kernel::Wmma { half: Half::F16, is_prefill: true }),
        Step::Launch(Launch {
            kernel: Kernel::Wmma { half: Half::F16, is_prefill: true },
            config: LaunchConfig {
                grid_dim: (8, 4, 1),
                block_dim: (128, 1, 1),
                shared_mem_bytes: 6144,
            },
            args: vec![
                Arg::Input,
                Arg::Weights,
                Arg::SortedTokenIds,
                Arg::Buffer(Buffer::ExpertOffsets),
                Arg::Null,
                Arg::Buffer(Buffer::Output),
                Arg::Int(8),
                Arg::Int(2),
                Arg::Int(20),
                Arg::Int(100),
                Arg::Int(64),
            ],
        }),
    ];
    assert_eq!(plan.steps, expected);
}

#[test]
fn routing_weights_keep_the_rows() {
    let mut r = request();
    r.topk_weights = Some(cuda(&[10], DType::F32));
    let plan = plan(&r);
    assert_eq!(plan.result, Ok(Output { rows: 10, cols: 100, dtype: DType::F16 }));
    match &plan.steps[8] {
        Step::Launch(launch) => assert_eq!(launch.args[4], Arg::TopkWeights),
        _ => panic!("a launch was expected"),
    }
}

#[test]
fn the_mode_picks_the_kernel_alone() {
    let mut r = request();
    r.input.dtype = DType::BF16;
    r.weights.dtype = DType::BF16;
    let prompt = plan(&r);
    r.is_prefill = false;
    let tokens = plan(&r);
    assert_eq!(prompt.result, tokens.result);
    assert_eq!(prompt.steps[..7], tokens.steps[..7]);
    match (&prompt.steps[8], &tokens.steps[8]) {
        (Step::Launch(a), Step::Launch(b)) => {
            assert_eq!(a.kernel.name(), "moe_wmma_bf16_16_16_2");
            assert_eq!(b.kernel.name(), "moe_wmma_bf16_8_32_1");
            assert_eq!(a.config, b.config);
            assert_eq!(a.args, b.args);
        }
        _ => panic!("launches were expected"),
    }
}

#[test]
fn many_experts_share_one_block() {
    let mut steps = Vec::new();
    launch_expert_offsets(1000, 60, &mut steps);
    assert_eq!(steps.len(), 4);
    match (&steps[1], &steps[3]) {
        (Step::Launch(count), Step::Launch(scan)) => {
            assert_eq!(count.config.grid_dim, (4, 1, 1));
            assert_eq!(scan.config.grid_dim, (1, 1, 1));
            assert_eq!(scan.config.block_dim, (60, 1, 1));
            assert_eq!(scan.config.shared_mem_bytes, 240);
        }
        _ => panic!("launches were expected"),
    }
}

#[test]
fn inputs_of_other_types_are_refused_first() {
    let mut r = request();
    r.input = cuda(&[10], DType::F32);
    assert_eq!(refused(&r), MoeError::UnsupportedInputDType);
}

#[test]
fn ranks_are_checked() {
    let mut r = request();
    r.input.dims = vec![10];
    r.weights.dims = vec![8];
    assert_eq!(
        refused(&r),
        MoeError::UnexpectedRank { operand: Operand::Input, expected_rank: 2, rank: 1 }
    );
    let mut r = request();
    r.weights.dims = vec![8, 100, 64, 1];
    assert_eq!(
        refused(&r),
        MoeError::UnexpectedRank { operand: Operand::Weights, expected_rank: 3, rank: 4 }
    );
}

#[test]
fn operands_have_to_be_on_cuda() {
    let mut r = request();
    r.input.location = Location::Metal;
    r.weights.location = Location::Cpu;
    assert_eq!(refused(&r), MoeError::NotACudaDevice(Location::Metal));
    r.input.location = Location::Cuda;
    assert_eq!(refused(&r), MoeError::NotOnCuda(Operand::Weights));
    let mut r = request();
    r.sorted_token_ids.location = Location::Cpu;
    assert_eq!(refused(&r), MoeError::NotOnCuda(Operand::SortedTokenIds));
    let mut r = request();
    r.experts_ids.location = Location::Cpu;
    assert_eq!(refused(&r), MoeError::NotOnCuda(Operand::ExpertsIds));
    let mut r = request();
    r.topk_weights = Some(cuda(&[10], DType::F32));
    r.topk_weights.as_mut().unwrap().location = Location::Cpu;
    assert_eq!(refused(&r), MoeError::NotOnCuda(Operand::TopkWeights));
}

#[test]
fn operands_have_to_hold_the_right_elements() {
    let mut r = request();
    r.weights.dtype = DType::BF16;
    assert_eq!(
        refused(&r),
        MoeError::UnexpectedDType {
            operand: Operand::Weights,
            expected: DType::F16,
            got: DType::BF16
        }
    );
    let mut r = request();
    r.experts_ids.dtype = DType::I64;
    assert_eq!(
        refused(&r),
        MoeError::UnexpectedDType {
            operand: Operand::ExpertsIds,
            expected: DType::U32,
            got: DType::I64
        }
    );
    let mut r = request();
    r.topk_weights = Some(cuda(&[10], DType::F16));
    assert_eq!(
        refused(&r),
        MoeError::UnexpectedDType {
            operand: Operand::TopkWeights,
            expected: DType::F32,
            got: DType::F16
        }
    );
}

#[test]
fn faults_are_found_before_the_product() {
    let mut r = request();
    r.weights.dims = vec![8, 100, 65];
    assert_eq!(fault(&r), Some(Fault::LastDimMismatch { input: 64, weight: 65 }));
    let mut r = request();
    r.topk = usize::MAX;
    assert_eq!(fault(&r), Some(Fault::Overflow));
    r.topk_weights = Some(cuda(&[10], DType::F32));
    assert_eq!(fault(&r), None);
    let mut r = request();
    r.weights.dims = vec![8, usize::MAX, 64];
    assert_eq!(fault(&r), Some(Fault::Overflow));
    r.weights.dtype = DType::F32;
    assert_eq!(fault(&r), None);
}
