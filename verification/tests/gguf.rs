use candle_moe::dtype::{DType, GgmlDType, Half, Quant};
use candle_moe::error::MoeError;
use candle_moe::fault::Fault;
use candle_moe::gguf::{moe_gemm_gguf, moe_gemm_gguf_fault};
use candle_moe::plan::{Alloc, Arg, Buffer, Kernel, Launch, LaunchConfig, Output, Plan, Step};
use candle_moe::tensor::{Location, Operand, QTensorInfo, TensorInfo};

fn cuda(dims: &[usize], dtype: DType) -> TensorInfo {
    TensorInfo { dims: dims.to_vec(), dtype, location: Location::Cuda }
}

struct Request {
    input: TensorInfo,
    weights: QTensorInfo,
    topk_weights: Option<TensorInfo>,
    sorted_token_ids: TensorInfo,
    experts_ids: TensorInfo,
    topk: usize,
    is_prefill: bool,
    dtype: DType,
}

fn request(is_prefill: bool) -> Request {
    Request {
        input: cuda(&[10, 768], DType::F32),
        weights: QTensorInfo {
            dims: vec![8, 100, 768],
            dtype: GgmlDType::Q4K,
            location: Location::Cuda,
        },
        topk_weights: None,
        sorted_token_ids: cuda(&[20], DType::U32),
        experts_ids: cuda(&[20], DType::U32),
        topk: 2,
        is_prefill,
        dtype: DType::BF16,
    }
}

fn fault(r: &Request) -> Option<Fault> {
    moe_gemm_gguf_fault(
        &r.input,
        &r.weights,
        &r.topk_weights,
        &r.sorted_token_ids,
        &r.experts_ids,
        r.topk,
        r.is_prefill,
    )
}

fn plan(r: &Request) -> Plan {
    assert_eq!(fault(r), None);
    moe_gemm_gguf(
        &r.input,
        &r.weights,
        &r.topk_weights,
        &r.sorted_token_ids,
        &r.experts_ids,
        r.topk,
        r.is_prefill,
        r.dtype,
    )
}

fn refused(r: &Request) -> MoeError {
    let plan = plan(r);
    assert!(plan.steps.is_empty());
    plan.result.unwrap_err()
}

fn launch(step: &Step) -> &Launch {
    match step {
        Step::Launch(launch) => launch,
        _ => panic!("a launch was expected"),
    }
}

#[test]
fn single_tokens_are_quantized_first() {
    let plan = plan(&request(false));
    assert_eq!(plan.result, Ok(Output { rows: 20, cols: 100, dtype: DType::F32 }));
    let expected = vec![
        Step::Alloc(Alloc {
            buffer: Buffer::Output,
            elem: DType::F32,
            len: 2000,
            zeroed: false,
        }),
        // 768 is padded to 1024: 32 blocks of 36 bytes in each of the 10 rows.
        Step::Alloc(Alloc {
            buffer: Buffer::QuantizedInput,
            elem: DType::U8,
            len: 11520,
            zeroed: false,
        }),
        Step::Load(Kernel::QuantizeQ8_1),
        Step::Launch(Launch {
            kernel: Kernel::QuantizeQ8_1,
            config: LaunchConfig {
                grid_dim: (4, 10, 1),
                block_dim: (256, 1, 1),
                shared_mem_bytes: 0,
            },
            args: vec![
                Arg::Input,
                Arg::Buffer(Buffer::QuantizedInput),
                Arg::Int(768),
                Arg::Int(1024),
            ],
        }),
        // 3 blocks of 144 bytes to each of the 4 warps, and 1024 bytes more.
        Step::Load(Kernel::Gguf { quant: Quant::Q4K }),
        Step::Launch(Launch {
            kernel: Kernel::Gguf { quant: Quant::Q4K },
            config: LaunchConfig {
                grid_dim: (25, 20, 1),
                block_dim: (32, 4, 1),
                shared_mem_bytes: 2752,
            },
            args: vec![
                Arg::Weights,
                Arg::Buffer(Buffer::QuantizedInput),
                Arg::SortedTokenIds,
                Arg::ExpertsIds,
                Arg::Null,
                Arg::Buffer(Buffer::Output),
                Arg::Int(8),
                Arg::Int(2),
                Arg::Int(20),
                Arg::Int(100),
                Arg::Int(768),
                Arg::Int(1024),
            ],
        }),
    ];
    assert_eq!(plan.steps, expected);
}

#[test]
fn prompts_are_converted_first() {
    let plan = plan(&request(true));
    assert_eq!(plan.result, Ok(Output { rows: 20, cols: 100, dtype: DType::F32 }));
    assert_eq!(plan.steps.len(), 10);
    assert_eq!(plan.steps[7], Step::ConvertInput(Half::BF16));
    let expected = Launch {
        kernel: Kernel::GgufPrefill { half: Half::BF16, quant: Quant::Q4K },
        config: LaunchConfig {
            grid_dim: (8, 4, 1),
            block_dim: (32, 4, 1),
            // Two tiles of 32 rows of 256 halves, 32 blocks of 144 bytes, 32 by 32 sums.
            shared_mem_bytes: 32768 + 4608 + 4096,
        },
        args: vec![
            Arg::ConvertedInput,
            Arg::Weights,
            Arg::SortedTokenIds,
            Arg::Buffer(Buffer::ExpertOffsets),
            Arg::Null,
            Arg::Buffer(Buffer::Output),
            Arg::Int(8),
            Arg::Int(2),
            Arg::Int(20),
            Arg::Int(100),
            Arg::Int(768),
            Arg::Int(1),
        ],
    };
    assert_eq!(launch(&plan.steps[9]), &expected);
    assert_eq!(launch(&plan.steps[4]).kernel, Kernel::CountTokensPerExpert);
    assert_eq!(launch(&plan.steps[6]).kernel, Kernel::ExpertPrefixSum);
}

#[test]
fn formats_change_threads_and_shared_memory() {
    let mut r = request(true);
    r.weights.dtype = GgmlDType::Q6K;
    let prompt = plan(&r);
    assert_eq!(launch(&prompt.steps[9]).config.block_dim, (64, 4, 1));
    assert_eq!(launch(&prompt.steps[9]).config.shared_mem_bytes, 32768 + 6720 + 4096);
    r.weights.dtype = GgmlDType::Q8_0;
    let prompt = plan(&r);
    assert_eq!(launch(&prompt.steps[9]).config.shared_mem_bytes, 4096 + 1088 + 4096);
    r.is_prefill = false;
    let tokens = plan(&r);
    assert_eq!(launch(&tokens.steps[5]).config.shared_mem_bytes, 24 * 34 * 4 + 1024);
}

#[test]
fn routing_weights_do_not_change_what_is_quantized() {
    let plain = plan(&request(false));
    let mut r = request(false);
    r.topk_weights = Some(cuda(&[10], DType::F32));
    let weighted = plan(&r);
    assert_eq!(weighted.result, Ok(Output { rows: 10, cols: 100, dtype: DType::F32 }));
    assert_eq!(plain.steps[1], weighted.steps[1]);
    assert_eq!(plain.steps[3], weighted.steps[3]);
    assert_eq!(launch(&weighted.steps[5]).args[4], Arg::TopkWeights);
}

#[test]
fn the_computed_type_only_matters_to_prompts() {
    let mut r = request(false);
    r.dtype = DType::F64;
    assert_eq!(plan(&r), plan(&request(false)));
    let mut r = request(true);
    r.input.dtype = DType::F64;
    assert_eq!(plan(&r), plan(&request(true)));
}

#[test]
fn the_computed_type_is_refused_after_the_offsets() {
    let mut r = request(true);
    r.dtype = DType::F32;
    let plan = plan(&r);
    assert_eq!(plan.result, Err(MoeError::UnsupportedPrefillDType));
    assert_eq!(plan.steps.len(), 7);
    assert_eq!(launch(&plan.steps[6]).kernel, Kernel::ExpertPrefixSum);
}

#[test]
fn single_tokens_have_to_be_floats() {
    let mut r = request(false);
    r.input.dtype = DType::F16;
    let plan = plan(&r);
    assert_eq!(
        plan.result,
        Err(MoeError::UnexpectedDType {
            operand: Operand::Input,
            expected: DType::F32,
            got: DType::F16
        })
    );
    assert_eq!(plan.steps.len(), 1);
}

#[test]
fn requests_are_refused_in_order() {
    let mut r = request(false);
    r.input.dims = vec![10, 768, 1];
    r.weights.dims = vec![];
    r.input.location = Location::Cpu;
    r.weights.dtype = GgmlDType::Q8K;
    r.weights.location = Location::Cpu;
    r.topk_weights = Some(cuda(&[10], DType::F16));
    r.sorted_token_ids.dtype = DType::I64;
    r.experts_ids.location = Location::Cpu;
    assert_eq!(
        refused(&r),
        MoeError::UnexpectedRank { operand: Operand::Input, expected_rank: 2, rank: 3 }
    );
    r.input.dims = vec![10, 768];
    assert_eq!(
        refused(&r),
        MoeError::UnexpectedRank { operand: Operand::Weights, expected_rank: 3, rank: 0 }
    );
    r.weights.dims = vec![8, 100, 768];
    assert_eq!(refused(&r), MoeError::NotACudaDevice(Location::Cpu));
    r.input.location = Location::Cuda;
    assert_eq!(refused(&r), MoeError::UnsupportedWeights);
    r.weights.dtype = GgmlDType::Q2K;
    assert_eq!(refused(&r), MoeError::NoDevicePointer);
    r.weights.location = Location::Cuda;
    assert_eq!(
        refused(&r),
        MoeError::UnexpectedDType {
            operand: Operand::TopkWeights,
            expected: DType::F32,
            got: DType::F16
        }
    );
    r.topk_weights = None;
    assert_eq!(
        refused(&r),
        MoeError::UnexpectedDType {
            operand: Operand::SortedTokenIds,
            expected: DType::U32,
            got: DType::I64
        }
    );
    r.sorted_token_ids.dtype = DType::U32;
    assert_eq!(refused(&r), MoeError::NotOnCuda(Operand::ExpertsIds));
    r.experts_ids.location = Location::Cuda;
    assert!(plan(&r).result.is_ok());
}

#[test]
fn gguf_faults_are_found_before_the_product() {
    let mut r = request(false);
    r.weights.dims = vec![8, 100, 760];
    assert_eq!(fault(&r), Some(Fault::LastDimMismatch { input: 768, weight: 760 }));
    let mut r = request(true);
    r.input.dims = vec![10, 12];
    r.weights.dims = vec![8, 100, 12];
    assert_eq!(fault(&r), Some(Fault::UnalignedRows));
    let mut r = request(false);
    r.topk = 0;
    assert_eq!(fault(&r), Some(Fault::ZeroTopk));
    r.is_prefill = true;
    assert_eq!(fault(&r), None);
    let mut r = request(false);
    r.topk = usize::MAX;
    assert_eq!(fault(&r), Some(Fault::Overflow));
    let mut r = request(false);
    r.input.dims = vec![1, usize::MAX - 7];
    r.weights.dims = vec![8, 100, usize::MAX - 7];
    assert_eq!(fault(&r), Some(Fault::Overflow));
}
