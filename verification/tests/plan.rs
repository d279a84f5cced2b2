use candle_moe::dtype::{DType, GgmlDType, Half, Quant};
use candle_moe::error::{EntryPoint, MoeError};
use candle_moe::gemm::without_cuda;
use candle_moe::plan::{Kernel, KernelModule};
use candle_moe::tensor::{dims2, dims3, Location, Operand};

const QUANTS: [Quant; 6] = [
    Quant::Q8_0,
    Quant::Q4K,
    Quant::Q2K,
    Quant::Q3K,
    Quant::Q5K,
    Quant::Q6K,
];

fn all_kernels() -> Vec<Kernel> {
    let mut kernels = vec![
        Kernel::CountTokensPerExpert,
        Kernel::ExpertPrefixSum,
        Kernel::QuantizeQ8_1,
    ];
    for half in [Half::F16, Half::BF16] {
        for is_prefill in [false, true] {
            kernels.push(Kernel::Wmma { half, is_prefill });
        }
        for quant in QUANTS {
            kernels.push(Kernel::GgufPrefill { half, quant });
        }
    }
    for quant in QUANTS {
        kernels.push(Kernel::Gguf { quant });
    }
    kernels
}

#[test]
fn kernel_names_differ() {
    let mut names: Vec<&str> = all_kernels().iter().map(|k| k.name()).collect();
    assert_eq!(names.len(), 25);
    names.sort();
    names.dedup();
    assert_eq!(names.len(), 25);
}

#[test]
fn kernel_names_follow_types() {
    assert_eq!(
        Kernel::Wmma { half: Half::F16, is_prefill: true }.name(),
        "moe_wmma_half_16_16_2"
    );
    assert_eq!(
        Kernel::Wmma { half: Half::BF16, is_prefill: false }.name(),
        "moe_wmma_bf16_8_32_1"
    );
    assert_eq!(
        Kernel::GgufPrefill { half: Half::BF16, quant: Quant::Q8_0 }.name(),
        "moe_gguf_prefill_bf16_q8_0"
    );
    assert_eq!(Kernel::Gguf { quant: Quant::Q6K }.name(), "moe_gguf_q6k");
    assert_eq!(Kernel::QuantizeQ8_1.name(), "moe_quantize_q8_1");
}

#[test]
fn kernels_come_from_their_modules() {
    assert_eq!(Kernel::ExpertPrefixSum.module(), KernelModule::MoeWmma);
    assert_eq!(
        Kernel::GgufPrefill { half: Half::F16, quant: Quant::Q4K }.module(),
        KernelModule::MoeWmmaGguf
    );
    assert_eq!(Kernel::QuantizeQ8_1.module(), KernelModule::MoeGguf);
}

#[test]
fn failed_launches_name_their_kernel() {
    assert_eq!(
        Kernel::CountTokensPerExpert.launch_failure("out of memory"),
        "count_tokens_per_expert launch: out of memory"
    );
    assert_eq!(Kernel::ExpertPrefixSum.launch_failure("x"), "expert_prefix_sum launch: x");
    assert_eq!(
        Kernel::Wmma { half: Half::F16, is_prefill: true }.launch_failure("x"),
        "moe_wmma launch: x"
    );
    assert_eq!(
        Kernel::GgufPrefill { half: Half::F16, quant: Quant::Q2K }.launch_failure("x"),
        "moe_gguf_prefill launch: x"
    );
    assert_eq!(Kernel::QuantizeQ8_1.launch_failure("x"), "quantize_q8_1 launch: x");
    assert_eq!(
        Kernel::Gguf { quant: Quant::Q3K }.launch_failure("x"),
        "moe_gguf kernel launch: x"
    );
}

#[test]
fn errors_have_messages() {
    assert_eq!(
        MoeError::UnsupportedInputDType.message(),
        Some("moe_gemm only accepts f16/bf16 inputs")
    );
    assert_eq!(
        MoeError::NotACudaDevice(Location::Cpu).message(),
        Some("expected a cuda device, got cpu")
    );
    assert_eq!(
        MoeError::NotACudaDevice(Location::Metal).message(),
        Some("expected a cuda device, got Metal")
    );
    assert_eq!(
        MoeError::NotOnCuda(Operand::Weights).message(),
        Some("weight must be a cuda tensor")
    );
    assert_eq!(
        MoeError::NotOnCuda(Operand::ExpertsIds).message(),
        Some("experts_ids must be a cuda tensor")
    );
    assert_eq!(
        MoeError::UnsupportedWeights.message(),
        Some("moe_gemm_gguf `ISQ` only accept q2k, q3k, q4k, q5k, q6k or q8_0 weights!")
    );
    assert_eq!(MoeError::NoDevicePointer.message(), Some("not implemented"));
    assert_eq!(
        MoeError::UnsupportedPrefillDType.message(),
        Some("unsupported dtype/gguf combination for prefill")
    );
    assert_eq!(
        MoeError::UnexpectedDType {
            operand: Operand::Input,
            expected: DType::F32,
            got: DType::F16
        }
        .message(),
        None
    );
}

#[test]
fn without_cuda_both_products_are_refused() {
    let plan = without_cuda(EntryPoint::MoeGemm);
    assert!(plan.steps.is_empty());
    let error = plan.result.unwrap_err();
    assert_eq!(error, MoeError::CudaFeatureRequired(EntryPoint::MoeGemm));
    assert_eq!(error.message(), Some("moe_gemm requires the `cuda` feature"));
    let plan = without_cuda(EntryPoint::MoeGemmGguf);
    assert!(plan.steps.is_empty());
    assert_eq!(
        plan.result.unwrap_err().message(),
        Some("moe_gemm_gguf requires the `cuda` feature")
    );
}

#[test]
fn dims_are_taken_apart() {
    assert_eq!(dims2(Operand::Input, &vec![3, 5]), Ok((3, 5)));
    assert_eq!(
        dims2(Operand::Input, &vec![3, 5, 7]),
        Err(MoeError::UnexpectedRank { operand: Operand::Input, expected_rank: 2, rank: 3 })
    );
    assert_eq!(
        dims2(Operand::Weights, &vec![]),
        Err(MoeError::UnexpectedRank { operand: Operand::Weights, expected_rank: 2, rank: 0 })
    );
    assert_eq!(dims3(Operand::Weights, &vec![2, 3, 5]), Ok((2, 3, 5)));
    assert_eq!(
        dims3(Operand::Weights, &vec![2, 3]),
        Err(MoeError::UnexpectedRank { operand: Operand::Weights, expected_rank: 3, rank: 2 })
    );
}

#[test]
fn halves_are_told_apart() {
    assert_eq!(Half::of(DType::F16), Some(Half::F16));
    assert_eq!(Half::of(DType::BF16), Some(Half::BF16));
    assert_eq!(Half::of(DType::F32), None);
    assert_eq!(Half::BF16.dtype(), DType::BF16);
}

#[test]
fn quantized_formats_are_told_apart() {
    assert_eq!(Quant::of(GgmlDType::Q4K), Some(Quant::Q4K));
    assert_eq!(Quant::of(GgmlDType::Q4_0), None);
    assert_eq!(Quant::of(GgmlDType::Q8_1), None);
    assert_eq!(Quant::of(GgmlDType::F16), None);
    for (code, quant) in QUANTS.iter().enumerate() {
        assert_eq!(quant.code(), code as i32);
    }
    let threads: Vec<u32> = QUANTS.iter().map(|q| q.prefill_threads()).collect();
    assert_eq!(threads, vec![32, 32, 64, 64, 64, 64]);
}

#[test]
fn blocks_have_the_sizes_of_candle() {
    let pairs = [
        (Quant::Q8_0, candle_core::quantized::GgmlDType::Q8_0),
        (Quant::Q4K, candle_core::quantized::GgmlDType::Q4K),
        (Quant::Q2K, candle_core::quantized::GgmlDType::Q2K),
        (Quant::Q3K, candle_core::quantized::GgmlDType::Q3K),
        (Quant::Q5K, candle_core::quantized::GgmlDType::Q5K),
        (Quant::Q6K, candle_core::quantized::GgmlDType::Q6K),
    ];
    for (quant, theirs) in pairs {
        assert_eq!(quant.block_elems(), theirs.block_size());
        assert_eq!(quant.block_bytes(), theirs.type_size());
    }
}
