//! Why a product is refused.
use crate::dtype::DType;
use crate::tensor::{Location, Operand};
use vstd::prelude::*;

verus! {

/// The two products.
#[derive(Debug, Clone, Copy, PartialEq, Eq, Structural)]
pub enum EntryPoint {
    MoeGemm,
    MoeGemmGguf,
}

/// Why a product is refused.
#[derive(Debug, Clone, Copy, PartialEq, Eq, Structural)]
pub enum MoeError {
    /// The product is not available without CUDA.
    CudaFeatureRequired(EntryPoint),
    /// The product with 16-bit weights was given an input of another type.
    UnsupportedInputDType,
    /// An operand has the wrong number of dimensions.
    UnexpectedRank { operand: Operand, expected_rank: usize, rank: usize },
    /// The input is on a device that is not a CUDA device.
    NotACudaDevice(Location),
    /// An operand is not on a CUDA device.
    NotOnCuda(Operand),
    /// An operand has elements of the wrong type.
    UnexpectedDType { operand: Operand, expected: DType, got: DType },
    /// There are no kernels for the format of the quantized weights.
    UnsupportedWeights,
    /// The quantized weights have no device address.
    NoDevicePointer,
    /// There is no prefill kernel that computes in the requested type.
    UnsupportedPrefillDType,
}

impl MoeError {
    /// The text that reports the error, where it does not depend on the tensors.
    pub open spec fn spec_message(self) -> Option<Seq<char>> {
        match self {
            MoeError::CudaFeatureRequired(EntryPoint::MoeGemm) => Some(
                "moe_gemm requires the `cuda` feature"@,
            ),
            MoeError::CudaFeatureRequired(EntryPoint::MoeGemmGguf) => Some(
                "moe_gemm_gguf requires the `cuda` feature"@,
            ),
            MoeError::UnsupportedInputDType => Some("moe_gemm only accepts f16/bf16 inputs"@),
            MoeError::UnexpectedRank { .. } => None,
            MoeError::NotACudaDevice(Location::Metal) => Some(
                "expected a cuda device, got Metal"@,
            ),
            MoeError::NotACudaDevice(_) => Some("expected a cuda device, got cpu"@),
            MoeError::NotOnCuda(Operand::Input) => Some("input must be a cuda tensor"@),
            MoeError::NotOnCuda(Operand::Weights) => Some("weight must be a cuda tensor"@),
            MoeError::NotOnCuda(Operand::SortedTokenIds) => Some(
                "sorted_token_ids must be a cuda tensor"@,
            ),
            MoeError::NotOnCuda(Operand::ExpertsIds) => Some("experts_ids must be a cuda tensor"@),
            MoeError::NotOnCuda(Operand::TopkWeights) => Some(
                "topk_weights must be a cuda tensor"@,
            ),
            MoeError::UnexpectedDType { .. } => None,
            MoeError::UnsupportedWeights => Some(
                "moe_gemm_gguf `ISQ` only accept q2k, q3k, q4k, q5k, q6k or q8_0 weights!"@,
            ),
            MoeError::NoDevicePointer => Some("not implemented"@),
            MoeError::UnsupportedPrefillDType => Some(
                "unsupported dtype/gguf combination for prefill"@,
            ),
        }
    }

    /// The text that reports the error. There is none of its own for a wrong rank or a wrong
    /// element type, whose report shows the shape or the types.
    pub fn message(&self) -> (r: Option<&'static str>)
        ensures
            r is Some <==> self.spec_message() is Some,
            r matches Some(text) ==> self.spec_message() == Some(text@),
    {
        match self {
            MoeError::CudaFeatureRequired(EntryPoint::MoeGemm) => Some(
                "moe_gemm requires the `cuda` feature",
            ),
            MoeError::CudaFeatureRequired(EntryPoint::MoeGemmGguf) => Some(
                "moe_gemm_gguf requires the `cuda` feature",
            ),
            MoeError::UnsupportedInputDType => Some("moe_gemm only accepts f16/bf16 inputs"),
            MoeError::UnexpectedRank { .. } => None,
            MoeError::NotACudaDevice(Location::Metal) => Some("expected a cuda device, got Metal"),
            MoeError::NotACudaDevice(_) => Some("expected a cuda device, got cpu"),
            MoeError::NotOnCuda(Operand::Input) => Some("input must be a cuda tensor"),
            MoeError::NotOnCuda(Operand::Weights) => Some("weight must be a cuda tensor"),
            MoeError::NotOnCuda(Operand::SortedTokenIds) => Some(
                "sorted_token_ids must be a cuda tensor",
            ),
            MoeError::NotOnCuda(Operand::ExpertsIds) => Some("experts_ids must be a cuda tensor"),
            MoeError::NotOnCuda(Operand::TopkWeights) => Some("topk_weights must be a cuda tensor"),
            MoeError::UnexpectedDType { .. } => None,
            MoeError::UnsupportedWeights => Some(
                "moe_gemm_gguf `ISQ` only accept q2k, q3k, q4k, q5k, q6k or q8_0 weights!",
            ),
            MoeError::NoDevicePointer => Some("not implemented"),
            MoeError::UnsupportedPrefillDType => Some(
                "unsupported dtype/gguf combination for prefill",
            ),
        }
    }
}

/// Every error but a wrong rank and a wrong element type is reported by a text of its own.
pub proof fn law_errors_are_reported(error: MoeError)
    ensures
        error.spec_message() is None <==> error is UnexpectedRank || error is UnexpectedDType,
        MoeError::CudaFeatureRequired(EntryPoint::MoeGemm).spec_message() == Some(
            "moe_gemm requires the `cuda` feature"@,
        ),
        MoeError::CudaFeatureRequired(EntryPoint::MoeGemmGguf).spec_message() == Some(
            "moe_gemm_gguf requires the `cuda` feature"@,
        ),
        MoeError::UnsupportedInputDType.spec_message() == Some(
            "moe_gemm only accepts f16/bf16 inputs"@,
        ),
        MoeError::NotACudaDevice(Location::Cpu).spec_message() == Some(
            "expected a cuda device, got cpu"@,
        ),
        MoeError::NotACudaDevice(Location::Metal).spec_message() == Some(
            "expected a cuda device, got Metal"@,
        ),
        MoeError::NotOnCuda(Operand::Input).spec_message() == Some(
            "input must be a cuda tensor"@,
        ),
        MoeError::NotOnCuda(Operand::Weights).spec_message() == Some(
            "weight must be a cuda tensor"@,
        ),
        MoeError::NotOnCuda(Operand::SortedTokenIds).spec_message() == Some(
            "sorted_token_ids must be a cuda tensor"@,
        ),
        MoeError::NotOnCuda(Operand::ExpertsIds).spec_message() == Some(
            "experts_ids must be a cuda tensor"@,
        ),
        MoeError::NotOnCuda(Operand::TopkWeights).spec_message() == Some(
            "topk_weights must be a cuda tensor"@,
        ),
        MoeError::UnsupportedWeights.spec_message() == Some(
            "moe_gemm_gguf `ISQ` only accept q2k, q3k, q4k, q5k, q6k or q8_0 weights!"@,
        ),
        MoeError::NoDevicePointer.spec_message() == Some(
            "not implemented"@,
        ),
        MoeError::UnsupportedPrefillDType.spec_message() == Some(
            "unsupported dtype/gguf combination for prefill"@,
        ),
{
}

} // verus!
