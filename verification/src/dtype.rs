//! Element types of tensors and of quantized weights.
use vstd::prelude::*;

verus! {

/// The element type of a tensor.
#[derive(Debug, Clone, Copy, PartialEq, Eq, Structural)]
pub enum DType {
    U8,
    U32,
    I16,
    I32,
    I64,
    BF16,
    F16,
    F32,
    F64,
    F8E4M3,
    F6E2M3,
    F6E3M2,
    F4,
    F8E8M0,
    /// An element type that has no variant of its own here.
    Other,
}

/// The storage format of quantized weights.
#[derive(Debug, Clone, Copy, PartialEq, Eq, Structural)]
#[allow(non_camel_case_types)]
pub enum GgmlDType {
    F32,
    F16,
    BF16,
    Q4_0,
    Q4_1,
    Q5_0,
    Q5_1,
    Q8_0,
    Q8_1,
    Q2K,
    Q3K,
    Q4K,
    Q5K,
    Q6K,
    Q8K,
}

/// The 16-bit floating-point types that the matrix kernels compute in.
#[derive(Debug, Clone, Copy, PartialEq, Eq, Structural)]
pub enum Half {
    F16,
    BF16,
}

/// The 16-bit type that `dtype` is, if it is one.
pub open spec fn half_of(dtype: DType) -> Option<Half> {
    match dtype {
        DType::F16 => Some(Half::F16),
        DType::BF16 => Some(Half::BF16),
        _ => None,
    }
}

impl Half {
    /// The element type of tensors that hold this type.
    pub open spec fn spec_dtype(self) -> DType {
        match self {
            Half::F16 => DType::F16,
            Half::BF16 => DType::BF16,
        }
    }

    /// The 16-bit type that `dtype` is, if it is one.
    pub fn of(dtype: DType) -> (r: Option<Half>)
        ensures
            r == half_of(dtype),
    {
        match dtype {
            DType::F16 => Some(Half::F16),
            DType::BF16 => Some(Half::BF16),
            _ => None,
        }
    }

    /// The element type of tensors that hold this type.
    pub fn dtype(self) -> (r: DType)
        ensures
            r == self.spec_dtype(),
    {
        match self {
            Half::F16 => DType::F16,
            Half::BF16 => DType::BF16,
        }
    }
}

/// The weight formats for which there are kernels.
#[derive(Debug, Clone, Copy, PartialEq, Eq, Structural)]
#[allow(non_camel_case_types)]
pub enum Quant {
    Q8_0,
    Q4K,
    Q2K,
    Q3K,
    Q5K,
    Q6K,
}

/// The supported format that `dtype` is, if it is one.
pub open spec fn quant_of(dtype: GgmlDType) -> Option<Quant> {
    match dtype {
        GgmlDType::Q8_0 => Some(Quant::Q8_0),
        GgmlDType::Q4K => Some(Quant::Q4K),
        GgmlDType::Q2K => Some(Quant::Q2K),
        GgmlDType::Q3K => Some(Quant::Q3K),
        GgmlDType::Q5K => Some(Quant::Q5K),
        GgmlDType::Q6K => Some(Quant::Q6K),
        _ => None,
    }
}

impl Quant {
    /// The number by which the kernels know the format.
    pub open spec fn spec_code(self) -> i32 {
        match self {
            Quant::Q8_0 => 0,
            Quant::Q4K => 1,
            Quant::Q2K => 2,
            Quant::Q3K => 3,
            Quant::Q5K => 4,
            Quant::Q6K => 5,
        }
    }

    /// The number of weights in one block: 32 for `Q8_0`, 256 for the others.
    pub open spec fn spec_block_elems(self) -> usize {
        if self == Quant::Q8_0 {
            32
        } else {
            256
        }
    }

    /// The number of bytes of one block.
    pub open spec fn spec_block_bytes(self) -> usize {
        match self {
            Quant::Q8_0 => 34,
            Quant::Q4K => 144,
            Quant::Q2K => 84,
            Quant::Q3K => 110,
            Quant::Q5K => 176,
            Quant::Q6K => 210,
        }
    }

    /// The number of threads along the first dimension of a block of the prefill kernel.
    pub open spec fn spec_prefill_threads(self) -> u32 {
        if self == Quant::Q8_0 || self == Quant::Q4K {
            32
        } else {
            64
        }
    }

    /// The supported format that `dtype` is, if it is one.
    pub fn of(dtype: GgmlDType) -> (r: Option<Quant>)
        ensures
            r == quant_of(dtype),
    {
        match dtype {
            GgmlDType::Q8_0 => Some(Quant::Q8_0),
            GgmlDType::Q4K => Some(Quant::Q4K),
            GgmlDType::Q2K => Some(Quant::Q2K),
            GgmlDType::Q3K => Some(Quant::Q3K),
            GgmlDType::Q5K => Some(Quant::Q5K),
            GgmlDType::Q6K => Some(Quant::Q6K),
            _ => None,
        }
    }

    /// The number by which the kernels know the format.
    pub fn code(self) -> (r: i32)
        ensures
            r == self.spec_code(),
    {
        match self {
            Quant::Q8_0 => 0,
            Quant::Q4K => 1,
            Quant::Q2K => 2,
            Quant::Q3K => 3,
            Quant::Q5K => 4,
            Quant::Q6K => 5,
        }
    }

    /// The number of weights in one block.
    pub fn block_elems(self) -> (r: usize)
        ensures
            r == self.spec_block_elems(),
    {
        match self {
            Quant::Q8_0 => 32,
            _ => 256,
        }
    }

    /// The number of bytes of one block: the packed weights and their scales.
    pub fn block_bytes(self) -> (r: usize)
        ensures
            r == self.spec_block_bytes(),
    {
        match self {
            Quant::Q8_0 => 34,
            Quant::Q4K => 144,
            Quant::Q2K => 84,
            Quant::Q3K => 110,
            Quant::Q5K => 176,
            Quant::Q6K => 210,
        }
    }

    /// The number of threads along the first dimension of a block of the prefill kernel.
    pub fn prefill_threads(self) -> (r: u32)
        ensures
            r == self.spec_prefill_threads(),
    {
        match self {
            Quant::Q8_0 => 32,
            Quant::Q4K => 32,
            _ => 64,
        }
    }
}

/// Each of the two 16-bit types stands for the element type of its name, and no other element type
/// has one that stands for it.
pub proof fn law_halves_keep_their_type(dtype: DType, half: Half)
    ensures
        half_of(dtype) == Some(half) <==> dtype == half.spec_dtype(),
        Half::F16.spec_dtype() == DType::F16,
        Half::BF16.spec_dtype() == DType::BF16,
        half_of(dtype) is Some <==> dtype == DType::F16 || dtype == DType::BF16,
{
}

/// The formats with kernels keep their names, and each has its number, its block and its threads:
/// the numbers tell them apart, and the blocks are those of the format.
pub proof fn law_formats_keep_their_blocks(dtype: GgmlDType)
    ensures
        match quant_of(dtype) {
            Some(quant) => {
                &&& dtype == GgmlDType::Q8_0 ==> quant == Quant::Q8_0 && quant.spec_code() == 0
                    && quant.spec_block_elems() == 32 && quant.spec_block_bytes() == 34
                    && quant.spec_prefill_threads() == 32
                &&& dtype == GgmlDType::Q4K ==> quant == Quant::Q4K && quant.spec_code() == 1
                    && quant.spec_block_elems() == 256 && quant.spec_block_bytes() == 144
                    && quant.spec_prefill_threads() == 32
                &&& dtype == GgmlDType::Q2K ==> quant == Quant::Q2K && quant.spec_code() == 2
                    && quant.spec_block_elems() == 256 && quant.spec_block_bytes() == 84
                    && quant.spec_prefill_threads() == 64
                &&& dtype == GgmlDType::Q3K ==> quant == Quant::Q3K && quant.spec_code() == 3
                    && quant.spec_block_elems() == 256 && quant.spec_block_bytes() == 110
                    && quant.spec_prefill_threads() == 64
                &&& dtype == GgmlDType::Q5K ==> quant == Quant::Q5K && quant.spec_code() == 4
                    && quant.spec_block_elems() == 256 && quant.spec_block_bytes() == 176
                    && quant.spec_prefill_threads() == 64
                &&& dtype == GgmlDType::Q6K ==> quant == Quant::Q6K && quant.spec_code() == 5
                    && quant.spec_block_elems() == 256 && quant.spec_block_bytes() == 210
                    && quant.spec_prefill_threads() == 64
                &&& dtype != GgmlDType::F32 && dtype != GgmlDType::F16 && dtype != GgmlDType::BF16
                &&& dtype != GgmlDType::Q4_0 && dtype != GgmlDType::Q4_1
                &&& dtype != GgmlDType::Q5_0 && dtype != GgmlDType::Q5_1
                &&& dtype != GgmlDType::Q8_1 && dtype != GgmlDType::Q8K
            },
            None => {
                &&& dtype != GgmlDType::Q8_0
                &&& dtype != GgmlDType::Q4K
                &&& dtype != GgmlDType::Q2K
                &&& dtype != GgmlDType::Q3K
                &&& dtype != GgmlDType::Q5K
                &&& dtype != GgmlDType::Q6K
            },
        },
{
}

} // verus!
