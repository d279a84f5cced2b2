//! What is known of an operand before its elements are touched.
use crate::dtype::{DType, GgmlDType};
use crate::error::MoeError;
use vstd::prelude::*;

verus! {

/// Where the elements of an operand are.
#[derive(Debug, Clone, Copy, PartialEq, Eq, Structural)]
pub enum Location {
    Cpu,
    Cuda,
    Metal,
}

/// The role of an operand.
#[derive(Debug, Clone, Copy, PartialEq, Eq, Structural)]
pub enum Operand {
    Input,
    Weights,
    TopkWeights,
    SortedTokenIds,
    ExpertsIds,
}

/// The shape, the element type and the place of a tensor.
#[derive(Debug, Clone)]
pub struct TensorInfo {
    pub dims: Vec<usize>,
    pub dtype: DType,
    pub location: Location,
}

/// The shape, the storage format and the place of quantized weights.
#[derive(Debug, Clone)]
pub struct QTensorInfo {
    pub dims: Vec<usize>,
    pub dtype: GgmlDType,
    pub location: Location,
}

/// The error of candle.
#[verifier::external_type_specification]
#[verifier::external_body]
pub struct ExCandleError(candle_core::Error);

/// `candle_core::Shape::dims2` on the shape with the given dimensions: the two of them when there
/// are two, and an error otherwise.
#[verifier::external_body]
fn shape_dims2(dims: &Vec<usize>) -> (r: Result<(usize, usize), candle_core::Error>)
    ensures
        r is Ok <==> dims@.len() == 2,
        r matches Ok(d) ==> d == (dims@[0], dims@[1]),
{
    candle_core::Shape::from_dims(dims).dims2()
}

/// `candle_core::Shape::dims3` on the shape with the given dimensions: the three of them when
/// there are three, and an error otherwise.
#[verifier::external_body]
fn shape_dims3(dims: &Vec<usize>) -> (r: Result<(usize, usize, usize), candle_core::Error>)
    ensures
        r is Ok <==> dims@.len() == 3,
        r matches Ok(d) ==> d == (dims@[0], dims@[1], dims@[2]),
{
    candle_core::Shape::from_dims(dims).dims3()
}

/// The error of an operand with `dims` where `expected` dimensions are wanted.
pub open spec fn rank_error(operand: Operand, expected: usize, dims: Seq<usize>) -> MoeError {
    MoeError::UnexpectedRank { operand, expected_rank: expected, rank: dims.len() as usize }
}

/// The dimensions of a matrix.
pub fn dims2(operand: Operand, dims: &Vec<usize>) -> (r: Result<(usize, usize), MoeError>)
    ensures
        r == if dims@.len() == 2 {
            Ok((dims@[0], dims@[1]))
        } else {
            Err(rank_error(operand, 2, dims@))
        },
{
    match shape_dims2(dims) {
        Ok(d) => Ok(d),
        Err(_) => Err(MoeError::UnexpectedRank { operand, expected_rank: 2, rank: dims.len() }),
    }
}

/// The dimensions of a stack of matrices.
pub fn dims3(operand: Operand, dims: &Vec<usize>) -> (r: Result<(usize, usize, usize), MoeError>)
    ensures
        r == if dims@.len() == 3 {
            Ok((dims@[0], dims@[1], dims@[2]))
        } else {
            Err(rank_error(operand, 3, dims@))
        },
{
    match shape_dims3(dims) {
        Ok(d) => Ok(d),
        Err(_) => Err(MoeError::UnexpectedRank { operand, expected_rank: 3, rank: dims.len() }),
    }
}

/// What keeps `tensor` from being read as CUDA memory that holds elements of type `expected`.
pub open spec fn operand_error(
    operand: Operand,
    tensor: TensorInfo,
    expected: DType,
) -> Option<MoeError> {
    if tensor.location != Location::Cuda {
        Some(MoeError::NotOnCuda(operand))
    } else if tensor.dtype != expected {
        Some(MoeError::UnexpectedDType { operand, expected, got: tensor.dtype })
    } else {
        None
    }
}

/// As [`operand_error`], for an operand that may be left out.
pub open spec fn optional_operand_error(
    operand: Operand,
    tensor: Option<TensorInfo>,
    expected: DType,
) -> Option<MoeError> {
    match tensor {
        Some(tensor) => operand_error(operand, tensor, expected),
        None => None,
    }
}

/// The first of two errors.
pub open spec fn first_error(a: Option<MoeError>, b: Option<MoeError>) -> Option<MoeError> {
    if a is Some {
        a
    } else {
        b
    }
}

/// What keeps `tensor` from being read as CUDA memory that holds elements of type `expected`.
pub fn check_operand(operand: Operand, tensor: &TensorInfo, expected: DType) -> (r: Option<MoeError>)
    ensures
        r == operand_error(operand, *tensor, expected),
{
    if tensor.location != Location::Cuda {
        Some(MoeError::NotOnCuda(operand))
    } else if tensor.dtype != expected {
        Some(MoeError::UnexpectedDType { operand, expected, got: tensor.dtype })
    } else {
        None
    }
}

/// As [`check_operand`], for an operand that may be left out.
pub fn check_optional_operand(
    operand: Operand,
    tensor: &Option<TensorInfo>,
    expected: DType,
) -> (r: Option<MoeError>)
    ensures
        r == optional_operand_error(operand, *tensor, expected),
{
    match tensor {
        Some(tensor) => check_operand(operand, tensor, expected),
        None => None,
    }
}

/// An operand is accepted exactly when it is on a CUDA device and holds the wanted elements; one
/// that is elsewhere is refused for that, whatever it holds, and one that may be left out is
/// accepted when it is.
pub proof fn law_operands_are_checked(operand: Operand, tensor: TensorInfo, expected: DType)
    ensures
        operand_error(operand, tensor, expected) is None <==> tensor.location == Location::Cuda
            && tensor.dtype == expected,
        tensor.location != Location::Cuda ==> operand_error(operand, tensor, expected) == Some(
            MoeError::NotOnCuda(operand),
        ),
        tensor.location == Location::Cuda && tensor.dtype != expected ==> operand_error(
            operand,
            tensor,
            expected,
        ) == Some((MoeError::UnexpectedDType { operand, expected, got: tensor.dtype })),
        optional_operand_error(operand, None, expected) is None,
        optional_operand_error(operand, Some(tensor), expected) == operand_error(
            operand,
            tensor,
            expected,
        ),
{
}

} // verus!
