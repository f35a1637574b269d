//! The closed native error set and the caller-facing error taxonomy,
//! with the total, non-overlapping mapping between them.

use vstd::prelude::*;

verus! {

/// The closed set of failure codes the native inventory subsystem can
/// report. Every native failure is one of these; no other code exists.
#[derive(Clone, Copy, Debug, PartialEq, Eq, Structural)]
pub enum NativeErrorCode {
    OperationFailed,
    GetResultItemsFailed,
    InvalidInput,
    Timeout,
}

/// The caller-facing error taxonomy: a closed tag set. No native failure
/// may escape as an untyped error; each one maps to exactly one member.
#[derive(Clone, Copy, Debug, PartialEq, Eq, Structural)]
pub enum InventoryError {
    OperationFailed,
    GetResultItemsFailed,
    InvalidInput,
    Timeout,
}

/// The taxonomy mapping as a total function over the native code set.
pub open spec fn map_native_error_spec(code: NativeErrorCode) -> InventoryError {
    match code {
        NativeErrorCode::OperationFailed => InventoryError::OperationFailed,
        NativeErrorCode::GetResultItemsFailed => InventoryError::GetResultItemsFailed,
        NativeErrorCode::InvalidInput => InventoryError::InvalidInput,
        NativeErrorCode::Timeout => InventoryError::Timeout,
    }
}

/// Maps a native failure code to its taxonomy member.
pub fn map_native_error(code: NativeErrorCode) -> (e: InventoryError)
    ensures
        e == map_native_error_spec(code),
{
    match code {
        NativeErrorCode::OperationFailed => InventoryError::OperationFailed,
        NativeErrorCode::GetResultItemsFailed => InventoryError::GetResultItemsFailed,
        NativeErrorCode::InvalidInput => InventoryError::InvalidInput,
        NativeErrorCode::Timeout => InventoryError::Timeout,
    }
}

/// Law: the taxonomy mapping is injective — two distinct native codes
/// never collapse into the same taxonomy member. Together with
/// `map_native_error_spec` being a total match over the closed native
/// set, the mapping is a total, non-overlapping function.
pub proof fn lemma_error_mapping_injective(a: NativeErrorCode, b: NativeErrorCode)
    ensures
        map_native_error_spec(a) == map_native_error_spec(b) ==> a == b,
{
}

impl InventoryError {
    /// A human-readable diagnostic for each taxonomy member; the tag set
    /// itself stays closed.
    pub fn detail(&self) -> (r: &'static str)
        ensures
            *self is OperationFailed ==> r@ == "the native inventory operation failed"@,
            *self is GetResultItemsFailed ==> r@ == "retrieving the native result items failed"@,
            *self is InvalidInput ==> r@ == "invalid input"@,
            *self is Timeout ==> r@ == "the native inventory operation timed out"@,
    {
        match self {
            InventoryError::OperationFailed => "the native inventory operation failed",
            InventoryError::GetResultItemsFailed => "retrieving the native result items failed",
            InventoryError::InvalidInput => "invalid input",
            InventoryError::Timeout => "the native inventory operation timed out",
        }
    }
}

} // verus!
