//! Purchase orchestrator: the synchronous half of the fire-and-forget
//! purchase flow.
//!
//! `start_purchase` validates the call and builds the request the
//! embedding layer forwards to the native store backend together with a
//! one-shot completion handler; it never blocks and returns no success
//! indication. The completion arrives later, possibly on another thread,
//! and is marshaled by `complete_purchase`, a pure function of that one
//! purchase's own native outcome alone — the orchestrator holds no
//! cross-call state, so concurrent purchases share nothing here.

use vstd::prelude::*;
use crate::codec::{BoundaryInt, boundary_value, decode_spec, encode};
use crate::errors::{NativeErrorCode, InventoryError, map_native_error_spec, map_native_error};

verus! {

/// A requested quantity of a catalog item, not yet owned (32-bit
/// quantity: the canonical superset of the observed interface).
#[derive(Clone, Copy, Debug, PartialEq, Eq, Structural)]
pub struct PurchaseLineItem {
    pub definition_id: i32,
    pub quantity: u32,
}

/// The validated request handed to the native store backend: a non-empty
/// line-item sequence, passed through unchanged.
#[derive(Clone, Debug)]
pub struct PurchaseRequest {
    pub items: Vec<PurchaseLineItem>,
}

impl PurchaseRequest {
    /// Well-formedness: a request is only ever built from a non-empty
    /// line-item sequence.
    pub open spec fn wf(self) -> bool {
        self.items@.len() > 0
    }
}

/// Validates a purchase initiation. An empty line-item sequence fails
/// synchronously with `InvalidInput` and no request is produced, so
/// nothing reaches the native layer; a non-empty sequence yields the
/// request to forward, with the line items unchanged and in order. All
/// other outcomes are delivered later through the completion path.
pub fn start_purchase(items: Vec<PurchaseLineItem>) -> (r: Result<PurchaseRequest, InventoryError>)
    ensures
        items@.len() == 0 <==> r == Err::<PurchaseRequest, InventoryError>(
            InventoryError::InvalidInput,
        ),
        items@.len() > 0 ==> (r matches Ok(req) && req.items@ == items@ && req.wf()),
{
    if items.len() == 0 {
        Err(InventoryError::InvalidInput)
    } else {
        Ok(PurchaseRequest { items })
    }
}

/// What the native store backend reports when a purchase attempt
/// resolves successfully, as plain values.
#[derive(Clone, Copy, Debug, PartialEq, Eq, Structural)]
pub struct NativePurchaseResult {
    pub order_id: u64,
    pub trans_id: u64,
}

/// The completion the caller receives: both backend identifiers carried
/// boundary-safe.
#[derive(Clone, Debug)]
pub struct PurchaseResult {
    pub order_id: BoundaryInt,
    pub transaction_id: BoundaryInt,
}

/// A caller-facing completion faithfully reflects the native one: both
/// identifiers cross losslessly, each decoding back to exactly the
/// native value.
pub open spec fn purchase_matches_native(p: PurchaseResult, n: NativePurchaseResult) -> bool {
    &&& !p.order_id.negative
    &&& !p.transaction_id.negative
    &&& boundary_value(p.order_id) == n.order_id
    &&& boundary_value(p.transaction_id) == n.trans_id
    &&& decode_spec(p.order_id) == Some(n.order_id)
    &&& decode_spec(p.transaction_id) == Some(n.trans_id)
}

/// Marshals one purchase completion: a function of this purchase's own
/// native outcome alone. Success carries the order and transaction ids
/// losslessly; a native failure maps one-to-one into the taxonomy.
pub fn complete_purchase(outcome: Result<NativePurchaseResult, NativeErrorCode>) -> (r: Result<
    PurchaseResult,
    InventoryError,
>)
    ensures
        outcome is Ok <==> r is Ok,
        outcome matches Ok(n) ==> (r matches Ok(p) && purchase_matches_native(p, n)),
        outcome matches Err(code) ==> r == Err::<PurchaseResult, InventoryError>(
            map_native_error_spec(code),
        ),
{
    match outcome {
        Ok(n) => Ok(
            PurchaseResult {
                order_id: encode(n.order_id),
                transaction_id: encode(n.trans_id),
            },
        ),
        Err(code) => Err(map_native_error(code)),
    }
}

} // verus!
