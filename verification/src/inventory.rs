//! Inventory query/mutation facade: marshals the native enumerate and
//! consume operations into the caller-facing shapes.
//!
//! The native calls themselves are made by the embedding layer through
//! the injected client; this module is the pure half of each operation:
//! it builds the request handed to the native subsystem and maps the
//! outcome handed back, all-or-nothing.

use vstd::prelude::*;
use crate::codec::{BoundaryInt, boundary_value, decode_spec, encode, decode};
use crate::errors::{NativeErrorCode, InventoryError, map_native_error_spec, map_native_error};

verus! {

/// One native inventory record, as plain values: one stack instance of
/// an item definition.
#[derive(Clone, Copy, Debug, PartialEq, Eq, Structural)]
pub struct NativeItem {
    /// 64-bit unsigned id naming this specific stack.
    pub item_id: u64,
    /// Catalog id of the item type.
    pub definition: i32,
    /// Units in the stack (16-bit in the native record).
    pub quantity: u16,
    pub flags: u16,
}

/// One inventory stack as the host-facing caller sees it: an immutable
/// snapshot whose `item_id` is carried boundary-safe.
#[derive(Clone, Debug)]
pub struct ItemDetails {
    pub item_id: BoundaryInt,
    pub definition: i32,
    pub quantity: u16,
    pub flags: u16,
}

/// A caller-facing item faithfully reflects a native record: the id
/// crosses losslessly (it decodes back to exactly the native id) and the
/// remaining fields are copied unchanged.
pub open spec fn item_matches_native(d: ItemDetails, n: NativeItem) -> bool {
    &&& !d.item_id.negative
    &&& boundary_value(d.item_id) == n.item_id
    &&& decode_spec(d.item_id) == Some(n.item_id)
    &&& d.definition == n.definition
    &&& d.quantity == n.quantity
    &&& d.flags == n.flags
}

/// Marshals one native record into its caller-facing snapshot.
pub fn item_from_native(n: NativeItem) -> (d: ItemDetails)
    ensures
        item_matches_native(d, n),
{
    ItemDetails {
        item_id: encode(n.item_id),
        definition: n.definition,
        quantity: n.quantity,
        flags: n.flags,
    }
}

/// Marshals the outcome of the native enumerate request. Success is
/// all-or-nothing: every record is marshaled, in the order the native
/// layer produced, with no re-sorting and no deduplication; an empty
/// inventory stays an empty sequence, not an error. A native failure maps
/// one-to-one into the taxonomy, with no partial result.
pub fn get_all_items(fetched: Result<Vec<NativeItem>, NativeErrorCode>) -> (r: Result<
    Vec<ItemDetails>,
    InventoryError,
>)
    ensures
        fetched matches Ok(native) ==> (r matches Ok(items) && items@.len() == native@.len()
            && (forall|i: int|
                0 <= i < native@.len() ==> item_matches_native(#[trigger] items@[i], native@[i]))),
        fetched matches Err(code) ==> r == Err::<Vec<ItemDetails>, InventoryError>(
            map_native_error_spec(code),
        ),
        fetched matches Ok(native) && native@.len() == 0 ==> (r matches Ok(items) && items@.len()
            == 0),
{
    match fetched {
        Ok(native) => {
            let mut items: Vec<ItemDetails> = Vec::new();
            let mut i: usize = 0;
            while i < native.len()
                invariant
                    i <= native@.len(),
                    items@.len() == i,
                    forall|j: int|
                        0 <= j < i ==> item_matches_native(#[trigger] items@[j], native@[j]),
                decreases native@.len() - i,
            {
                let d = item_from_native(native[i]);
                items.push(d);
                i = i + 1;
            }
            Ok(items)
        },
        Err(code) => Err(map_native_error(code)),
    }
}

/// The request handed to the native consume/decrement call, with the
/// stack id already decoded to its native 64-bit form.
#[derive(Clone, Copy, Debug, PartialEq, Eq, Structural)]
pub struct ConsumeRequest {
    pub item_id: u64,
    pub quantity: u32,
}

/// Validates and decodes a consume call before any native request is
/// issued. A zero quantity is rejected up front as `InvalidInput` (the
/// chosen policy for the otherwise-unspecified zero case); an id that is
/// negative or beyond 64-bit unsigned range surfaces the codec's
/// `InvalidInput`. No inventory state is inspected here: whether the
/// stack holds enough units is left to the native layer.
///
/// The quantity is 32-bit, the canonical width of the interface; one
/// observed legacy variant carried it as 16-bit, a deliberate mismatch
/// kept on record rather than resolved by guesswork.
pub fn prepare_consume(item_id: &BoundaryInt, quantity: u32) -> (r: Result<
    ConsumeRequest,
    InventoryError,
>)
    ensures
        quantity == 0 ==> r == Err::<ConsumeRequest, InventoryError>(InventoryError::InvalidInput),
        quantity != 0 ==> match decode_spec(*item_id) {
            Some(id) => r == Ok::<ConsumeRequest, InventoryError>(
                (ConsumeRequest { item_id: id, quantity }),
            ),
            None => r == Err::<ConsumeRequest, InventoryError>(InventoryError::InvalidInput),
        },
{
    if quantity == 0 {
        return Err(InventoryError::InvalidInput);
    }
    match decode(item_id) {
        Ok(id) => Ok(ConsumeRequest { item_id: id, quantity }),
        Err(e) => Err(e),
    }
}

/// Marshals the outcome of the native consume call: success carries no
/// payload, and a native failure maps one-to-one into the taxonomy.
pub fn complete_consume(outcome: Result<(), NativeErrorCode>) -> (r: Result<(), InventoryError>)
    ensures
        outcome is Ok <==> r is Ok,
        outcome matches Err(code) ==> r == Err::<(), InventoryError>(map_native_error_spec(code)),
{
    match outcome {
        Ok(()) => Ok(()),
        Err(code) => Err(map_native_error(code)),
    }
}

} // verus!
