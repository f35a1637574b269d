use inventory_boundary::codec::{encode, decode, BoundaryInt};
use inventory_boundary::errors::{NativeErrorCode, InventoryError};
use inventory_boundary::inventory::{
    get_all_items, prepare_consume, complete_consume, NativeItem, ConsumeRequest,
};

/// A fake native backend owning one stack, standing in for the injected
/// native inventory client.
struct FakeStack {
    item_id: u64,
    quantity: u32,
}

impl FakeStack {
    fn consume(&mut self, req: &ConsumeRequest) -> Result<(), NativeErrorCode> {
        if req.item_id == self.item_id && req.quantity <= self.quantity {
            self.quantity -= req.quantity;
            Ok(())
        } else {
            Err(NativeErrorCode::OperationFailed)
        }
    }
}

#[test]
fn empty_inventory_is_empty_sequence_not_error() {
    let r = get_all_items(Ok(vec![]));
    assert!(matches!(r, Ok(ref items) if items.is_empty()));
}

#[test]
fn single_record_is_marshaled_faithfully() {
    let native = NativeItem { item_id: 100, definition: 7, quantity: 3, flags: 0 };
    let r = get_all_items(Ok(vec![native])).unwrap();
    assert_eq!(r.len(), 1);
    assert_eq!(decode(&r[0].item_id), Ok(100));
    assert_eq!(r[0].definition, 7);
    assert_eq!(r[0].quantity, 3);
    assert_eq!(r[0].flags, 0);
}

#[test]
fn order_is_preserved() {
    let native = vec![
        NativeItem { item_id: 30, definition: 3, quantity: 1, flags: 0 },
        NativeItem { item_id: 10, definition: 1, quantity: 2, flags: 4 },
        NativeItem { item_id: 20, definition: 2, quantity: 3, flags: 8 },
    ];
    let r = get_all_items(Ok(native.clone())).unwrap();
    assert_eq!(r.len(), 3);
    for (d, n) in r.iter().zip(native.iter()) {
        assert_eq!(decode(&d.item_id), Ok(n.item_id));
        assert_eq!(d.definition, n.definition);
        assert_eq!(d.quantity, n.quantity);
        assert_eq!(d.flags, n.flags);
    }
}

#[test]
fn item_id_survives_beyond_double_precision() {
    let big: u64 = 9007199254740993; // 2^53 + 1
    let native = NativeItem { item_id: big, definition: 1, quantity: 1, flags: 0 };
    let r = get_all_items(Ok(vec![native])).unwrap();
    assert_eq!(decode(&r[0].item_id), Ok(big));
}

#[test]
fn enumerate_failure_maps_one_to_one() {
    assert_eq!(
        get_all_items(Err(NativeErrorCode::OperationFailed)).unwrap_err(),
        InventoryError::OperationFailed
    );
    assert_eq!(
        get_all_items(Err(NativeErrorCode::GetResultItemsFailed)).unwrap_err(),
        InventoryError::GetResultItemsFailed
    );
    assert_eq!(
        get_all_items(Err(NativeErrorCode::Timeout)).unwrap_err(),
        InventoryError::Timeout
    );
}

#[test]
fn consume_exact_stack_succeeds_with_no_payload() {
    let mut stack = FakeStack { item_id: 100, quantity: 3 };
    let req = prepare_consume(&encode(100), 3).unwrap();
    assert_eq!(req, ConsumeRequest { item_id: 100, quantity: 3 });
    let r = complete_consume(stack.consume(&req));
    assert_eq!(r, Ok(()));
    assert_eq!(stack.quantity, 0);
}

#[test]
fn consume_more_than_available_is_operation_failed() {
    let mut stack = FakeStack { item_id: 100, quantity: 3 };
    let req = prepare_consume(&encode(100), 4).unwrap();
    let r = complete_consume(stack.consume(&req));
    assert_eq!(r, Err(InventoryError::OperationFailed));
    assert_eq!(stack.quantity, 3);
}

#[test]
fn consume_zero_quantity_is_rejected_before_any_native_request() {
    assert_eq!(prepare_consume(&encode(100), 0), Err(InventoryError::InvalidInput));
}

#[test]
fn consume_negative_id_is_invalid_input() {
    let b = BoundaryInt { negative: true, words: vec![100] };
    assert_eq!(prepare_consume(&b, 1), Err(InventoryError::InvalidInput));
}

#[test]
fn consume_oversized_id_is_invalid_input() {
    let b = BoundaryInt { negative: false, words: vec![0, 1] };
    assert_eq!(prepare_consume(&b, 1), Err(InventoryError::InvalidInput));
}
