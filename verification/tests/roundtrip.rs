use outcome_bridge::codec::try_encode;
use outcome_bridge::heap::ErrorHeap;

#[test]
fn round_trip_success_integer() {
    let mut heap = ErrorHeap::new();
    let mut slot: Option<u64> = None;
    let outcome = try_encode(&mut slot, Ok(42u64), &mut heap);
    assert_eq!(outcome.first_word(), 0);
    let decoded = outcome.exception(&mut heap);
    assert!(matches!(decoded, Ok(())));
    assert_eq!(slot, Some(42u64));
    assert_eq!(heap.allocation_count(), 0);
    assert_eq!(heap.release_count(), 0);
}

#[test]
fn round_trip_success_string_payload() {
    let mut heap = ErrorHeap::new();
    let mut slot: Option<String> = None;
    let outcome = try_encode(&mut slot, Ok(String::from("payload")), &mut heap);
    assert_eq!(outcome.first_word(), 0);
    let decoded = outcome.exception(&mut heap);
    assert!(matches!(decoded, Ok(())));
    assert_eq!(slot, Some(String::from("payload")));
}

#[test]
fn round_trip_failure_message() {
    let mut heap = ErrorHeap::new();
    let mut slot: Option<u64> = None;
    let msg = b"file not found".to_vec();
    let outcome = try_encode(&mut slot, Err::<u64, Vec<u8>>(msg), &mut heap);
    assert_ne!(outcome.first_word(), 0);
    assert!(slot.is_none());
    assert_eq!(heap.allocation_count(), 1);
    let decoded = outcome.exception(&mut heap);
    let carrier = match decoded {
        Err(c) => c,
        Ok(()) => panic!("expected a failure carrier"),
    };
    assert_eq!(carrier.what().as_slice(), b"file not found");
    assert_eq!(carrier.message_len(), 14);
    carrier.dispose(&mut heap);
    assert_eq!(heap.allocation_count(), 1);
    assert_eq!(heap.release_count(), 1);
}

#[test]
fn round_trip_failure_empty_message() {
    let mut heap = ErrorHeap::new();
    let mut slot: Option<u64> = None;
    let outcome = try_encode(&mut slot, Err::<u64, Vec<u8>>(Vec::new()), &mut heap);
    assert_ne!(outcome.first_word(), 0);
    let decoded = outcome.exception(&mut heap);
    let carrier = match decoded {
        Err(c) => c,
        Ok(()) => panic!("expected a failure carrier, not an absent message"),
    };
    assert_eq!(carrier.message_len(), 0);
    assert!(carrier.what().is_empty());
}

#[test]
fn embedded_null_bytes_survive_and_terminator_stays_invisible() {
    let mut heap = ErrorHeap::new();
    let mut slot: Option<u8> = None;
    let msg = b"a\0b".to_vec();
    let outcome = try_encode(&mut slot, Err::<u8, Vec<u8>>(msg), &mut heap);
    let carrier = match outcome.exception(&mut heap) {
        Err(c) => c,
        Ok(()) => panic!("expected a failure carrier"),
    };
    // the reported length counts the three message bytes, never the
    // trailing terminator byte the encoder stored after them
    assert_eq!(carrier.message_len(), 3);
    assert_eq!(carrier.what().as_slice(), b"a\0b");
}

#[test]
fn multi_byte_utf8_message_is_not_corrupted() {
    let mut heap = ErrorHeap::new();
    let mut slot: Option<u64> = None;
    let text = "n\u{e4}chster Fehler \u{2014} \u{4f8b}\u{5916}";
    let outcome = try_encode(&mut slot, Err::<u64, Vec<u8>>(text.as_bytes().to_vec()), &mut heap);
    let carrier = match outcome.exception(&mut heap) {
        Err(c) => c,
        Ok(()) => panic!("expected a failure carrier"),
    };
    assert_eq!(carrier.message_len(), text.len());
    assert_eq!(String::from_utf8(carrier.what().clone()).unwrap(), text);
}

#[test]
fn allocations_and_releases_match_one_to_one() {
    let mut heap = ErrorHeap::new();
    let mut slot_a: Option<u32> = None;
    let mut slot_b: Option<u32> = None;
    let first = try_encode(&mut slot_a, Err::<u32, Vec<u8>>(b"first".to_vec()), &mut heap);
    let second = try_encode(&mut slot_b, Err::<u32, Vec<u8>>(b"second".to_vec()), &mut heap);
    assert_eq!(heap.allocation_count(), 2);
    assert_eq!(heap.release_count(), 0);

    // decode in the reverse of the encoding order: each reference still
    // finds its own buffer, and each backing buffer is released exactly
    // once, when its carrier is disposed of
    let carrier_b = match second.exception(&mut heap) {
        Err(c) => c,
        Ok(()) => panic!("expected a failure carrier"),
    };
    let carrier_a = match first.exception(&mut heap) {
        Err(c) => c,
        Ok(()) => panic!("expected a failure carrier"),
    };
    assert_eq!(carrier_a.what().as_slice(), b"first");
    assert_eq!(carrier_b.what().as_slice(), b"second");

    carrier_b.dispose(&mut heap);
    assert_eq!(heap.release_count(), 1);
    carrier_a.dispose(&mut heap);
    assert_eq!(heap.allocation_count(), 2);
    assert_eq!(heap.release_count(), 2);
}

#[test]
fn success_discriminator_is_null_for_any_payload() {
    let mut heap = ErrorHeap::new();

    let mut int_slot: Option<i64> = None;
    let ok_int = try_encode(&mut int_slot, Ok(-7i64), &mut heap);
    assert_eq!(ok_int.first_word(), 0);

    let mut vec_slot: Option<Vec<u8>> = None;
    let ok_vec = try_encode(&mut vec_slot, Ok(vec![1u8, 2u8]), &mut heap);
    assert_eq!(ok_vec.first_word(), 0);

    let mut unit_slot: Option<()> = None;
    let err_unit = try_encode(&mut unit_slot, Err::<(), Vec<u8>>(Vec::new()), &mut heap);
    assert_ne!(err_unit.first_word(), 0);

    let mut other_slot: Option<()> = None;
    let err_text = try_encode(&mut other_slot, Err::<(), Vec<u8>>(b"boom".to_vec()), &mut heap);
    assert_ne!(err_text.first_word(), 0);
}
