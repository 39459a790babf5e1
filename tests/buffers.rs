use rtpacket::checksum::ChecksumOutcome;
use rtpacket::base::{BaseLayer, DecodeFailure, Fragment, Payload};
use rtpacket::error::{DecodeError, ErrorDecodeable};
use rtpacket::layertype::{DecodeFunc, LayerType, LayerTypes};
use rtpacket::packet::PacketLayer;
use rtpacket::writer::{serialize_layers, SerializeBuffer, SerializeOptions};

#[test]
fn mod_test_exponential_size_increase_prepend() {
    let mut b = SerializeBuffer::new();
    let tests = [
        (2, 2),
        (2, 4),
        (2, 8),
        (2, 8),
        (2, 16),
        (2, 16),
        (2, 16),
        (2, 16),
        (2, 32),
    ];
    for (i, &(prepend, size)) in tests.iter().enumerate() {
        let err = b.prepend_bytes(prepend);
        match err {
            Ok(_) => {
                assert_eq!(
                    b.capacity(),
                    size,
                    "At iteration {}: expected size {}, got {}",
                    i,
                    size,
                    b.capacity()
                );
            }
            Err(_) => {
                panic!(
                    "At iteration {}: expected size {}, got {}",
                    i,
                    size,
                    b.capacity()
                );
            }
        }
    }
    b.clear();
    assert_eq!(
        b.start(),
        32,
        "Expected start to be 32 after clear, got {}",
        b.start()
    );
}

#[test]
fn test_exponential_size_increase_append() {
    let mut b = SerializeBuffer::new();
    let tests = vec![
        (2, 8),
        (2, 8),
        (2, 8),
        (2, 8),
        (2, 16),
        (2, 16),
        (2, 16),
        (2, 16),
        (2, 32),
        (2, 32),
    ];
    for (i, (appnd, size)) in tests.iter().enumerate() {
        b.append_bytes(*appnd).expect("TODO: panic message");
        assert_eq!(
            b.capacity(),
            *size,
            "Test {}: Expected size {}, got {}",
            i,
            size,
            b.capacity()
        );
    }
    b.clear();
    assert_eq!(b.start(), 0, "Expected start position 0, got {}", b.start());
}

#[test]
fn writer_test_exponential_size_increase_prepend() {
    let mut b = SerializeBuffer::new();
    let tests = [
        (2, 2),
        (2, 4),
        (2, 8),
        (2, 8),
        (2, 16),
        (2, 16),
        (2, 16),
        (2, 16),
        (2, 32),
    ];
    for (i, &(prepend, size)) in tests.iter().enumerate() {
        let _ = b.prepend_bytes(prepend);
        assert_eq!(
            b.capacity(),
            size,
            "At iteration {}: expected size {}, got {}",
            i,
            size,
            b.capacity()
        );
    }
    b.clear();
}

#[test]
fn clear_keeps_the_prepend_margin() {
    let mut b = SerializeBuffer::new();
    b.prepend_bytes(3).unwrap();
    b.write_bytes(0, &[7, 8, 9]);
    assert_eq!(b.bytes(), &[7, 8, 9]);
    b.clear();
    assert_eq!(b.bytes().len(), 0);
    assert_eq!(b.start(), 3);
    b.prepend_bytes(3).unwrap();
    assert_eq!(b.capacity(), 3);
    assert_eq!(b.start(), 0);
}

#[test]
fn append_then_prepend_keeps_the_window() {
    let mut b = SerializeBuffer::new();
    b.append_bytes(2).unwrap();
    b.write_bytes(0, &[3, 4]);
    b.prepend_bytes(1).unwrap();
    b.write_bytes(0, &[2]);
    b.append_bytes(1).unwrap();
    b.write_bytes(3, &[5]);
    assert_eq!(b.bytes(), &[2, 3, 4, 5]);
}

#[test]
fn new_default_reserves_a_margin() {
    let mut b = SerializeBuffer::new_default(4, 4);
    assert_eq!(b.start(), 4);
    assert_eq!(b.bytes().len(), 0);
    b.prepend_bytes(4).unwrap();
    assert_eq!(b.start(), 0);
    assert_eq!(b.bytes(), &[0, 0, 0, 0]);
}

#[test]
fn serialize_layers_writes_innermost_first() {
    let mut b = SerializeBuffer::new();
    let layers = vec![
        Payload::new_from(vec![1, 2]),
        Payload::new_from(vec![3]),
        Payload::new_from(vec![4, 5]),
    ];
    serialize_layers(&mut b, SerializeOptions::default(), &layers).unwrap();
    assert_eq!(b.bytes(), &[1, 2, 3, 4, 5]);
    assert_eq!(b.layers().len(), 3);
    assert_eq!(b.layers()[0].id, LayerTypes::LayerTypePayload.id());

    let frags = vec![Fragment::new_from(vec![9]), Fragment::new()];
    let e = serialize_layers(&mut b, SerializeOptions::default(), &frags).unwrap_err();
    assert_eq!(e.to_string(), "in_data is empty");

    let again = vec![Fragment::new_from(vec![6])];
    serialize_layers(&mut b, SerializeOptions::default(), &again).unwrap();
    assert_eq!(b.bytes(), &[6]);
    assert_eq!(b.layers()[0].id, LayerTypes::LayerTypeFragment.id());
}

#[test]
fn mixed_layers_serialize_in_reverse() {
    let mut b = SerializeBuffer::new();
    let layers = vec![
        PacketLayer::Fragment(Fragment::new_from(vec![1])),
        PacketLayer::Payload(Payload::new_from(vec![2, 3])),
    ];
    serialize_layers(&mut b, SerializeOptions::default(), &layers).unwrap();
    assert_eq!(b.bytes(), &[1, 2, 3]);
    assert_eq!(b.layers()[0].id, LayerTypes::LayerTypePayload.id());
    assert_eq!(b.layers()[1].id, LayerTypes::LayerTypeFragment.id());

    let not_written = vec![
        PacketLayer::Other(LayerType::new(80, "Eighty", DecodeFunc::Unknown), BaseLayer::new(vec![1], vec![]), ChecksumOutcome::NotSupported),
        PacketLayer::Failure(DecodeFailure::new(vec![], DecodeError::new("e", None), vec![])),
    ];
    let e = serialize_layers(&mut b, SerializeOptions::default(), &not_written).unwrap_err();
    assert_eq!(e.to_string(), "layer is not serializable");
}

#[test]
fn serializing_no_layers_empties_the_buffer() {
    let mut b = SerializeBuffer::new();
    b.append_bytes(3).unwrap();
    let none: Vec<Payload> = vec![];
    assert!(serialize_layers(&mut b, SerializeOptions::default(), &none).is_ok());
    assert_eq!(b.bytes().len(), 0);
    assert_eq!(b.layers().len(), 0);
}

#[test]
fn failed_serialization_keeps_the_types_written_before() {
    let mut b = SerializeBuffer::new();
    let layers = vec![Payload::new(), Payload::new_from(vec![1]), Payload::new_from(vec![2])];
    let e = serialize_layers(&mut b, SerializeOptions::default(), &layers).unwrap_err();
    assert_eq!(e.to_string(), "in_data is empty");
    assert_eq!(b.layers().len(), 2);
    assert_eq!(b.bytes(), &[1, 2]);
}
