use rtpacket::checksum::{ChecksumOutcome, ChecksumVerificationResult};
use rtpacket::base::{BaseLayer, Layer, Payload};
use rtpacket::error::{DecodeError, ErrorDecodeable, PacketError};
use rtpacket::decode::{
    create_decode_payload, create_decode_unknown, decode_fragment, decoder_builder,
    fragment_decoder,
};
use rtpacket::layertype::{
    DecodeFunc, LayerRegistry, LayerType, LayerTypes, RegistryError, MAX_LAYER_TYPE,
};
use rtpacket::packet::{
    decoding_layer_decoder, layer_dump, new_packet, BytePool, DecodeOptions, EagerPacket,
    PacketLayer,
};
use rtpacket::source::{concat_step, ConcatStep, ReadOutcome};

fn fresh() -> EagerPacket {
    EagerPacket::new(vec![], DecodeOptions::default())
}

#[test]
fn test_default_options() {
    let options = DecodeOptions::default();
    assert!(!options.lazy, "Default should not be lazy.");
    assert!(!options.no_copy, "Default should not be no_copy.");
    assert!(!options.pool, "Default should not use pool.");
    assert!(
        !options.skip_decode_recovery,
        "Default should not skip decode recovery."
    );
    assert!(
        !options.decode_streams_as_datagrams,
        "Default should not decode streams as datagrams."
    );
}

#[test]
fn test_lazy_options() {
    let options = DecodeOptions::lazy();
    assert!(options.lazy, "Lazy options should be lazy.");
    assert!(!options.no_copy, "Lazy options should not be no_copy by default.");
    assert!(!options.pool, "Lazy options should not use pool by default.");
    assert!(
        !options.skip_decode_recovery,
        "Lazy options should not skip decode recovery by default."
    );
    assert!(
        !options.decode_streams_as_datagrams,
        "Lazy options should not decode streams as datagrams by default."
    );
}

#[test]
fn test_no_copy_options() {
    let options = DecodeOptions::no_copy();
    assert!(!options.lazy, "No-copy options should not be lazy by default.");
    assert!(options.no_copy, "No-copy options should be no_copy.");
    assert!(!options.pool, "No-copy options should not use pool by default.");
    assert!(
        !options.skip_decode_recovery,
        "No-copy options should not skip decode recovery by default."
    );
    assert!(
        !options.decode_streams_as_datagrams,
        "No-copy options should not decode streams as datagrams by default."
    );
}

#[test]
fn test_decode_streams_as_datagrams_options() {
    let options = DecodeOptions::decode_streams_as_datagrams();
    assert!(
        !options.lazy,
        "Decode streams as datagrams options should not be lazy by default."
    );
    assert!(
        !options.no_copy,
        "Decode streams as datagrams options should not be no_copy by default."
    );
    assert!(
        !options.pool,
        "Decode streams as datagrams options should not use pool by default."
    );
    assert!(
        !options.skip_decode_recovery,
        "Decode streams as datagrams options should not skip decode recovery by default."
    );
    assert!(
        options.decode_streams_as_datagrams,
        "Decode streams as datagrams options should decode streams as datagrams."
    );
}

#[test]
fn test_verify_checksums() {
    let mut packet = fresh();
    let correct_layer = PacketLayer::Payload(Payload::new_from(vec![1u8, 2, 3, 4]));
    let incorrect_layer = PacketLayer::Payload(Payload::new_from(vec![5u8, 6, 7, 8]));
    packet.add_layer(correct_layer);
    packet.add_layer(incorrect_layer);

    match packet.verify_checksums() {
        Ok(mismatches) => {
            println!("Checksums Ok");
            assert_eq!(mismatches.len(), 0, "Expected 0 checksum mismatch.");
        }
        Err(err) => {
            panic!("Unexpected error: {}", err.to_string())
        }
    }
}

#[test]
fn eager_packet_initialization() {
    let data: Vec<u8> = vec![0xde, 0xad, 0xbe, 0xef];
    let packet = EagerPacket::new(data.clone(), DecodeOptions::default());
    assert_eq!(packet.data, data);
    assert_eq!(packet.decode_options, DecodeOptions::default());
}

#[test]
fn set_truncated_flag() {
    let mut packet = fresh();
    assert!(
        !packet.metadata.truncated,
        "Packet should not be truncated initially."
    );
    packet.set_truncated();
    assert!(
        packet.metadata.truncated,
        "Packet should be marked as truncated after set_truncated call."
    );
}

#[test]
fn set_link_layer_success() {
    let packet = fresh();
    assert!(packet.link.is_none(), "Link layer should be None initially.");
}

#[test]
fn decodefragment_decode_adds_fragment_layer() {
    let decoder = decode_fragment;
    let mut packet_builder = fresh();
    let data0: Vec<u8> = vec![1, 2, 3, 4, 5];
    decoder(&data0, &mut packet_builder).unwrap();
    assert_eq!(
        &packet_builder.layers_count(),
        &1usize,
        "One layer should have been added."
    );
}

#[test]
fn decodepayload_decode_adds_fragment_layer() {
    let decoder = create_decode_payload;
    let mut packet_builder = fresh();
    let data: Vec<u8> = vec![1, 2, 3];
    decoder(&data, &mut packet_builder).unwrap();
    assert_eq!(packet_builder.layers_count(), 1usize);
}

#[test]
fn decode_handles_empty_data() {
    let decoder = create_decode_payload;
    let mut packet_builder = fresh();
    let data: Vec<u8> = vec![];
    decoder(&data, &mut packet_builder).unwrap();
    assert_eq!(&packet_builder.layers_count(), &1usize);
}

#[test]
fn decode_always_fails() {
    let decoder = create_decode_unknown;
    let data: Vec<u8> = vec![];
    let mut packet_builder = fresh();
    let result = decoder(&data, &mut packet_builder);
    match result {
        Err(e) => {
            println!("{:?}", e);
        }
        Ok(_) => assert!(false, "Decoder should not succeed"),
    }
    println!("test passed");
}

#[test]
fn add_layer_counts_one_per_call() {
    let mut p = fresh();
    for k in 0..5usize {
        assert_eq!(p.layers_count(), k);
        p.add_layer(PacketLayer::Payload(Payload::new()));
    }
    assert_eq!(p.layers_count(), 5);
}

#[test]
fn payload_decoding_of_three_bytes() {
    let p = new_packet(vec![1, 2, 3], DecodeFunc::Payload, DecodeOptions::default()).unwrap();
    assert_eq!(p.layers_count(), 1);
    let app = p.application_layer().expect("application layer");
    assert_eq!(app.layer_contents().unwrap(), vec![1u8, 2, 3]);
    assert!(p.error_layer().is_none());
    assert!(p.link_layer().is_none());
}

#[test]
fn next_decoder_without_layers_fails() {
    let mut p = fresh();
    let e = p.next_decoder(DecodeFunc::Payload).unwrap_err();
    assert_eq!(e.message, "next_decoder called, but no last layers found");
    assert_eq!(p.layers_count(), 0);
}

#[test]
fn next_decoder_on_empty_payload_adds_nothing() {
    let mut p = fresh();
    p.add_layer(PacketLayer::Payload(Payload::new_from(vec![1, 2])));
    assert!(p.next_decoder(DecodeFunc::Payload).is_ok());
    assert_eq!(p.layers_count(), 1);
    let mut q = fresh();
    q.add_layer(PacketLayer::Other(
        LayerType::new(40, "Header", DecodeFunc::Unknown),
        BaseLayer::new(vec![7], vec![]), ChecksumOutcome::NotSupported));
    assert!(q.next_decoder(DecodeFunc::Payload).is_ok());
    assert_eq!(q.layers_count(), 1);
}

#[test]
fn next_decoder_decodes_the_last_payload() {
    let mut p = EagerPacket::new(vec![7, 8, 9], DecodeOptions::default());
    p.add_layer(PacketLayer::Other(
        LayerType::new(40, "Header", DecodeFunc::Unknown),
        BaseLayer::new(vec![7], vec![8, 9]), ChecksumOutcome::NotSupported));
    assert!(p.next_decoder(DecodeFunc::Fragment).is_ok());
    assert_eq!(p.layers_count(), 2);
    assert_eq!(p.layers()[1].layer_contents().unwrap(), vec![8u8, 9]);
    assert_eq!(p.layers()[1].layer_type().id, LayerTypes::LayerTypeFragment.id());
    assert_eq!(p.application, Some(1));
}

#[test]
fn first_class_slot_stays() {
    let mut p = fresh();
    p.add_layer(PacketLayer::Payload(Payload::new_from(vec![1])));
    p.add_layer(PacketLayer::Payload(Payload::new_from(vec![2])));
    p.set_link_layer(0);
    p.set_link_layer(1);
    p.set_network_layer(1);
    p.set_network_layer(0);
    p.set_transport_layer(0);
    p.set_transport_layer(1);
    p.set_application_layer(1);
    p.set_application_layer(0);
    p.set_error_layer(0);
    p.set_error_layer(1);
    assert_eq!(p.link, Some(0));
    assert_eq!(p.network, Some(1));
    assert_eq!(p.transport, Some(0));
    assert_eq!(p.application, Some(1));
    assert_eq!(p.failure, Some(0));
}

#[test]
fn failed_decode_is_recorded() {
    let p = new_packet(vec![4, 5], DecodeFunc::Unknown, DecodeOptions::default()).unwrap();
    assert_eq!(p.layers_count(), 1);
    let failure = p.error_layer().expect("error layer");
    assert_eq!(failure.layer_contents().unwrap(), vec![4u8, 5]);
    assert_eq!(failure.layer_type().id, LayerTypes::LayerTypeDecodeFailure.id());
    assert!(p.application_layer().is_none());
}

#[test]
fn failed_decode_is_returned_when_recovery_is_skipped() {
    let mut options = DecodeOptions::default();
    options.skip_decode_recovery = true;
    let e = new_packet(vec![4, 5], DecodeFunc::Unknown, options).unwrap_err();
    assert_eq!(e.message, "decode unknown layer type");
}

#[test]
fn recover_decode_error_uses_last_payload() {
    let mut p = fresh();
    p.add_layer(PacketLayer::Other(
        LayerType::new(50, "Outer", DecodeFunc::Unknown),
        BaseLayer::new(vec![1], vec![2, 3]), ChecksumOutcome::NotSupported));
    p.recover_decode_error();
    assert_eq!(p.layers_count(), 2);
    assert_eq!(p.failure, Some(1));
    assert_eq!(p.layers()[1].layer_contents().unwrap(), vec![2u8, 3]);
    let mut skip = DecodeOptions::default();
    skip.skip_decode_recovery = true;
    let mut q = EagerPacket::new(vec![1], skip);
    q.recover_decode_error();
    assert_eq!(q.layers_count(), 0);
}

#[test]
fn layer_lookup_by_type_and_class() {
    let mut p = fresh();
    p.add_layer(PacketLayer::Payload(Payload::new_from(vec![1])));
    p.add_layer(PacketLayer::Other(
        LayerType::new(60, "Sixty", DecodeFunc::Unknown),
        BaseLayer::new(vec![6], vec![]), ChecksumOutcome::NotSupported));
    p.add_layer(PacketLayer::Other(
        LayerType::new(60, "Sixty", DecodeFunc::Unknown),
        BaseLayer::new(vec![7], vec![]), ChecksumOutcome::NotSupported));
    assert_eq!(p.layer(60).unwrap().layer_contents().unwrap(), vec![6u8]);
    assert!(p.layer(61).is_none());
    let class = rtpacket::layerclass::new_layer_class(&[60, 2]);
    assert_eq!(p.layer_class(&class).unwrap().layer_contents().unwrap(), vec![1u8]);
    let none = rtpacket::layerclass::new_layer_class(&[3]);
    assert!(p.layer_class(&none).is_none());
}

#[test]
fn decoding_layer_decoder_appends_the_layer() {
    let mut p = fresh();
    let layer = PacketLayer::Payload(Payload::new());
    assert!(decoding_layer_decoder(layer, &[5, 6], &mut p).is_ok());
    assert_eq!(p.layers_count(), 1);
    assert_eq!(p.layers()[0].layer_contents().unwrap(), vec![5u8, 6]);
    let other = PacketLayer::Other(
        LayerType::new(70, "Seventy", DecodeFunc::Unknown),
        BaseLayer::new(vec![], vec![]), ChecksumOutcome::NotSupported);
    let e = decoding_layer_decoder(other, &[1], &mut p).unwrap_err();
    assert_eq!(e.message, "no decoding layer method found");
    assert_eq!(p.layers_count(), 1);
}

#[test]
fn decoders_for_reserved_types() {
    assert_eq!(decoder_builder(LayerTypes::LayerTypeZero), DecodeFunc::Unknown);
    assert_eq!(decoder_builder(LayerTypes::LayerTypeDecodeFailure), DecodeFunc::Unknown);
    assert_eq!(decoder_builder(LayerTypes::LayerTypePayload), DecodeFunc::Payload);
    assert_eq!(decoder_builder(LayerTypes::LayerTypeFragment), DecodeFunc::Fragment);
    assert_eq!(fragment_decoder(), DecodeFunc::Fragment);
}

#[test]
fn registry_binds_ids_once() {
    let mut reg = LayerRegistry::new();
    assert_eq!(reg.decoder_for(2), Ok(DecodeFunc::Payload));
    assert_eq!(reg.decoder_for(3), Ok(DecodeFunc::Fragment));
    assert_eq!(reg.decoder_for(0), Ok(DecodeFunc::Unknown));
    assert_eq!(reg.decoder_for(99), Err(RegistryError::UnknownLayerType(99)));
    let meta = LayerType::new(99, "Custom", DecodeFunc::Fragment);
    assert_eq!(reg.register_layer(&meta, 99), Ok(99));
    assert_eq!(reg.decoder_for(99), Ok(DecodeFunc::Fragment));
    assert_eq!(reg.register_layer(&meta, 99), Err(RegistryError::AlreadyRegistered(99)));
    assert_eq!(reg.register_layer(&meta, 2), Err(RegistryError::AlreadyRegistered(2)));
    let far = (MAX_LAYER_TYPE + 10) as isize;
    assert_eq!(reg.register_layer(&meta, far), Ok(MAX_LAYER_TYPE + 10));
    assert_eq!(reg.decoder_for(MAX_LAYER_TYPE + 10), Ok(DecodeFunc::Fragment));
    assert_eq!(
        reg.register_layer(&meta, far),
        Err(RegistryError::AlreadyRegistered(MAX_LAYER_TYPE + 10))
    );
}

#[test]
fn packet_descriptions() {
    let mut p = EagerPacket::new(vec![0xab, 0x01], DecodeOptions::default());
    p.metadata.timestamp = 5;
    p.add_layer(PacketLayer::Payload(Payload::new_from(vec![0xab, 0x01])));
    assert_eq!(
        p.packet_string(),
        "Packet: 2 bytes @ 5\n- Layer 1 (2 bytes) = 2 byte(s)\n"
    );
    p.set_truncated();
    p.metadata.length = 9;
    p.metadata.capture_length = 2;
    assert!(p
        .packet_string()
        .starts_with("Packet: 2 bytes, truncated, wire length: 9 cap length: 2 @ 5\n"));
    assert_eq!(
        p.packet_dump(),
        "-- FULL PACKET DATA (2 bytes) ------------------------------------\nab01\n--- Layer 1 ---\n2 byte(s)\nab01\n\n"
    );
    assert_eq!(layer_dump(&p.layers()[0]), "2 byte(s)\nab01\n");
}

#[test]
fn byte_pool_reuses_buffers() {
    let mut pool = BytePool::new(16);
    let v = pool.get();
    assert_eq!(v.len(), 0);
    let mut w = Vec::with_capacity(8);
    w.push(1u8);
    pool.put(w);
    let again = pool.get();
    assert_eq!(again.len(), 0);
    assert!(again.capacity() >= 1);
    pool.put(Vec::with_capacity(64));
    let fresh_one = pool.get();
    assert_eq!(fresh_one.len(), 0);
}

#[test]
fn concat_steps() {
    assert_eq!(concat_step(0, None), ConcatStep::Exhausted);
    assert_eq!(concat_step(2, None), ConcatStep::Read);
    assert_eq!(concat_step(2, Some(ReadOutcome::Data)), ConcatStep::Deliver);
    assert_eq!(concat_step(1, Some(ReadOutcome::EndOfFile)), ConcatStep::DropSource);
    assert_eq!(concat_step(1, Some(ReadOutcome::Failure)), ConcatStep::Fail);
}

fn checked(id: usize, outcome: ChecksumOutcome) -> PacketLayer {
    PacketLayer::Other(
        LayerType::new(id, "Checked", DecodeFunc::Unknown),
        BaseLayer::new(vec![1], vec![]),
        outcome,
    )
}

#[test]
fn checksum_mismatches_are_collected() {
    let mut p = fresh();
    let good = ChecksumVerificationResult { valid: true, correct: 7, actual: 7 };
    let bad = ChecksumVerificationResult { valid: false, correct: 7, actual: 9 };
    p.add_layer(checked(90, ChecksumOutcome::Verified(good)));
    p.add_layer(PacketLayer::Payload(Payload::new_from(vec![1])));
    p.add_layer(checked(91, ChecksumOutcome::Verified(bad)));
    p.add_layer(checked(92, ChecksumOutcome::NotSupported));
    let v = p.verify_checksums().unwrap();
    assert_eq!(v.len(), 1);
    assert_eq!(v[0].layer_index, 2);
    assert_eq!(v[0].layer_type, 91);
    assert_eq!(v[0].result.actual, 9);
}

#[test]
fn checksum_verification_failure_stops_the_walk() {
    let mut p = fresh();
    let bad = ChecksumVerificationResult { valid: false, correct: 1, actual: 2 };
    p.add_layer(checked(90, ChecksumOutcome::Verified(bad)));
    p.add_layer(checked(91, ChecksumOutcome::Failed("length field too short".to_string())));
    p.add_layer(checked(92, ChecksumOutcome::Failed("other".to_string())));
    let e = p.verify_checksums().unwrap_err();
    assert_eq!(e.message, "could not verify checksum for layer 2");
    match e.source.as_deref() {
        Some(PacketError::VerifyChecksum(inner)) => {
            assert_eq!(inner.message, "length field too short")
        }
        _ => panic!("cause lost"),
    }
}

#[test]
fn failure_layer_keeps_the_given_error() {
    let mut p = EagerPacket::new(vec![3, 4], DecodeOptions::default());
    p.add_final_decode_error(DecodeError::new("truncated header", None));
    match p.error_layer() {
        Some(PacketLayer::Failure(f)) => {
            assert_eq!(f.err.message, "truncated header");
            assert_eq!(f.layer_contents().unwrap(), vec![3u8, 4]);
        }
        _ => panic!("no failure layer"),
    }
}

#[test]
fn pool_keeps_only_small_buffers() {
    let mut pool = BytePool::new(16);
    pool.recycle(vec![1, 2], 16);
    pool.recycle(vec![1, 2], 17);
    let v = pool.get();
    assert_eq!(v.len(), 0);
    assert_eq!(v.capacity() >= 2, true);
}
