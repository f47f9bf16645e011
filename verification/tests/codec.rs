//! End-to-end tests of the processor-state codec: layout round trips, bounds
//! rejection, and the stall guard on malformed compressed input.
use mindus::block::{DeserializeError, SerializeError, State};
use mindus::data::{DataRead, DataWrite, ReadError};
use mindus::logic::{ProcessorDeserializeError, ProcessorLink, ProcessorLogic, ProcessorState,
    parse_processor_state, write_processor_state};
use mindus::stream::{compress, decompress};

fn processor() -> ProcessorLogic {
    ProcessorLogic::new(1)
}

fn sample_state() -> ProcessorState {
    let mut st = ProcessorState::new();
    st.set_code("print(1)").unwrap();
    st.create_link("display1".to_owned(), 1, 0).unwrap();
    st
}

#[test]
fn scenario_round_trip() {
    let st = sample_state();
    let logic = processor();
    let data = logic
        .serialize_state(&State::Processor(st.clone()))
        .unwrap();
    assert!(matches!(data, mindus::dynamic::DynData::ByteArray(_)));
    let back = logic.deserialize_state(data).unwrap().unwrap();
    match back {
        State::Processor(got) => {
            assert_eq!(got, st);
            assert_eq!(got.get_code(), "print(1)");
            let links = got.get_links();
            assert_eq!(links.len(), 1);
            assert_eq!(links[0].get_name(), "display1");
            assert_eq!(links[0].get_pos(), (1, 0));
        }
        _ => panic!("wrong state kind"),
    }
}

#[test]
fn empty_state_round_trip() {
    let st = ProcessorState::new();
    let logic = processor();
    let data = logic
        .serialize_state(&State::Processor(st.clone()))
        .unwrap();
    let back = logic.deserialize_state(data).unwrap().unwrap();
    assert!(matches!(back, State::Processor(got) if got == st));
}

#[test]
fn empty_config_is_fresh_processor() {
    let logic = processor();
    let back = logic
        .deserialize_state(mindus::dynamic::DynData::Empty)
        .unwrap()
        .unwrap();
    match back {
        State::Processor(got) => {
            assert_eq!(got.get_code(), "");
            assert!(got.get_links().is_empty());
        }
        _ => panic!("wrong state kind"),
    }
}

#[test]
fn layout_round_trip_many_links() {
    let mut st = ProcessorState::new();
    st.set_code("x = read(cell1, 0)\nprint(x)").unwrap();
    for i in 0..20i16 {
        st.create_link(format!("cell{i}"), i, -i).unwrap();
    }
    let raw = write_processor_state(&st);
    let got = parse_processor_state(&raw).unwrap();
    assert_eq!(got, st);
}

#[test]
fn bad_version_rejected() {
    let mut w = DataWrite::new();
    w.write_u8(2);
    w.write_i32(0);
    w.write_i32(0);
    let raw = w.into_data();
    assert!(matches!(
        parse_processor_state(&raw),
        Err(ProcessorDeserializeError::Version(2))
    ));
    let blob = compress(&raw).unwrap();
    let r = processor().deserialize_state(mindus::dynamic::DynData::ByteArray(blob));
    assert!(matches!(
        r,
        Err(DeserializeError::Processor(ProcessorDeserializeError::Version(2)))
    ));
}

#[test]
fn oversized_code_length_rejected() {
    let mut w = DataWrite::new();
    w.write_u8(1);
    w.write_i32(512001);
    let raw = w.into_data();
    assert!(matches!(
        parse_processor_state(&raw),
        Err(ProcessorDeserializeError::CodeLength(512001))
    ));
}

#[test]
fn negative_code_length_rejected() {
    let mut w = DataWrite::new();
    w.write_u8(1);
    w.write_i32(-5);
    let raw = w.into_data();
    assert!(matches!(
        parse_processor_state(&raw),
        Err(ProcessorDeserializeError::CodeLength(-5))
    ));
}

#[test]
fn negative_link_count_rejected() {
    let mut w = DataWrite::new();
    w.write_u8(1);
    w.write_i32(0);
    w.write_i32(-1);
    let raw = w.into_data();
    assert!(matches!(
        parse_processor_state(&raw),
        Err(ProcessorDeserializeError::LinkCount(-1))
    ));
    let blob = compress(&raw).unwrap();
    let r = processor().deserialize_state(mindus::dynamic::DynData::ByteArray(blob));
    assert!(matches!(
        r,
        Err(DeserializeError::Processor(ProcessorDeserializeError::LinkCount(-1)))
    ));
}

#[test]
fn truncated_layout_rejected() {
    let mut w = DataWrite::new();
    w.write_u8(1);
    w.write_i32(8);
    w.write_bytes(b"only4");
    let raw = w.into_data();
    assert!(matches!(
        parse_processor_state(&raw),
        Err(ProcessorDeserializeError::Read(ReadError::Underflow))
    ));
}

#[test]
fn invalid_code_utf8_rejected() {
    let mut w = DataWrite::new();
    w.write_u8(1);
    w.write_i32(2);
    w.write_bytes(&[0xff, 0xfe]);
    w.write_i32(0);
    let raw = w.into_data();
    assert!(matches!(
        parse_processor_state(&raw),
        Err(ProcessorDeserializeError::FromUtf8)
    ));
}

#[test]
fn invalid_link_name_utf8_rejected() {
    let mut w = DataWrite::new();
    w.write_u8(1);
    w.write_i32(0);
    w.write_i32(1);
    w.write_u16(1);
    w.write_u8(0xff);
    w.write_i16(0);
    w.write_i16(0);
    let raw = w.into_data();
    assert!(matches!(
        parse_processor_state(&raw),
        Err(ProcessorDeserializeError::Read(ReadError::Utf8))
    ));
}

#[test]
fn truncated_stream_terminates_with_error() {
    let mut st = ProcessorState::new();
    let long_code = "set x 1\n".repeat(400);
    st.set_code(&long_code).unwrap();
    let logic = processor();
    let data = logic
        .serialize_state(&State::Processor(st))
        .unwrap();
    let blob = match data {
        mindus::dynamic::DynData::ByteArray(b) => b,
        _ => panic!("expected a byte array"),
    };
    assert!(blob.len() > 4);
    let truncated = blob[..blob.len() / 2].to_vec();
    let r = logic.deserialize_state(mindus::dynamic::DynData::ByteArray(truncated));
    assert!(matches!(
        r,
        Err(DeserializeError::Processor(
            ProcessorDeserializeError::Decompress(_) | ProcessorDeserializeError::DecompressStall
        ))
    ));
}

#[test]
fn garbage_stream_terminates_with_error() {
    let logic = processor();
    let r = logic.deserialize_state(mindus::dynamic::DynData::ByteArray(vec![1, 2, 3, 4]));
    assert!(matches!(
        r,
        Err(DeserializeError::Processor(
            ProcessorDeserializeError::Decompress(_) | ProcessorDeserializeError::DecompressStall
        ))
    ));
}

#[test]
fn large_state_round_trip() {
    // forces several loop rounds on both sides: the compressed stream and the
    // decompressed layout are both far over one growth chunk
    let mut code = String::new();
    let mut seed: u32 = 0x2545_1505;
    while code.len() < 100_000 {
        seed = seed.wrapping_mul(1_103_515_245).wrapping_add(12_345);
        code.push_str(&format!("{seed:x} "));
    }
    let mut st = ProcessorState::new();
    st.set_code(&code).unwrap();
    st.create_link("cell1".to_owned(), -3, 7).unwrap();
    let logic = processor();
    let data = logic
        .serialize_state(&State::Processor(st.clone()))
        .unwrap();
    if let mindus::dynamic::DynData::ByteArray(b) = &data {
        assert!(b.len() > 1024);
    } else {
        panic!("expected a byte array");
    }
    let back = logic.deserialize_state(data).unwrap().unwrap();
    assert!(matches!(back, State::Processor(got) if got == st));
}

#[test]
fn compression_actually_compresses() {
    let input = vec![b'a'; 10000];
    let blob = compress(&input).unwrap();
    assert!(blob.len() < input.len());
    let back = decompress(&blob).unwrap();
    assert_eq!(back, input);
}

#[test]
fn decompress_ignores_trailing_bytes() {
    let input = b"payload".to_vec();
    let mut blob = compress(&input).unwrap();
    blob.push(0xab);
    blob.push(0xcd);
    let back = decompress(&blob).unwrap();
    assert_eq!(back, input);
}

#[test]
fn serialize_rejects_nothing_valid() {
    // a state at the exact code limit still encodes
    let mut st = ProcessorState::new();
    let code = "a".repeat(512000);
    st.set_code(&code).unwrap();
    let raw = write_processor_state(&st);
    let got = parse_processor_state(&raw).unwrap();
    assert_eq!(got.get_code().len(), 512000);
}

#[test]
fn reader_writer_primitives_round_trip() {
    let mut w = DataWrite::new();
    w.write_u8(0xab);
    w.write_i16(-2);
    w.write_i32(-70000);
    w.write_u16(65535);
    w.write_utf("héllo");
    assert_eq!(w.get_written().len(), 1 + 2 + 4 + 2 + 2 + 6);
    let raw = w.into_data();
    let mut r = DataRead::new(&raw);
    assert_eq!(r.read_u8().unwrap(), 0xab);
    assert_eq!(r.read_i16().unwrap(), -2);
    assert_eq!(r.read_i32().unwrap(), -70000);
    assert_eq!(r.read_u16().unwrap(), 65535);
    assert_eq!(r.read_utf().unwrap(), "héllo");
    assert!(matches!(r.read_u8(), Err(ReadError::Underflow)));
}

#[test]
fn reader_reports_underflow() {
    let raw = [1u8, 2];
    let mut r = DataRead::new(&raw);
    assert!(matches!(r.read_i32(), Err(ReadError::Underflow)));
    assert_eq!(r.read_u16().unwrap(), 0x0102);
}

#[test]
fn skip_advances_past_unmodeled_payloads() {
    let raw = [9u8, 9, 9, 9, 9, 9, 9, 9, 0x12, 0x34];
    let mut r = DataRead::new(&raw);
    mindus::block::read_drill(&mut r).unwrap();
    assert_eq!(r.read_u16().unwrap(), 0x1234);
    assert!(matches!(r.skip(1), Err(ReadError::Underflow)));
    let mut r2 = DataRead::new(&raw[..6]);
    assert!(matches!(
        mindus::block::read_drill(&mut r2),
        Err(ReadError::Underflow)
    ));
    assert_eq!(r2.read_u8().unwrap(), 9);
}

#[test]
fn legacy_reads_skip_the_documented_counts() {
    let raw = [0u8; 20];
    let mut r = DataRead::new(&raw);
    mindus::block::read_repair_turret(&mut r).unwrap();
    let f = mindus::units::AssemblerBlock::new(
        3,
        false,
        vec![],
        vec![mindus::units::UnitType::Dagger],
    );
    f.read_legacy(&mut r).unwrap();
    assert!(matches!(r.skip(3), Err(ReadError::Underflow)));
    assert!(r.skip(2).is_ok());
}

#[test]
fn read_utf_reports_invalid_encoding() {
    let raw = [0u8, 2, 0xff, 0xff];
    let mut r = DataRead::new(&raw);
    assert!(matches!(r.read_utf(), Err(ReadError::Utf8)));
}

#[test]
fn wire_round_trips() {
    let mut out: Vec<u8> = Vec::new();
    mindus::wire::push_be16(&mut out, 0x1234);
    mindus::wire::push_be32(&mut out, 0xdeadbeef);
    assert_eq!(out, vec![0x12, 0x34, 0xde, 0xad, 0xbe, 0xef]);
    assert_eq!(mindus::wire::read_be16(out[0], out[1]), 0x1234);
    assert_eq!(mindus::wire::read_be32(out[2], out[3], out[4], out[5]), 0xdeadbeef);
}

#[test]
fn serialize_errors_stay_typed() {
    // the mismatch taxonomy survives the dispatch: a serialize fault is a
    // SerializeError::Processor, never flattened
    let st = sample_state();
    let logic = processor();
    let r = logic.serialize_state(&State::Processor(st));
    match r {
        Ok(_) => {}
        Err(SerializeError::Processor(_)) => {}
        Err(_) => panic!("wrong error family"),
    }
}

fn link(name: &str, x: i16, y: i16) -> ProcessorLink {
    ProcessorLink::new(name.to_owned(), x, y)
}

#[test]
fn links_survive_in_order() {
    let mut st = ProcessorState::new();
    st.add_link(link("b", 2, 2)).unwrap();
    st.add_link(link("a", 1, 1)).unwrap();
    st.add_link(link("c", 3, 3)).unwrap();
    let raw = write_processor_state(&st);
    let got = parse_processor_state(&raw).unwrap();
    let names: Vec<&str> = got.get_links().iter().map(|l| l.get_name()).collect();
    assert_eq!(names, ["b", "a", "c"]);
}
