//! Tests of the per-kind block contracts, the dispatch surface, the registry,
//! and the rotation tables.
use mindus::block::{build_registry, Block, BlockLogicEnum, BlockRegistry, DeserializeError,
    GridPos, ItemType, Rotation, SimpleBlock, State};
use mindus::dynamic::{DynData, DynType};
use mindus::logic::{MessageLogic, SwitchLogic};
use mindus::units::{AssemblerBlock, AssemblerDeserializeError, AssemblerSerializeError, UnitType};

#[test]
fn switch_mismatch_names_both_types() {
    let r = SwitchLogic.deserialize_state(DynData::Int(3));
    assert!(matches!(
        r,
        Err(DeserializeError::InvalidType { have: DynType::Int, expect: DynType::Boolean })
    ));
}

#[test]
fn switch_defaults_on() {
    let r = SwitchLogic.deserialize_state(DynData::Empty).unwrap().unwrap();
    assert!(matches!(r, State::Switch(true)));
    let r = SwitchLogic.deserialize_state(DynData::Boolean(false)).unwrap().unwrap();
    assert!(matches!(r, State::Switch(false)));
}

#[test]
fn switch_encodes_flag() {
    let d = SwitchLogic.serialize_state(&State::Switch(false)).unwrap();
    assert!(matches!(d, DynData::Boolean(false)));
}

#[test]
fn message_normalizes_absent_text() {
    let a = MessageLogic.deserialize_state(DynData::Empty).unwrap().unwrap();
    let b = MessageLogic.deserialize_state(DynData::String(None)).unwrap().unwrap();
    assert!(matches!(&a, State::Message(s) if s.is_empty()));
    assert!(matches!(&b, State::Message(s) if s.is_empty()));
}

#[test]
fn message_keeps_text() {
    let st = MessageLogic
        .deserialize_state(DynData::String(Some("hello".to_owned())))
        .unwrap()
        .unwrap();
    assert!(matches!(&st, State::Message(s) if s == "hello"));
    let d = MessageLogic.serialize_state(&st).unwrap();
    assert!(matches!(d, DynData::String(Some(s)) if s == "hello"));
}

#[test]
fn message_mismatch_rejected() {
    let r = MessageLogic.deserialize_state(DynData::Boolean(true));
    assert!(matches!(
        r,
        Err(DeserializeError::InvalidType { have: DynType::Boolean, expect: DynType::String })
    ));
}

fn factory() -> AssemblerBlock {
    AssemblerBlock::new(
        3,
        false,
        vec![(ItemType::Copper, 50)],
        vec![UnitType::Dagger, UnitType::Crawler, UnitType::Nova],
    )
}

#[test]
fn assembler_none_selected() {
    let f = factory();
    assert!(matches!(
        f.deserialize_state(DynData::Empty).unwrap().unwrap(),
        State::Assembler(None)
    ));
    assert!(matches!(
        f.deserialize_state(DynData::Int(-1)).unwrap().unwrap(),
        State::Assembler(None)
    ));
}

#[test]
fn assembler_selects_by_index() {
    let f = factory();
    assert!(matches!(
        f.deserialize_state(DynData::Int(1)).unwrap().unwrap(),
        State::Assembler(Some(UnitType::Crawler))
    ));
}

#[test]
fn assembler_rejects_out_of_range_index() {
    let f = factory();
    let r = f.deserialize_state(DynData::Int(7));
    assert!(matches!(
        r,
        Err(DeserializeError::Assembler(AssemblerDeserializeError { idx: 7, count: 3 }))
    ));
}

#[test]
fn assembler_mismatch_rejected() {
    let f = factory();
    let r = f.deserialize_state(DynData::Boolean(true));
    assert!(matches!(
        r,
        Err(DeserializeError::InvalidType { have: DynType::Boolean, expect: DynType::Int })
    ));
}

#[test]
fn assembler_encodes_selection() {
    let f = factory();
    let d = f.serialize_state(&State::Assembler(Some(UnitType::Nova))).unwrap();
    assert!(matches!(d, DynData::Int(2)));
    let d = f.serialize_state(&State::Assembler(None)).unwrap();
    assert!(matches!(d, DynData::Int(-1)));
}

#[test]
fn assembler_rejects_foreign_unit() {
    let f = factory();
    let r = f.serialize_state(&State::Assembler(Some(UnitType::Merui)));
    assert!(matches!(
        r,
        Err(mindus::block::SerializeError::Assembler(AssemblerSerializeError(UnitType::Merui)))
    ));
}

#[test]
fn stateless_kind_has_no_state() {
    // a block with no custom state decodes to "no state" and encodes to the
    // empty value, whatever it is handed
    let conveyor = SimpleBlock::new(1, false, vec![(ItemType::Copper, 1)]);
    assert!(conveyor.deserialize_state(DynData::Empty).unwrap().is_none());
    assert!(conveyor.deserialize_state(DynData::Int(5)).unwrap().is_none());
    assert!(conveyor
        .deserialize_state(DynData::ByteArray(vec![1, 2]))
        .unwrap()
        .is_none());
    assert!(matches!(
        conveyor.serialize_state(&State::Switch(true)).unwrap(),
        DynData::Empty
    ));
    assert!(matches!(
        conveyor.serialize_state(&State::Message("x".to_owned())).unwrap(),
        DynData::Empty
    ));
}

#[test]
fn registry_resolves_known_names() {
    let reg = build_registry();
    let b = reg.get("message").unwrap();
    assert_eq!(b.name(), "message");
    assert_eq!(b.get_size(), 1);
    let b = reg.get("hyper-processor").unwrap();
    assert_eq!(b.get_size(), 3);
    assert!(b.is_symmetric());
    let b = reg.get("tetrative-reconstructor").unwrap();
    assert_eq!(b.get_size(), 9);
    assert!(!b.is_symmetric());
}

#[test]
fn registry_miss_is_recoverable() {
    let reg = build_registry();
    assert!(reg.get("no-such-block").is_none());
    assert!(reg.len() > 200);
}

#[test]
fn registry_resolves_environment_tiles() {
    let reg = build_registry();
    let grass = reg.get("grass").unwrap();
    assert_eq!(grass.get_size(), 1);
    assert!(grass.get_build_cost().is_none());
    assert!(grass.deserialize_state(DynData::Int(2)).unwrap().is_none());
    assert_eq!(reg.get("stone-wall-large").unwrap().get_size(), 2);
    assert_eq!(reg.get("arkyic-vent").unwrap().get_size(), 3);
    assert_eq!(reg.get("build16").unwrap().get_size(), 1);
}

#[test]
fn registry_rejects_duplicate_names() {
    let mut reg = BlockRegistry::new();
    let a = Block::new("message".to_owned(), BlockLogicEnum::Message(MessageLogic));
    let b = Block::new("message".to_owned(), BlockLogicEnum::Switch(SwitchLogic));
    assert!(reg.register(a).is_ok());
    let got_back = reg.register(b).unwrap_err();
    assert_eq!(got_back.name(), "message");
    assert_eq!(reg.len(), 1);
}

#[test]
fn blocks_equal_by_name() {
    let a = Block::new("switch".to_owned(), BlockLogicEnum::Switch(SwitchLogic));
    let b = Block::new("switch".to_owned(), BlockLogicEnum::Message(MessageLogic));
    assert!(a == b);
    let c = Block::new("message".to_owned(), BlockLogicEnum::Message(MessageLogic));
    assert!(a != c);
}

#[test]
fn dispatch_decodes_through_registry() {
    let reg = build_registry();
    let sw = reg.get("switch").unwrap();
    let st = sw.deserialize_state(DynData::Boolean(true)).unwrap().unwrap();
    assert!(matches!(st, State::Switch(true)));
    let r = sw.deserialize_state(DynData::Int(0));
    assert!(matches!(
        r,
        Err(DeserializeError::InvalidType { have: DynType::Int, expect: DynType::Boolean })
    ));
}

#[test]
fn conveyor_through_registry_stays_stateless() {
    let reg = build_registry();
    let conv = reg.get("conveyor").unwrap();
    assert!(conv.deserialize_state(DynData::Int(9)).unwrap().is_none());
    assert!(matches!(
        conv.serialize_state(&State::Switch(true)).unwrap(),
        DynData::Empty
    ));
    let cost = conv.get_build_cost().unwrap();
    assert_eq!(cost[0], (ItemType::Copper, 1));
}

#[test]
fn message_block_has_no_cost() {
    let reg = build_registry();
    assert!(reg.get("message").unwrap().get_build_cost().is_none());
}

#[test]
fn default_configurations() {
    let reg = build_registry();
    let pos = GridPos(0, 0);
    assert!(matches!(
        reg.get("switch").unwrap().data_from_i32(3, pos),
        DynData::Empty
    ));
    assert!(matches!(
        reg.get("ground-factory").unwrap().data_from_i32(3, pos),
        DynData::Int(-1)
    ));
}

#[test]
fn clone_and_transforms_preserve_state() {
    let reg = build_registry();
    let sw = reg.get("switch").unwrap();
    let mut st = State::Switch(false);
    let copy = sw.clone_state(&st);
    assert!(matches!(copy, State::Switch(false)));
    sw.mirror_state(&mut st, true, false);
    sw.rotate_state(&mut st, true);
    assert!(matches!(st, State::Switch(false)));
}

#[test]
fn rotation_tables() {
    assert_eq!(Rotation::Up.rotated(true), Rotation::Right);
    assert_eq!(Rotation::Up.rotated(false), Rotation::Left);
    assert_eq!(Rotation::Right.rotated(true), Rotation::Down);
    assert_eq!(Rotation::Left.rotated_180(), Rotation::Right);
    assert_eq!(Rotation::Right.mirrored(true, false), Rotation::Left);
    assert_eq!(Rotation::Right.mirrored(false, true), Rotation::Right);
    assert_eq!(Rotation::Up.mirrored(false, true), Rotation::Down);
    assert_eq!(Rotation::Up.mirrored(true, false), Rotation::Up);
}

#[test]
fn rotation_in_place() {
    let mut r = Rotation::Up;
    r.rotate(true);
    assert_eq!(r, Rotation::Right);
    r.mirror(true, false);
    assert_eq!(r, Rotation::Left);
    r.rotate_180();
    assert_eq!(r, Rotation::Right);
}

#[test]
fn rotation_codes() {
    assert_eq!(Rotation::Up.count(), 0);
    assert_eq!(Rotation::Left.count(), 3);
    assert_eq!(Rotation::Up.mask(), 8);
    assert_eq!(Rotation::Left.mask(), 1);
    assert_eq!(Rotation::Right.ch(), '>');
    assert_eq!(Rotation::Down.ch(), 'v');
    assert_eq!(Rotation::from(0u8), Rotation::Right);
    assert_eq!(Rotation::from(5u8), Rotation::Up);
    assert_eq!(u8::from(Rotation::Down), 3);
}

#[test]
fn dyn_data_discriminants() {
    assert_eq!(DynData::Empty.get_type(), DynType::Empty);
    assert_eq!(DynData::Int(0).get_type(), DynType::Int);
    assert_eq!(DynData::Boolean(true).get_type(), DynType::Boolean);
    assert_eq!(DynData::String(None).get_type(), DynType::String);
    assert_eq!(DynData::ByteArray(vec![]).get_type(), DynType::ByteArray);
}
